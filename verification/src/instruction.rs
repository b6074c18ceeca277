//! Unsigned ledger instructions: the program that reads them, the accounts
//! that they touch, in order, and their data bytes.

use crate::error::OpError;
use crate::keys::PublicKey;
use vstd::pervasive::unreached;
use vstd::prelude::*;

verus! {

/// Largest number of decimals that a new mint may have.
pub const MAX_DECIMALS: u8 = 9;

/// The address of the native transfer program: 32 zero bytes.
pub open spec fn system_program_id() -> Seq<u8> {
    Seq::new(32, |i: int| 0u8)
}

/// The address of the token program.
pub open spec fn token_program_id() -> Seq<u8> {
    seq![
        6u8, 221, 246, 225, 215, 101, 161, 147, 217, 203, 225, 70, 206, 235, 121, 172,
        28, 180, 133, 237, 95, 91, 55, 145, 58, 140, 245, 133, 126, 255, 0, 169,
    ]
}

/// The eight bytes of `x`, least significant first.
pub open spec fn u64_le_bytes(x: u64) -> Seq<u8> {
    seq![
        (x % 0x100) as u8,
        ((x / 0x100) % 0x100) as u8,
        ((x / 0x1_0000) % 0x100) as u8,
        ((x / 0x100_0000) % 0x100) as u8,
        ((x / 0x1_0000_0000) % 0x100) as u8,
        ((x / 0x100_0000_0000) % 0x100) as u8,
        ((x / 0x1_0000_0000_0000) % 0x100) as u8,
        ((x / 0x100_0000_0000_0000) % 0x100) as u8,
    ]
}

/// Data of a native transfer: the tag 2 in four bytes, then the amount.
pub open spec fn native_transfer_data(lamports: u64) -> Seq<u8> {
    seq![2u8, 0, 0, 0] + u64_le_bytes(lamports)
}

/// Data of a mint initialization: the tag 0, the decimals, the mint
/// authority, then a presence flag and, where present, the freeze authority.
pub open spec fn initialize_mint_data(
    decimals: u8,
    mint_authority: Seq<u8>,
    freeze_authority: Option<Seq<u8>>,
) -> Seq<u8> {
    seq![0u8, decimals] + mint_authority + match freeze_authority {
        Some(key) => seq![1u8] + key,
        None => seq![0u8],
    }
}

/// Data of a mint-to: the tag 7, then the amount.
pub open spec fn mint_to_data(amount: u64) -> Seq<u8> {
    seq![7u8] + u64_le_bytes(amount)
}

/// Data of a token transfer: the tag 3, then the amount.
pub open spec fn token_transfer_data(amount: u64) -> Seq<u8> {
    seq![3u8] + u64_le_bytes(amount)
}

/// The bytes of a key that may be absent.
pub open spec fn key_bytes(key: Option<PublicKey>) -> Option<Seq<u8>> {
    match key {
        Some(key) => Some(key@),
        None => None,
    }
}

/// What the token program's instruction builders report when they refuse.
#[verifier::external_type_specification]
#[verifier::external_body]
pub struct ExProgramError(solana_sdk::program_error::ProgramError);

/// `solana_sdk::system_instruction::transfer`, of which the program id and
/// the data are kept. Believed, not proved: the program is the system
/// program, and the data is the little-endian `u32` 2 followed by the
/// little-endian amount.
#[verifier::external_body]
fn sdk_system_transfer(from: &PublicKey, to: &PublicKey, lamports: u64) -> (parts: (
    PublicKey,
    Vec<u8>,
))
    ensures
        parts.0@ == system_program_id(),
        parts.1@ == native_transfer_data(lamports),
{
    let from = solana_sdk::pubkey::Pubkey::from(from.bytes);
    let to = solana_sdk::pubkey::Pubkey::from(to.bytes);
    let made = solana_sdk::system_instruction::transfer(&from, &to, lamports);
    (PublicKey { bytes: made.program_id.to_bytes() }, made.data)
}

/// `spl_token::instruction::initialize_mint` for the token program's own id,
/// of which the program id and the data are kept. Believed, not proved: it
/// succeeds, the program is the token program, and the data is laid out as
/// [`initialize_mint_data`] says.
#[verifier::external_body]
fn spl_initialize_mint(
    mint: &PublicKey,
    mint_authority: &PublicKey,
    freeze_authority: Option<PublicKey>,
    decimals: u8,
) -> (r: Result<(PublicKey, Vec<u8>), solana_sdk::program_error::ProgramError>)
    ensures
        r is Ok,
        r matches Ok(parts) ==> parts.0@ == token_program_id(),
        r matches Ok(parts) ==> parts.1@ == initialize_mint_data(
            decimals,
            mint_authority@,
            key_bytes(freeze_authority),
        ),
{
    let mint = solana_sdk::pubkey::Pubkey::from(mint.bytes);
    let authority = solana_sdk::pubkey::Pubkey::from(mint_authority.bytes);
    let freeze = freeze_authority.map(|key| solana_sdk::pubkey::Pubkey::from(key.bytes));
    let made = spl_token::instruction::initialize_mint(
        &spl_token::id(),
        &mint,
        &authority,
        freeze.as_ref(),
        decimals,
    )?;
    Ok((PublicKey { bytes: made.program_id.to_bytes() }, made.data))
}

/// `spl_token::instruction::mint_to` for the token program's own id and no
/// extra signers, of which the program id and the data are kept. Believed,
/// not proved: it succeeds, the program is the token program, and the data
/// is the tag 7 followed by the little-endian amount.
#[verifier::external_body]
fn spl_mint_to(mint: &PublicKey, destination: &PublicKey, authority: &PublicKey, amount: u64) -> (r:
    Result<(PublicKey, Vec<u8>), solana_sdk::program_error::ProgramError>)
    ensures
        r is Ok,
        r matches Ok(parts) ==> parts.0@ == token_program_id(),
        r matches Ok(parts) ==> parts.1@ == mint_to_data(amount),
{
    let mint = solana_sdk::pubkey::Pubkey::from(mint.bytes);
    let destination = solana_sdk::pubkey::Pubkey::from(destination.bytes);
    let authority = solana_sdk::pubkey::Pubkey::from(authority.bytes);
    let made = spl_token::instruction::mint_to(
        &spl_token::id(),
        &mint,
        &destination,
        &authority,
        &[],
        amount,
    )?;
    Ok((PublicKey { bytes: made.program_id.to_bytes() }, made.data))
}

/// `spl_token::instruction::transfer` for the token program's own id and no
/// extra signers, of which the program id and the data are kept. Believed,
/// not proved: it succeeds, the program is the token program, and the data
/// is the tag 3 followed by the little-endian amount.
#[verifier::external_body]
fn spl_transfer(source: &PublicKey, destination: &PublicKey, owner: &PublicKey, amount: u64) -> (r:
    Result<(PublicKey, Vec<u8>), solana_sdk::program_error::ProgramError>)
    ensures
        r is Ok,
        r matches Ok(parts) ==> parts.0@ == token_program_id(),
        r matches Ok(parts) ==> parts.1@ == token_transfer_data(amount),
{
    let source = solana_sdk::pubkey::Pubkey::from(source.bytes);
    let destination = solana_sdk::pubkey::Pubkey::from(destination.bytes);
    let owner = solana_sdk::pubkey::Pubkey::from(owner.bytes);
    let made = spl_token::instruction::transfer(
        &spl_token::id(),
        &source,
        &destination,
        &owner,
        &[],
        amount,
    )?;
    Ok((PublicKey { bytes: made.program_id.to_bytes() }, made.data))
}

/// Program id and data of a native transfer of `lamports` from `from` to
/// `to`.
pub fn create_transfer_instruction(from: &PublicKey, to: &PublicKey, lamports: u64) -> (parts: (
    PublicKey,
    Vec<u8>,
))
    ensures
        parts.0@ == system_program_id(),
        parts.1@ == native_transfer_data(lamports),
{
    sdk_system_transfer(from, to, lamports)
}

/// Program id and data of the instruction that mints `amount` of `mint` to
/// the token account `destination`.
pub fn create_mint_instruction(
    mint: &PublicKey,
    destination: &PublicKey,
    authority: &PublicKey,
    amount: u64,
) -> (parts: (PublicKey, Vec<u8>))
    ensures
        parts.0@ == token_program_id(),
        parts.1@ == mint_to_data(amount),
{
    match spl_mint_to(mint, destination, authority, amount) {
        Ok(parts) => parts,
        Err(_) => unreached(),
    }
}

/// Program id and data of the instruction that moves `amount` from the token
/// account `source` to the token account `destination`.
pub fn create_token_transfer_instruction(
    source: &PublicKey,
    destination: &PublicKey,
    owner: &PublicKey,
    amount: u64,
) -> (parts: (PublicKey, Vec<u8>))
    ensures
        parts.0@ == token_program_id(),
        parts.1@ == token_transfer_data(amount),
{
    match spl_transfer(source, destination, owner, amount) {
        Ok(parts) => parts,
        Err(_) => unreached(),
    }
}

/// Program id and data of the instruction that initializes `mint`, with
/// `mint_authority` as both its mint authority and its freeze authority.
pub fn create_initialize_mint_instruction(
    mint: &PublicKey,
    decimals: u8,
    mint_authority: &PublicKey,
) -> (parts: (PublicKey, Vec<u8>))
    ensures
        parts.0@ == token_program_id(),
        parts.1@ == initialize_mint_data(decimals, mint_authority@, Some(mint_authority@)),
{
    match spl_initialize_mint(mint, mint_authority, Some(*mint_authority), decimals) {
        Ok(parts) => parts,
        Err(_) => unreached(),
    }
}

/// How an instruction touches one account.
#[derive(Clone, Copy, Debug)]
pub struct AccountRef {
    pub pubkey: PublicKey,
    pub is_signer: bool,
    pub is_writable: bool,
}

/// What an [`AccountRef`] holds, as mathematical values.
pub struct AccountModel {
    pub pubkey: Seq<u8>,
    pub is_signer: bool,
    pub is_writable: bool,
}

impl View for AccountRef {
    type V = AccountModel;

    open spec fn view(&self) -> AccountModel {
        AccountModel {
            pubkey: self.pubkey@,
            is_signer: self.is_signer,
            is_writable: self.is_writable,
        }
    }
}

/// An unsigned instruction. The order of the accounts is part of the
/// protocol.
#[derive(Debug)]
pub struct Instruction {
    pub program_id: PublicKey,
    pub accounts: Vec<AccountRef>,
    pub data: Vec<u8>,
}

/// What an [`Instruction`] holds, as mathematical values.
pub struct InstructionModel {
    pub program_id: Seq<u8>,
    pub accounts: Seq<AccountModel>,
    pub data: Seq<u8>,
}

impl View for Instruction {
    type V = InstructionModel;

    open spec fn view(&self) -> InstructionModel {
        InstructionModel {
            program_id: self.program_id@,
            accounts: self.accounts@.map_values(|account: AccountRef| account@),
            data: self.data@,
        }
    }
}

/// A request for one instruction.
#[derive(Clone, Copy, Debug)]
pub enum Operation {
    /// Move `lamports` of the native currency from `from` to `to`.
    NativeTransfer { from: PublicKey, to: PublicKey, lamports: u64 },
    /// Set up `mint` as a new token mint.
    InitializeMint {
        mint: PublicKey,
        decimals: u8,
        mint_authority: PublicKey,
        freeze_authority: Option<PublicKey>,
    },
    /// Mint `amount` new tokens of `mint` to the token account `destination`.
    MintTo { mint: PublicKey, destination: PublicKey, authority: PublicKey, amount: u64 },
    /// Move `amount` tokens from the token account `source` to the token
    /// account `destination`; `owner` signs for `source`.
    TokenTransfer { source: PublicKey, destination: PublicKey, owner: PublicKey, amount: u64 },
}

/// What an [`Operation`] holds, as mathematical values.
pub enum OperationModel {
    NativeTransfer { from: Seq<u8>, to: Seq<u8>, lamports: u64 },
    InitializeMint {
        mint: Seq<u8>,
        decimals: u8,
        mint_authority: Seq<u8>,
        freeze_authority: Option<Seq<u8>>,
    },
    MintTo { mint: Seq<u8>, destination: Seq<u8>, authority: Seq<u8>, amount: u64 },
    TokenTransfer { source: Seq<u8>, destination: Seq<u8>, owner: Seq<u8>, amount: u64 },
}

impl View for Operation {
    type V = OperationModel;

    open spec fn view(&self) -> OperationModel {
        match *self {
            Operation::NativeTransfer { from, to, lamports } => OperationModel::NativeTransfer {
                from: from@,
                to: to@,
                lamports,
            },
            Operation::InitializeMint { mint, decimals, mint_authority, freeze_authority } => {
                OperationModel::InitializeMint {
                    mint: mint@,
                    decimals,
                    mint_authority: mint_authority@,
                    freeze_authority: key_bytes(freeze_authority),
                }
            },
            Operation::MintTo { mint, destination, authority, amount } => OperationModel::MintTo {
                mint: mint@,
                destination: destination@,
                authority: authority@,
                amount,
            },
            Operation::TokenTransfer { source, destination, owner, amount } => {
                OperationModel::TokenTransfer {
                    source: source@,
                    destination: destination@,
                    owner: owner@,
                    amount,
                }
            },
        }
    }
}

/// An account that must sign and is changed.
pub open spec fn signer_writable(key: Seq<u8>) -> AccountModel {
    AccountModel { pubkey: key, is_signer: true, is_writable: true }
}

/// An account that is changed and need not sign.
pub open spec fn writable(key: Seq<u8>) -> AccountModel {
    AccountModel { pubkey: key, is_signer: false, is_writable: true }
}

/// An account that must sign and is not changed.
pub open spec fn signer(key: Seq<u8>) -> AccountModel {
    AccountModel { pubkey: key, is_signer: true, is_writable: false }
}

/// Whether the rules of the ledger allow `op`: amounts are positive, a new
/// mint has at most [`MAX_DECIMALS`] decimals, and nothing is moved from an
/// account to itself.
pub open spec fn operation_allowed(op: OperationModel) -> bool {
    match op {
        OperationModel::NativeTransfer { from, to, lamports } => lamports > 0 && from != to,
        OperationModel::InitializeMint { decimals, .. } => decimals <= MAX_DECIMALS,
        OperationModel::MintTo { amount, .. } => amount > 0,
        OperationModel::TokenTransfer { source, destination, amount, .. } => amount > 0 && source
            != destination,
    }
}

/// The instruction that `op` asks for.
pub open spec fn instruction_of(op: OperationModel) -> InstructionModel {
    match op {
        OperationModel::NativeTransfer { from, to, lamports } => InstructionModel {
            program_id: system_program_id(),
            accounts: seq![signer_writable(from), writable(to)],
            data: native_transfer_data(lamports),
        },
        OperationModel::InitializeMint { mint, decimals, mint_authority, freeze_authority } => {
            InstructionModel {
                program_id: token_program_id(),
                accounts: seq![writable(mint)],
                data: initialize_mint_data(decimals, mint_authority, freeze_authority),
            }
        },
        OperationModel::MintTo { mint, destination, authority, amount } => InstructionModel {
            program_id: token_program_id(),
            accounts: seq![writable(mint), writable(destination), signer(authority)],
            data: mint_to_data(amount),
        },
        OperationModel::TokenTransfer { source, destination, owner, amount } => InstructionModel {
            program_id: token_program_id(),
            accounts: seq![writable(source), writable(destination), signer(owner)],
            data: token_transfer_data(amount),
        },
    }
}

/// What building the instruction for `op` gives: the instruction, or
/// [`OpError::Domain`] where the rules of the ledger do not allow `op`.
pub open spec fn build_result(op: OperationModel) -> Result<InstructionModel, OpError> {
    if operation_allowed(op) {
        Ok(instruction_of(op))
    } else {
        Err(OpError::Domain)
    }
}

/// Builds the instruction that `op` asks for. Fails with
/// [`OpError::Domain`], before anything is built, exactly when the rules of
/// the ledger do not allow `op`.
pub fn build_instruction(op: &Operation) -> (r: Result<Instruction, OpError>)
    ensures
        match (r, build_result(op@)) {
            (Ok(made), Ok(model)) => made@ == model,
            (Err(e), Err(expected)) => e == expected,
            _ => false,
        },
{
    match op {
        Operation::NativeTransfer { from, to, lamports } => {
            if *lamports == 0 || from.same_as(to) {
                return Err(OpError::Domain);
            }
            let (program_id, data) = create_transfer_instruction(from, to, *lamports);
            let mut accounts: Vec<AccountRef> = Vec::new();
            accounts.push(AccountRef { pubkey: *from, is_signer: true, is_writable: true });
            accounts.push(AccountRef { pubkey: *to, is_signer: false, is_writable: true });
            let made = Instruction { program_id, accounts, data };
            assert(made@.accounts =~= instruction_of(op@).accounts);
            Ok(made)
        },
        Operation::InitializeMint { mint, decimals, mint_authority, freeze_authority } => {
            if *decimals > MAX_DECIMALS {
                return Err(OpError::Domain);
            }
            let (program_id, data) = match spl_initialize_mint(
                mint,
                mint_authority,
                *freeze_authority,
                *decimals,
            ) {
                Ok(parts) => parts,
                Err(_) => unreached(),
            };
            let mut accounts: Vec<AccountRef> = Vec::new();
            accounts.push(AccountRef { pubkey: *mint, is_signer: false, is_writable: true });
            let made = Instruction { program_id, accounts, data };
            assert(made@.accounts =~= instruction_of(op@).accounts);
            Ok(made)
        },
        Operation::MintTo { mint, destination, authority, amount } => {
            if *amount == 0 {
                return Err(OpError::Domain);
            }
            let (program_id, data) = create_mint_instruction(mint, destination, authority, *amount);
            let mut accounts: Vec<AccountRef> = Vec::new();
            accounts.push(AccountRef { pubkey: *mint, is_signer: false, is_writable: true });
            accounts.push(AccountRef { pubkey: *destination, is_signer: false, is_writable: true });
            accounts.push(AccountRef { pubkey: *authority, is_signer: true, is_writable: false });
            let made = Instruction { program_id, accounts, data };
            assert(made@.accounts =~= instruction_of(op@).accounts);
            Ok(made)
        },
        Operation::TokenTransfer { source, destination, owner, amount } => {
            if *amount == 0 || source.same_as(destination) {
                return Err(OpError::Domain);
            }
            let (program_id, data) = create_token_transfer_instruction(
                source,
                destination,
                owner,
                *amount,
            );
            let mut accounts: Vec<AccountRef> = Vec::new();
            accounts.push(AccountRef { pubkey: *source, is_signer: false, is_writable: true });
            accounts.push(AccountRef { pubkey: *destination, is_signer: false, is_writable: true });
            accounts.push(AccountRef { pubkey: *owner, is_signer: true, is_writable: false });
            let made = Instruction { program_id, accounts, data };
            assert(made@.accounts =~= instruction_of(op@).accounts);
            Ok(made)
        },
    }
}

} // verus!
