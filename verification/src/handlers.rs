//! One function for each kind of request: from the request as it came in to
//! the response that goes out.

use crate::associated::associated_address;
use crate::associated::derive_associated_account;
use crate::base58::base58_text;
use crate::base64::base64_bytes;
use crate::base64::base64_text;
use crate::base64::base64_to_bytes;
use crate::base64::bytes_to_base64;
use crate::error::OpError;
use crate::failure::Failure;
use crate::failure::Field;
use crate::instruction::build_instruction;
use crate::instruction::build_result;
use crate::instruction::AccountModel;
use crate::instruction::Instruction;
use crate::instruction::InstructionModel;
use crate::instruction::Operation;
use crate::instruction::OperationModel;
use crate::keys::base58_to_keypair;
use crate::keys::base58_to_pubkey;
use crate::keys::parse_key_pair;
use crate::keys::parse_public_key;
use crate::keys::pubkey_to_base58;
use crate::keys::KeyPair;
use crate::keys::PublicKey;
use crate::models::AccountMeta;
use crate::models::ApiResponse;
use crate::models::CreateTokenRequest;
use crate::models::InstructionResponse;
use crate::models::KeypairResponse;
use crate::models::MintTokenRequest;
use crate::models::SendSolRequest;
use crate::models::SendTokenRequest;
use crate::models::SignMessageRequest;
use crate::models::SignMessageResponse;
use crate::models::VerifyMessageRequest;
use crate::models::VerifyMessageResponse;
use crate::signing::ed25519_signature;
use crate::signing::ed25519_verifies;
use crate::signing::sign;
use crate::signing::verify;
use crate::signing::Signature;
use vstd::prelude::*;
use vstd::utf8::encode_utf8;

verus! {

/// `account` is `model` as text: the key in base 58, the flags as they are.
pub open spec fn account_presents(account: AccountMeta, model: AccountModel) -> bool {
    &&& account.pubkey@ == base58_text(model.pubkey)
    &&& account.is_signer == model.is_signer
    &&& account.is_writable == model.is_writable
}

/// `response` is `model` as text: program id and account keys in base 58,
/// the accounts in the same order, the data in base 64.
pub open spec fn presents(response: InstructionResponse, model: InstructionModel) -> bool {
    &&& response.program_id@ == base58_text(model.program_id)
    &&& response.accounts@.len() == model.accounts.len()
    &&& forall|i: int|
        0 <= i < model.accounts.len() ==> account_presents(
            #[trigger] response.accounts@[i],
            model.accounts[i],
        )
    &&& response.instruction_data@ == base64_text(model.data)
}

/// Writes an instruction as text.
pub fn present(made: &Instruction) -> (response: InstructionResponse)
    ensures
        presents(response, made@),
{
    let mut accounts: Vec<AccountMeta> = Vec::new();
    let mut i: usize = 0;
    while i < made.accounts.len()
        invariant
            i <= made.accounts@.len(),
            accounts@.len() == i,
            forall|j: int|
                0 <= j < i ==> account_presents(#[trigger] accounts@[j], made.accounts@[j]@),
        decreases made.accounts@.len() - i,
    {
        let account = &made.accounts[i];
        accounts.push(
            AccountMeta {
                pubkey: pubkey_to_base58(&account.pubkey),
                is_signer: account.is_signer,
                is_writable: account.is_writable,
            },
        );
        i = i + 1;
    }
    InstructionResponse {
        program_id: pubkey_to_base58(&made.program_id),
        accounts,
        instruction_data: bytes_to_base64(made.data.as_slice()),
    }
}

/// `response` is the envelope of `expected`: the instruction as text, or the
/// message of the failure.
pub open spec fn answers(
    response: ApiResponse<InstructionResponse>,
    expected: Result<InstructionModel, Failure>,
) -> bool {
    match expected {
        Ok(model) => {
            &&& response.success
            &&& response.error is None
            &&& response.data matches Some(data) && presents(data, model)
        },
        Err(failure) => {
            &&& !response.success
            &&& response.data is None
            &&& response.error matches Some(message) && message@ == failure.text()
        },
    }
}

/// What reading `text` as the public key of `field` gives.
pub open spec fn key_of_field(field: Field, text: Seq<char>) -> Result<Seq<u8>, Failure> {
    match parse_public_key(text) {
        Ok(bytes) => Ok(bytes),
        Err(kind) => Err(Failure::Parse(field, kind)),
    }
}

/// Reads the public key of `field` from its base-58 text.
pub fn read_key(field: Field, text: &str) -> (r: Result<PublicKey, Failure>)
    ensures
        match (r, key_of_field(field, text@)) {
            (Ok(key), Ok(bytes)) => key@ == bytes,
            (Err(failure), Err(expected)) => failure == expected,
            _ => false,
        },
{
    match base58_to_pubkey(text) {
        Ok(key) => Ok(key),
        Err(kind) => Err(Failure::Parse(field, kind)),
    }
}

/// The instruction that a planned operation gives, or why there is none.
pub open spec fn outcome(plan: Result<OperationModel, Failure>) -> Result<
    InstructionModel,
    Failure,
> {
    match plan {
        Ok(op) => match build_result(op) {
            Ok(model) => Ok(model),
            Err(_) => Err(Failure::Domain),
        },
        Err(failure) => Err(failure),
    }
}

/// Builds what was planned and wraps it, or the failure, for the response.
pub fn respond(plan: Result<Operation, Failure>) -> (response: ApiResponse<InstructionResponse>)
    ensures
        match plan {
            Ok(op) => answers(response, outcome(Ok(op@))),
            Err(failure) => answers(response, Err(failure)),
        },
{
    match plan {
        Ok(op) => match build_instruction(&op) {
            Ok(made) => ApiResponse::success(present(&made)),
            Err(_) => ApiResponse::error(Failure::Domain.message()),
        },
        Err(failure) => ApiResponse::error(failure.message()),
    }
}

/// The operation that a request for a native transfer asks for.
pub open spec fn send_sol_plan(payload: SendSolRequest) -> Result<OperationModel, Failure> {
    match payload.violation() {
        Some(field) => Err(Failure::Validation(field)),
        None => match key_of_field(Field::From, payload.from@) {
            Err(failure) => Err(failure),
            Ok(from) => match key_of_field(Field::To, payload.to@) {
                Err(failure) => Err(failure),
                Ok(to) => Ok(
                    OperationModel::NativeTransfer { from, to, lamports: payload.lamports },
                ),
            },
        },
    }
}

fn plan_send_sol(payload: &SendSolRequest) -> (r: Result<Operation, Failure>)
    ensures
        match (r, send_sol_plan(*payload)) {
            (Ok(op), Ok(model)) => op@ == model,
            (Err(failure), Err(expected)) => failure == expected,
            _ => false,
        },
{
    match payload.validate() {
        Err(field) => Err(Failure::Validation(field)),
        Ok(()) => match read_key(Field::From, payload.from.as_str()) {
            Err(failure) => Err(failure),
            Ok(from) => match read_key(Field::To, payload.to.as_str()) {
                Err(failure) => Err(failure),
                Ok(to) => Ok(Operation::NativeTransfer { from, to, lamports: payload.lamports }),
            },
        },
    }
}

/// Answers a request for a native transfer: the form of the request is
/// checked, then both keys are read, then the instruction is built.
pub fn send_sol(payload: SendSolRequest) -> (response: ApiResponse<InstructionResponse>)
    ensures
        answers(response, outcome(send_sol_plan(payload))),
{
    respond(plan_send_sol(&payload))
}

/// The operation that a request for a new mint asks for. The mint authority
/// is the freeze authority too.
pub open spec fn create_token_plan(payload: CreateTokenRequest) -> Result<OperationModel, Failure> {
    match payload.violation() {
        Some(field) => Err(Failure::Validation(field)),
        None => match key_of_field(Field::MintAuthority, payload.mint_authority@) {
            Err(failure) => Err(failure),
            Ok(mint_authority) => match key_of_field(Field::Mint, payload.mint@) {
                Err(failure) => Err(failure),
                Ok(mint) => Ok(
                    OperationModel::InitializeMint {
                        mint,
                        decimals: payload.decimals,
                        mint_authority,
                        freeze_authority: Some(mint_authority),
                    },
                ),
            },
        },
    }
}

fn plan_create_token(payload: &CreateTokenRequest) -> (r: Result<Operation, Failure>)
    ensures
        match (r, create_token_plan(*payload)) {
            (Ok(op), Ok(model)) => op@ == model,
            (Err(failure), Err(expected)) => failure == expected,
            _ => false,
        },
{
    match payload.validate() {
        Err(field) => Err(Failure::Validation(field)),
        Ok(()) => match read_key(Field::MintAuthority, payload.mint_authority.as_str()) {
            Err(failure) => Err(failure),
            Ok(mint_authority) => match read_key(Field::Mint, payload.mint.as_str()) {
                Err(failure) => Err(failure),
                Ok(mint) => Ok(
                    Operation::InitializeMint {
                        mint,
                        decimals: payload.decimals,
                        mint_authority,
                        freeze_authority: Some(mint_authority),
                    },
                ),
            },
        },
    }
}

/// Answers a request for a new mint: the form of the request is checked,
/// then both keys are read, then the instruction is built.
pub fn create_token(payload: CreateTokenRequest) -> (response: ApiResponse<InstructionResponse>)
    ensures
        answers(response, outcome(create_token_plan(payload))),
{
    respond(plan_create_token(&payload))
}

/// The operation that a request for minting asks for.
pub open spec fn mint_token_plan(payload: MintTokenRequest) -> Result<OperationModel, Failure> {
    match payload.violation() {
        Some(field) => Err(Failure::Validation(field)),
        None => match key_of_field(Field::Mint, payload.mint@) {
            Err(failure) => Err(failure),
            Ok(mint) => match key_of_field(Field::Destination, payload.destination@) {
                Err(failure) => Err(failure),
                Ok(destination) => match key_of_field(Field::Authority, payload.authority@) {
                    Err(failure) => Err(failure),
                    Ok(authority) => Ok(
                        OperationModel::MintTo {
                            mint,
                            destination,
                            authority,
                            amount: payload.amount,
                        },
                    ),
                },
            },
        },
    }
}

fn plan_mint_token(payload: &MintTokenRequest) -> (r: Result<Operation, Failure>)
    ensures
        match (r, mint_token_plan(*payload)) {
            (Ok(op), Ok(model)) => op@ == model,
            (Err(failure), Err(expected)) => failure == expected,
            _ => false,
        },
{
    match payload.validate() {
        Err(field) => Err(Failure::Validation(field)),
        Ok(()) => match read_key(Field::Mint, payload.mint.as_str()) {
            Err(failure) => Err(failure),
            Ok(mint) => match read_key(Field::Destination, payload.destination.as_str()) {
                Err(failure) => Err(failure),
                Ok(destination) => match read_key(Field::Authority, payload.authority.as_str()) {
                    Err(failure) => Err(failure),
                    Ok(authority) => Ok(
                        Operation::MintTo { mint, destination, authority, amount: payload.amount },
                    ),
                },
            },
        },
    }
}

/// Answers a request for minting: the form of the request is checked, then
/// the three keys are read, then the instruction is built.
pub fn mint_token(payload: MintTokenRequest) -> (response: ApiResponse<InstructionResponse>)
    ensures
        answers(response, outcome(mint_token_plan(payload))),
{
    respond(plan_mint_token(&payload))
}

/// The token transfer from the associated account of `owner` for `mint` to
/// the token account `destination`, which is taken as it is given. There is
/// none where the owner's account cannot be derived.
pub open spec fn transfer_from_owner(
    destination: Seq<u8>,
    mint: Seq<u8>,
    owner: Seq<u8>,
    amount: u64,
) -> Result<OperationModel, Failure> {
    match associated_address(owner, mint) {
        Some(source) => Ok(
            OperationModel::TokenTransfer { source: source.0, destination, owner, amount },
        ),
        None => Err(Failure::Domain),
    }
}

/// The operation that a request for a token transfer asks for: tokens move
/// from the owner's associated account to the destination account.
pub open spec fn send_token_plan(payload: SendTokenRequest) -> Result<OperationModel, Failure> {
    match payload.violation() {
        Some(field) => Err(Failure::Validation(field)),
        None => match key_of_field(Field::Destination, payload.destination@) {
            Err(failure) => Err(failure),
            Ok(destination) => match key_of_field(Field::Mint, payload.mint@) {
                Err(failure) => Err(failure),
                Ok(mint) => match key_of_field(Field::Owner, payload.owner@) {
                    Err(failure) => Err(failure),
                    Ok(owner) => transfer_from_owner(destination, mint, owner, payload.amount),
                },
            },
        },
    }
}

/// A request whose destination is the very account that is derived for its
/// owner and mint is refused: nothing is moved from an account to itself.
pub proof fn law_transfer_to_the_source_is_refused(payload: SendTokenRequest)
    requires
        payload.violation() is None,
        parse_public_key(payload.destination@) is Ok,
        parse_public_key(payload.mint@) is Ok,
        parse_public_key(payload.owner@) is Ok,
        associated_address(
            parse_public_key(payload.owner@).unwrap(),
            parse_public_key(payload.mint@).unwrap(),
        ) matches Some(source) && source.0 == parse_public_key(payload.destination@).unwrap(),
    ensures
        outcome(send_token_plan(payload)) == Err::<InstructionModel, Failure>(Failure::Domain),
{
}

/// Derives the owner's token account for a transfer to `destination`.
pub fn plan_token_transfer(
    destination: &PublicKey,
    mint: &PublicKey,
    owner: &PublicKey,
    amount: u64,
) -> (r: Result<Operation, Failure>)
    ensures
        match (r, transfer_from_owner(destination@, mint@, owner@, amount)) {
            (Ok(op), Ok(model)) => op@ == model,
            (Err(failure), Err(expected)) => failure == expected,
            _ => false,
        },
{
    match derive_associated_account(owner, mint) {
        Err(_) => Err(Failure::Domain),
        Ok((source, _)) => Ok(
            Operation::TokenTransfer { source, destination: *destination, owner: *owner, amount },
        ),
    }
}

fn plan_send_token(payload: &SendTokenRequest) -> (r: Result<Operation, Failure>)
    ensures
        match (r, send_token_plan(*payload)) {
            (Ok(op), Ok(model)) => op@ == model,
            (Err(failure), Err(expected)) => failure == expected,
            _ => false,
        },
{
    match payload.validate() {
        Err(field) => Err(Failure::Validation(field)),
        Ok(()) => match read_key(Field::Destination, payload.destination.as_str()) {
            Err(failure) => Err(failure),
            Ok(destination) => match read_key(Field::Mint, payload.mint.as_str()) {
                Err(failure) => Err(failure),
                Ok(mint) => match read_key(Field::Owner, payload.owner.as_str()) {
                    Err(failure) => Err(failure),
                    Ok(owner) => plan_token_transfer(&destination, &mint, &owner, payload.amount),
                },
            },
        },
    }
}

/// Answers a request for a token transfer: the form of the request is
/// checked, the three keys are read, the owner's token account is derived,
/// then the instruction is built. The destination is the token account as
/// the request gives it; a transfer whose destination is the derived source
/// account is refused.
pub fn send_token(payload: SendTokenRequest) -> (response: ApiResponse<InstructionResponse>)
    ensures
        answers(response, outcome(send_token_plan(payload))),
{
    respond(plan_send_token(&payload))
}

/// Answers a request for a new key pair, drawn from the operating system's
/// random source: the secret is the base-58 text of 64 bytes that are a
/// valid pair, 64 to 88 characters long, and the public key is the base-58
/// text of the last 32 of them, 32 to 44 characters long.
pub fn generate_keypair() -> (response: ApiResponse<KeypairResponse>)
    ensures
        response.success,
        response.error is None,
        response.data matches Some(data) && parse_key_pair(data.secret@) matches Ok(pair)
            && pair.len() == 64 && parse_public_key(data.pubkey@) == Ok::<Seq<u8>, OpError>(
            pair.subrange(32, 64),
        ),
        response.data matches Some(data) ==> 32 <= data.pubkey@.len() <= 44,
        response.data matches Some(data) ==> 64 <= data.secret@.len() <= 88,
{
    let pair = KeyPair::generate();
    let pubkey = pubkey_to_base58(&pair.public_key());
    let secret = pair.to_base58();
    ApiResponse::success(KeypairResponse { pubkey, secret })
}

/// A message that was signed: the signature, the signer's public key, and
/// the message.
pub struct SignedModel {
    pub signature: Seq<u8>,
    pub public_key: Seq<u8>,
    pub message: Seq<char>,
}

/// What a request for a signature gives: the UTF-8 bytes of the message are
/// signed with the key pair that the secret holds.
pub open spec fn sign_message_outcome(payload: SignMessageRequest) -> Result<SignedModel, Failure> {
    match payload.violation() {
        Some(field) => Err(Failure::Validation(field)),
        None => match parse_key_pair(payload.secret@) {
            Err(kind) => Err(Failure::Parse(Field::Secret, kind)),
            Ok(pair) => Ok(
                SignedModel {
                    signature: ed25519_signature(pair, encode_utf8(payload.message@)),
                    public_key: pair.subrange(32, 64),
                    message: payload.message@,
                },
            ),
        },
    }
}

/// `response` is the envelope of `expected`: the signature in base 64, the
/// public key in base 58 and the message as it came, or the message of the
/// failure.
pub open spec fn answers_signed(
    response: ApiResponse<SignMessageResponse>,
    expected: Result<SignedModel, Failure>,
) -> bool {
    match expected {
        Ok(model) => {
            &&& response.success
            &&& response.error is None
            &&& response.data matches Some(data) && data.signature@ == base64_text(model.signature)
                && data.public_key@ == base58_text(model.public_key) && data.message@
                == model.message
        },
        Err(failure) => {
            &&& !response.success
            &&& response.data is None
            &&& response.error matches Some(message) && message@ == failure.text()
        },
    }
}

/// Answers a request for a signature: the form of the request is checked,
/// the key pair is read, then the message is signed. The signature has 64
/// bytes, and it verifies under the public key in the response.
pub fn sign_message(payload: SignMessageRequest) -> (response: ApiResponse<SignMessageResponse>)
    ensures
        answers_signed(response, sign_message_outcome(payload)),
        sign_message_outcome(payload) matches Ok(model) ==> model.signature.len() == 64
            && model.public_key.len() == 32,
        sign_message_outcome(payload) matches Ok(model) ==> ed25519_verifies(
            model.public_key,
            encode_utf8(payload.message@),
            model.signature,
        ),
{
    match payload.validate() {
        Err(field) => ApiResponse::error(Failure::Validation(field).message()),
        Ok(()) => match base58_to_keypair(payload.secret.as_str()) {
            Err(kind) => ApiResponse::error(Failure::Parse(Field::Secret, kind).message()),
            Ok(pair) => {
                let signature = sign(&pair, payload.message.as_str().as_bytes());
                ApiResponse::success(
                    SignMessageResponse {
                        signature: bytes_to_base64(signature.bytes.as_slice()),
                        public_key: pubkey_to_base58(&pair.public_key()),
                        message: payload.message,
                    },
                )
            },
        },
    }
}

/// What a request for a check of a signature gives: whether the signature,
/// read from base 64, is valid for the UTF-8 bytes of the message under the
/// key.
pub open spec fn verify_message_outcome(payload: VerifyMessageRequest) -> Result<bool, Failure> {
    match payload.violation() {
        Some(field) => Err(Failure::Validation(field)),
        None => match key_of_field(Field::Pubkey, payload.pubkey@) {
            Err(failure) => Err(failure),
            Ok(key) => match base64_bytes(payload.signature@) {
                None => Err(Failure::Parse(Field::Signature, OpError::Encoding)),
                Some(signature) => if signature.len() != 64 {
                    Err(Failure::Parse(Field::Signature, OpError::Length))
                } else {
                    Ok(ed25519_verifies(key, encode_utf8(payload.message@), signature))
                },
            },
        },
    }
}

/// A request whose key reads as a public key and whose signature reads as
/// 64 bytes is answered with a verdict, never with a failure, whether or
/// not the signature is the right one.
pub proof fn law_wrong_signature_is_no_failure(payload: VerifyMessageRequest)
    requires
        payload.violation() is None,
        parse_public_key(payload.pubkey@) is Ok,
        base64_bytes(payload.signature@) matches Some(signature) && signature.len() == 64,
    ensures
        verify_message_outcome(payload) == Ok::<bool, Failure>(
            ed25519_verifies(
                parse_public_key(payload.pubkey@).unwrap(),
                encode_utf8(payload.message@),
                base64_bytes(payload.signature@).unwrap(),
            ),
        ),
{
}

/// What a request for a signature gives can be handed on as it is to a
/// request for a check: with the same message, and with signature and key as
/// the response carries them, the check passes its form and says `true`.
pub proof fn law_signed_message_verifies(signed: SignMessageRequest, check: VerifyMessageRequest)
    requires
        sign_message_outcome(signed) is Ok,
        ({
            let model = sign_message_outcome(signed).unwrap();
            &&& model.signature.len() == 64
            &&& ed25519_verifies(
                model.public_key,
                encode_utf8(signed.message@),
                model.signature,
            )
            &&& check.message@ == signed.message@
            &&& check.signature@ == base64_text(model.signature)
            &&& check.pubkey@ == base58_text(model.public_key)
        }),
    ensures
        check.violation() is None,
        verify_message_outcome(check) == Ok::<bool, Failure>(true),
{
    let model = sign_message_outcome(signed).unwrap();
    crate::base58::law_text_length(model.public_key);
    crate::base58::law_decode_inverts_encode(model.public_key);
    crate::base64::law_decode_inverts_encode(model.signature);
    assert(base64_text(model.signature).len() >= 4);
}

/// `response` is the envelope of `expected` for the request `payload`: the
/// verdict with message and key as they came, or the message of the
/// failure.
pub open spec fn answers_verified(
    response: ApiResponse<VerifyMessageResponse>,
    payload: VerifyMessageRequest,
    expected: Result<bool, Failure>,
) -> bool {
    match expected {
        Ok(valid) => {
            &&& response.success
            &&& response.error is None
            &&& response.data matches Some(data) && data.valid == valid && data.message@
                == payload.message@ && data.pubkey@ == payload.pubkey@
        },
        Err(failure) => {
            &&& !response.success
            &&& response.data is None
            &&& response.error matches Some(message) && message@ == failure.text()
        },
    }
}

/// Answers a request for a check of a signature: the form of the request is
/// checked, key and signature are read, then the signature is checked. A
/// signature of the right length that is not valid gives a response with
/// `valid` false, not a failure.
pub fn verify_message(payload: VerifyMessageRequest) -> (response: ApiResponse<
    VerifyMessageResponse,
>)
    ensures
        answers_verified(response, payload, verify_message_outcome(payload)),
{
    match payload.validate() {
        Err(field) => ApiResponse::error(Failure::Validation(field).message()),
        Ok(()) => match read_key(Field::Pubkey, payload.pubkey.as_str()) {
            Err(failure) => ApiResponse::error(failure.message()),
            Ok(key) => match base64_to_bytes(payload.signature.as_str()) {
                Err(kind) => ApiResponse::error(Failure::Parse(Field::Signature, kind).message()),
                Ok(bytes) => match Signature::from_slice(bytes.as_slice()) {
                    Err(kind) => ApiResponse::error(
                        Failure::Parse(Field::Signature, kind).message(),
                    ),
                    Ok(signature) => {
                        let valid = verify(&key, payload.message.as_str().as_bytes(), &signature);
                        ApiResponse::success(
                            VerifyMessageResponse {
                                valid,
                                message: payload.message,
                                pubkey: payload.pubkey,
                            },
                        )
                    },
                },
            },
        },
    }
}

} // verus!
