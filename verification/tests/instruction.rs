use solana_ops::associated::{associated_program, token_program};
use solana_ops::error::OpError;
use solana_ops::instruction::{
    build_instruction, create_initialize_mint_instruction, create_mint_instruction,
    create_token_transfer_instruction, create_transfer_instruction, Operation,
};
use solana_ops::keys::{base58_to_pubkey, pubkey_to_base58, PublicKey};

fn key(fill: u8) -> PublicKey {
    PublicKey { bytes: [fill; 32] }
}

#[test]
fn native_transfer_of_one_sol() {
    let op = Operation::NativeTransfer { from: key(1), to: key(2), lamports: 1_000_000_000 };
    let made = build_instruction(&op).unwrap();
    assert_eq!(made.program_id.bytes, [0u8; 32]);
    assert_eq!(made.data, vec![2, 0, 0, 0, 0, 202, 154, 59, 0, 0, 0, 0]);
    assert_eq!(made.accounts.len(), 2);
    assert_eq!(made.accounts[0].pubkey.bytes, [1u8; 32]);
    assert!(made.accounts[0].is_signer);
    assert!(made.accounts[0].is_writable);
    assert_eq!(made.accounts[1].pubkey.bytes, [2u8; 32]);
    assert!(!made.accounts[1].is_signer);
    assert!(made.accounts[1].is_writable);
}

#[test]
fn native_transfer_parts() {
    let (program_id, data) = create_transfer_instruction(&key(1), &key(2), 0x0102030405060708);
    assert_eq!(pubkey_to_base58(&program_id), "11111111111111111111111111111111");
    assert_eq!(data, vec![2, 0, 0, 0, 8, 7, 6, 5, 4, 3, 2, 1]);
    let (_, data) = create_transfer_instruction(&key(1), &key(2), u64::MAX);
    assert_eq!(data, vec![2, 0, 0, 0, 255, 255, 255, 255, 255, 255, 255, 255]);
}

#[test]
fn native_transfer_rules() {
    let zero = Operation::NativeTransfer { from: key(1), to: key(2), lamports: 0 };
    assert_eq!(build_instruction(&zero).err(), Some(OpError::Domain));
    let to_self = Operation::NativeTransfer { from: key(1), to: key(1), lamports: 5 };
    assert_eq!(build_instruction(&to_self).err(), Some(OpError::Domain));
}

#[test]
fn mint_to_of_zero_is_refused() {
    let op = Operation::MintTo { mint: key(1), destination: key(2), authority: key(3), amount: 0 };
    assert_eq!(build_instruction(&op).err(), Some(OpError::Domain));
}

#[test]
fn mint_to_of_one() {
    let op = Operation::MintTo { mint: key(1), destination: key(2), authority: key(3), amount: 1 };
    let made = build_instruction(&op).unwrap();
    assert_eq!(made.data.len(), 9);
    assert_eq!(made.data, vec![7, 1, 0, 0, 0, 0, 0, 0, 0]);
    assert_eq!(pubkey_to_base58(&made.program_id), "TokenkegQfeZyiNwAJbNbGKPFXCWuBvf9Ss623VQ5DA");
    assert_eq!(made.accounts.len(), 3);
    let flags: Vec<(u8, bool, bool)> =
        made.accounts.iter().map(|a| (a.pubkey.bytes[0], a.is_signer, a.is_writable)).collect();
    assert_eq!(flags, vec![(1, false, true), (2, false, true), (3, true, false)]);
}

#[test]
fn mint_to_parts() {
    let (program_id, data) = create_mint_instruction(&key(1), &key(2), &key(3), 258);
    assert_eq!(program_id.bytes, token_program().bytes);
    assert_eq!(data, vec![7, 2, 1, 0, 0, 0, 0, 0, 0]);
}

#[test]
fn token_transfer_between_two_accounts() {
    let op = Operation::TokenTransfer {
        source: key(1),
        destination: key(2),
        owner: key(3),
        amount: 1_000_000,
    };
    let made = build_instruction(&op).unwrap();
    assert_eq!(made.data, vec![3, 64, 66, 15, 0, 0, 0, 0, 0]);
    assert_eq!(made.program_id.bytes, token_program().bytes);
    let flags: Vec<(u8, bool, bool)> =
        made.accounts.iter().map(|a| (a.pubkey.bytes[0], a.is_signer, a.is_writable)).collect();
    assert_eq!(flags, vec![(1, false, true), (2, false, true), (3, true, false)]);
}

#[test]
fn token_transfer_parts() {
    let (program_id, data) = create_token_transfer_instruction(&key(1), &key(2), &key(3), 1 << 40);
    assert_eq!(program_id.bytes, token_program().bytes);
    assert_eq!(data, vec![3, 0, 0, 0, 0, 0, 1, 0, 0]);
}

#[test]
fn token_transfer_to_the_same_account_is_refused() {
    let op = Operation::TokenTransfer {
        source: key(1),
        destination: key(1),
        owner: key(3),
        amount: 7,
    };
    assert_eq!(build_instruction(&op).err(), Some(OpError::Domain));
}

#[test]
fn token_transfer_of_zero_is_refused() {
    let op = Operation::TokenTransfer {
        source: key(1),
        destination: key(2),
        owner: key(3),
        amount: 0,
    };
    assert_eq!(build_instruction(&op).err(), Some(OpError::Domain));
}

#[test]
fn initialize_mint_with_freeze_authority() {
    let op = Operation::InitializeMint {
        mint: key(1),
        decimals: 6,
        mint_authority: key(2),
        freeze_authority: Some(key(3)),
    };
    let made = build_instruction(&op).unwrap();
    let mut expected = vec![0u8, 6];
    expected.extend([2u8; 32]);
    expected.push(1);
    expected.extend([3u8; 32]);
    assert_eq!(made.data, expected);
    assert_eq!(made.data.len(), 67);
    assert_eq!(made.program_id.bytes, token_program().bytes);
    assert_eq!(made.accounts.len(), 1);
    assert_eq!(made.accounts[0].pubkey.bytes, [1u8; 32]);
    assert!(!made.accounts[0].is_signer);
    assert!(made.accounts[0].is_writable);
}

#[test]
fn initialize_mint_without_freeze_authority() {
    let op = Operation::InitializeMint {
        mint: key(1),
        decimals: 0,
        mint_authority: key(2),
        freeze_authority: None,
    };
    let made = build_instruction(&op).unwrap();
    let mut expected = vec![0u8, 0];
    expected.extend([2u8; 32]);
    expected.push(0);
    assert_eq!(made.data, expected);
}

#[test]
fn initialize_mint_parts_use_the_authority_twice() {
    let (program_id, data) = create_initialize_mint_instruction(&key(1), 9, &key(2));
    let mut expected = vec![0u8, 9];
    expected.extend([2u8; 32]);
    expected.push(1);
    expected.extend([2u8; 32]);
    assert_eq!(data, expected);
    assert_eq!(program_id.bytes, token_program().bytes);
}

#[test]
fn decimals_are_bounded() {
    for decimals in 0..=9u8 {
        let op = Operation::InitializeMint {
            mint: key(1),
            decimals,
            mint_authority: key(2),
            freeze_authority: None,
        };
        assert!(build_instruction(&op).is_ok());
    }
    for decimals in [10u8, 18, 255] {
        let op = Operation::InitializeMint {
            mint: key(1),
            decimals,
            mint_authority: key(2),
            freeze_authority: None,
        };
        assert_eq!(build_instruction(&op).err(), Some(OpError::Domain));
    }
}

#[test]
fn program_addresses_have_their_known_text() {
    assert_eq!(pubkey_to_base58(&token_program()), "TokenkegQfeZyiNwAJbNbGKPFXCWuBvf9Ss623VQ5DA");
    assert_eq!(
        pubkey_to_base58(&associated_program()),
        "ATokenGPvbdGVxr1b2hvZbsiqW5xWH25efTNsLJA8knL"
    );
    assert_eq!(
        base58_to_pubkey("ATokenGPvbdGVxr1b2hvZbsiqW5xWH25efTNsLJA8knL").unwrap().bytes,
        associated_program().bytes
    );
}
