use solana_ops::associated::derive_associated_account;
use solana_ops::base58::decode_base58;
use solana_ops::base64::{base64_to_bytes, bytes_to_base64};
use solana_ops::handlers::{
    create_token, generate_keypair, mint_token, send_sol, send_token, sign_message,
    verify_message,
};
use solana_ops::keys::{base58_to_pubkey, pubkey_to_base58, KeyPair, PublicKey};
use solana_ops::models::{
    CreateTokenRequest, MintTokenRequest, SendSolRequest, SendTokenRequest, SignMessageRequest,
    VerifyMessageRequest,
};
use solana_ops::signing::sign;

const TOKEN_PROGRAM: &str = "TokenkegQfeZyiNwAJbNbGKPFXCWuBvf9Ss623VQ5DA";
const SYSTEM_PROGRAM: &str = "11111111111111111111111111111111";

fn text(fill: u8) -> String {
    pubkey_to_base58(&PublicKey { bytes: [fill; 32] })
}

fn sol(from: String, to: String, lamports: u64) -> SendSolRequest {
    SendSolRequest { from, to, lamports }
}

fn token(mint_authority: String, mint: String, decimals: u8) -> CreateTokenRequest {
    CreateTokenRequest { mint_authority, mint, decimals }
}

fn mint(mint: String, destination: String, authority: String, amount: u64) -> MintTokenRequest {
    MintTokenRequest { mint, destination, authority, amount }
}

fn transfer(destination: String, mint: String, owner: String, amount: u64) -> SendTokenRequest {
    SendTokenRequest { destination, mint, owner, amount }
}

fn signing(message: &str, secret: String) -> SignMessageRequest {
    SignMessageRequest { message: message.to_string(), secret }
}

fn checking(message: &str, signature: String, pubkey: String) -> VerifyMessageRequest {
    VerifyMessageRequest { message: message.to_string(), signature, pubkey }
}

#[test]
fn generated_key_pair_is_well_formed() {
    let response = generate_keypair();
    assert!(response.success);
    assert!(response.error.is_none());
    let data = response.data.unwrap();
    let secret = decode_base58(&data.secret).unwrap();
    let public = decode_base58(&data.pubkey).unwrap();
    assert_eq!(secret.len(), 64);
    assert_eq!(public.len(), 32);
    assert_eq!(&secret[32..], &public[..]);
    assert!(KeyPair::from_slice(&secret).is_ok());
}

#[test]
fn send_sol_gives_the_transfer() {
    let response = send_sol(sol(text(1), text(2), 1_000_000_000));
    assert!(response.success);
    assert!(response.error.is_none());
    let data = response.data.unwrap();
    assert_eq!(data.program_id, SYSTEM_PROGRAM);
    assert_eq!(
        base64_to_bytes(&data.instruction_data).unwrap(),
        vec![2, 0, 0, 0, 0, 202, 154, 59, 0, 0, 0, 0]
    );
    assert_eq!(data.instruction_data, "AgAAAADKmjsAAAAA");
    assert_eq!(data.accounts.len(), 2);
    assert_eq!(data.accounts[0].pubkey, text(1));
    assert!(data.accounts[0].is_signer && data.accounts[0].is_writable);
    assert_eq!(data.accounts[1].pubkey, text(2));
    assert!(!data.accounts[1].is_signer && data.accounts[1].is_writable);
}

#[test]
fn send_sol_failures() {
    let short = send_sol(sol("abc".to_string(), text(2), 1));
    assert!(!short.success);
    assert!(short.data.is_none());
    assert_eq!(short.error.unwrap(), "Validation error: from address");

    let zero = send_sol(sol(text(1), text(2), 0));
    assert_eq!(zero.error.unwrap(), "Validation error: lamports");

    let bad = "0".repeat(40);
    let invalid = send_sol(sol(text(1), bad, 1));
    assert_eq!(invalid.error.unwrap(), "Invalid to address: invalid encoding");

    let long = "2".repeat(40);
    let wrong = send_sol(sol(long, text(2), 1));
    assert_eq!(wrong.error.unwrap(), "Invalid from address: wrong length");

    let to_self = send_sol(sol(text(1), text(1), 1));
    assert!(!to_self.success);
    assert_eq!(to_self.error.unwrap(), "Operation not allowed by the rules of the ledger");
}

#[test]
fn create_token_gives_the_initialization() {
    let response = create_token(token(text(2), text(1), 6));
    assert!(response.success);
    let data = response.data.unwrap();
    assert_eq!(data.program_id, TOKEN_PROGRAM);
    let mut expected = vec![0u8, 6];
    expected.extend([2u8; 32]);
    expected.push(1);
    expected.extend([2u8; 32]);
    assert_eq!(base64_to_bytes(&data.instruction_data).unwrap(), expected);
    assert_eq!(data.accounts.len(), 1);
    assert_eq!(data.accounts[0].pubkey, text(1));
    assert!(!data.accounts[0].is_signer && data.accounts[0].is_writable);
}

#[test]
fn create_token_failures() {
    let many = create_token(token(text(2), text(1), 10));
    assert_eq!(many.error.unwrap(), "Validation error: decimals");
    let short = create_token(token(String::new(), text(1), 1));
    assert_eq!(short.error.unwrap(), "Validation error: mint authority");
    let bad = create_token(token(text(2), "l".repeat(32), 1));
    assert_eq!(bad.error.unwrap(), "Invalid mint: invalid encoding");
}

#[test]
fn mint_token_gives_the_mint_to() {
    let response = mint_token(mint(text(1), text(2), text(3), 1));
    assert!(response.success);
    let data = response.data.unwrap();
    assert_eq!(data.program_id, TOKEN_PROGRAM);
    assert_eq!(base64_to_bytes(&data.instruction_data).unwrap(), vec![7, 1, 0, 0, 0, 0, 0, 0, 0]);
    let accounts: Vec<(String, bool, bool)> =
        data.accounts.into_iter().map(|a| (a.pubkey, a.is_signer, a.is_writable)).collect();
    assert_eq!(
        accounts,
        vec![(text(1), false, true), (text(2), false, true), (text(3), true, false)]
    );
}

#[test]
fn mint_token_failures() {
    let zero = mint_token(mint(text(1), text(2), text(3), 0));
    assert!(!zero.success);
    assert_eq!(zero.error.unwrap(), "Validation error: amount");
    let bad = mint_token(mint(text(1), text(2), "I".repeat(44), 1));
    assert_eq!(bad.error.unwrap(), "Invalid authority: invalid encoding");
    let long = mint_token(mint(text(1), "z".repeat(44), text(3), 1));
    assert_eq!(long.error.unwrap(), "Invalid destination: wrong length");
}

#[test]
fn send_token_moves_from_the_owners_associated_account() {
    let owner = PublicKey { bytes: [3u8; 32] };
    let mint = PublicKey { bytes: [1u8; 32] };
    let response = send_token(transfer(text(2), text(1), text(3), 5));
    assert!(response.success);
    let data = response.data.unwrap();
    assert_eq!(data.program_id, TOKEN_PROGRAM);
    assert_eq!(base64_to_bytes(&data.instruction_data).unwrap(), vec![3, 5, 0, 0, 0, 0, 0, 0, 0]);
    let source = derive_associated_account(&owner, &mint).unwrap().0;
    let accounts: Vec<(String, bool, bool)> =
        data.accounts.into_iter().map(|a| (a.pubkey, a.is_signer, a.is_writable)).collect();
    assert_eq!(
        accounts,
        vec![
            (pubkey_to_base58(&source), false, true),
            (text(2), false, true),
            (text(3), true, false)
        ]
    );
}

#[test]
fn send_token_to_the_source_account_is_refused() {
    let owner = PublicKey { bytes: [3u8; 32] };
    let mint = PublicKey { bytes: [1u8; 32] };
    let source = derive_associated_account(&owner, &mint).unwrap().0;
    let response = send_token(transfer(pubkey_to_base58(&source), text(1), text(3), 5));
    assert!(!response.success);
    assert!(response.data.is_none());
    assert_eq!(response.error.unwrap(), "Operation not allowed by the rules of the ledger");
}

#[test]
fn send_token_to_the_owners_key_is_a_transfer_like_any_other() {
    let response = send_token(transfer(text(3), text(1), text(3), 5));
    assert!(response.success);
    let data = response.data.unwrap();
    assert_eq!(data.accounts[1].pubkey, text(3));
    assert_ne!(data.accounts[0].pubkey, text(3));
}

#[test]
fn send_token_failures() {
    let zero = send_token(transfer(text(2), text(1), text(3), 0));
    assert_eq!(zero.error.unwrap(), "Validation error: amount");
    let bad = send_token(transfer(text(2), text(1), "O".repeat(33), 1));
    assert_eq!(bad.error.unwrap(), "Invalid owner: invalid encoding");
}

#[test]
fn sign_message_signs_the_text() {
    let pair = KeyPair::generate();
    let response = sign_message(signing("hello", pair.to_base58()));
    assert!(response.success);
    let data = response.data.unwrap();
    assert_eq!(data.message, "hello");
    assert_eq!(data.public_key, pubkey_to_base58(&pair.public_key()));
    assert_eq!(data.signature, bytes_to_base64(&sign(&pair, b"hello").bytes));
    assert_eq!(base64_to_bytes(&data.signature).unwrap().len(), 64);

    let checked = verify_message(VerifyMessageRequest {
        message: "hello".to_string(),
        signature: data.signature,
        pubkey: data.public_key,
    });
    assert!(checked.success);
    assert!(checked.data.unwrap().valid);
}

#[test]
fn sign_message_failures() {
    let pair = KeyPair::generate();
    let empty = sign_message(signing("", pair.to_base58()));
    assert_eq!(empty.error.unwrap(), "Validation error: message");
    let short = sign_message(signing("m", "abc".to_string()));
    assert_eq!(short.error.unwrap(), "Validation error: secret key");
    let bad = sign_message(signing("m", "0".repeat(88)));
    assert_eq!(bad.error.unwrap(), "Invalid secret key: invalid encoding");
    let public_only = sign_message(signing("m", text(7)));
    assert_eq!(public_only.error.unwrap(), "Invalid secret key: wrong length");
    let mut mixed = pair.to_bytes();
    mixed[32..].copy_from_slice(&KeyPair::generate().to_bytes()[32..]);
    let wrong = sign_message(SignMessageRequest {
        message: "m".to_string(),
        secret: solana_ops::base58::encode_base58(&mixed),
    });
    assert_eq!(wrong.error.unwrap(), "Invalid secret key: not a valid ed25519 key");
}

#[test]
fn verify_message_says_false_for_a_wrong_signature() {
    let pair = KeyPair::generate();
    let mut signature = sign(&pair, "héllo".as_bytes()).bytes;
    let good = verify_message(VerifyMessageRequest {
        message: "héllo".to_string(),
        signature: bytes_to_base64(&signature),
        pubkey: pubkey_to_base58(&pair.public_key()),
    });
    assert!(good.data.unwrap().valid);
    signature[10] ^= 0x40;
    let response = verify_message(VerifyMessageRequest {
        message: "héllo".to_string(),
        signature: bytes_to_base64(&signature),
        pubkey: pubkey_to_base58(&pair.public_key()),
    });
    assert!(response.success);
    assert!(response.error.is_none());
    let data = response.data.unwrap();
    assert!(!data.valid);
    assert_eq!(data.message, "héllo");
    assert_eq!(data.pubkey, pubkey_to_base58(&pair.public_key()));
}

#[test]
fn verify_message_failures() {
    let pair = KeyPair::generate();
    let key = pubkey_to_base58(&pair.public_key());
    let signature = bytes_to_base64(&sign(&pair, b"m").bytes);
    let no_message = verify_message(checking("", signature.clone(), key.clone()));
    assert_eq!(no_message.error.unwrap(), "Validation error: message");
    let no_signature = verify_message(checking("m", String::new(), key.clone()));
    assert_eq!(no_signature.error.unwrap(), "Validation error: signature");
    let short_key = verify_message(checking("m", signature.clone(), "abc".to_string()));
    assert_eq!(short_key.error.unwrap(), "Validation error: public key");
    let bad_key = verify_message(checking("m", signature.clone(), "0".repeat(44)));
    assert_eq!(bad_key.error.unwrap(), "Invalid public key: invalid encoding");
    let bad_text = verify_message(checking("m", "not base64!".to_string(), key.clone()));
    assert_eq!(bad_text.error.unwrap(), "Invalid signature: invalid encoding");
    let short = verify_message(checking("m", bytes_to_base64(&[1u8; 63]), key.clone()));
    assert_eq!(short.error.unwrap(), "Invalid signature: wrong length");
    assert!(base58_to_pubkey(&key).is_ok());
}
