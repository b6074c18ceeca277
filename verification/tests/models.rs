use solana_ops::error::OpError;
use solana_ops::failure::{Failure, Field};
use solana_ops::models::{
    ApiResponse, CreateTokenRequest, KeypairResponse, MintTokenRequest, SendSolRequest,
    SendTokenRequest, SignMessageRequest, VerifyMessageRequest,
};
use solana_ops::validate::{has_address_length, has_min_length};

#[test]
fn success_wraps_data() {
    let response = ApiResponse::success(KeypairResponse {
        pubkey: "p".to_string(),
        secret: "s".to_string(),
    });
    assert!(response.success);
    assert!(response.error.is_none());
    let data = response.data.unwrap();
    assert_eq!(data.pubkey, "p");
    assert_eq!(data.secret, "s");
}

#[test]
fn error_wraps_a_message() {
    let response: ApiResponse<KeypairResponse> = ApiResponse::error("went wrong".to_string());
    assert!(!response.success);
    assert!(response.data.is_none());
    assert_eq!(response.error.unwrap(), "went wrong");
}

#[test]
fn failure_messages() {
    assert_eq!(Failure::Validation(Field::Mint).message(), "Validation error: mint");
    let authority = Failure::Validation(Field::MintAuthority);
    assert_eq!(authority.message(), "Validation error: mint authority");
    let secret = Failure::Parse(Field::Secret, OpError::Curve);
    assert_eq!(secret.message(), "Invalid secret key: not a valid ed25519 key");
    let owner = Failure::Parse(Field::Owner, OpError::Length);
    assert_eq!(owner.message(), "Invalid owner: wrong length");
    let to = Failure::Parse(Field::To, OpError::Encoding);
    assert_eq!(to.message(), "Invalid to address: invalid encoding");
    assert_eq!(Failure::Domain.message(), "Operation not allowed by the rules of the ledger");
    assert_eq!(Field::Pubkey.label_text(), "public key");
    assert_eq!(OpError::Domain.label_text(), "not allowed by the rules of the ledger");
}

#[test]
fn lengths_count_characters() {
    assert!(has_address_length(&"a".repeat(32)));
    assert!(has_address_length(&"a".repeat(44)));
    assert!(!has_address_length(&"a".repeat(31)));
    assert!(!has_address_length(&"a".repeat(45)));
    assert!(has_address_length(&"é".repeat(32)));
    assert!(!has_address_length(&"é".repeat(16)));
    assert!(has_min_length("abc", 3));
    assert!(!has_min_length("ab", 3));
    assert!(has_min_length("", 0));
}

fn address() -> String {
    "1".repeat(32)
}

#[test]
fn create_token_request_rules() {
    let ok = CreateTokenRequest { mint_authority: address(), mint: address(), decimals: 9 };
    assert_eq!(ok.validate(), Ok(()));
    let first = CreateTokenRequest {
        mint_authority: String::new(),
        mint: String::new(),
        decimals: 99,
    };
    assert_eq!(first.validate(), Err(Field::MintAuthority));
    let second = CreateTokenRequest {
        mint_authority: address(),
        mint: "1".repeat(45),
        decimals: 99,
    };
    assert_eq!(second.validate(), Err(Field::Mint));
    let third = CreateTokenRequest { mint_authority: address(), mint: address(), decimals: 10 };
    assert_eq!(third.validate(), Err(Field::Decimals));
}

#[test]
fn mint_token_request_rules() {
    let ok = MintTokenRequest {
        mint: address(),
        destination: address(),
        authority: address(),
        amount: 1,
    };
    assert_eq!(ok.validate(), Ok(()));
    let a = MintTokenRequest {
        mint: "x".to_string(),
        destination: address(),
        authority: address(),
        amount: 1,
    };
    assert_eq!(a.validate(), Err(Field::Mint));
    let b = MintTokenRequest {
        mint: address(),
        destination: "x".to_string(),
        authority: address(),
        amount: 1,
    };
    assert_eq!(b.validate(), Err(Field::Destination));
    let c = MintTokenRequest {
        mint: address(),
        destination: address(),
        authority: "x".to_string(),
        amount: 1,
    };
    assert_eq!(c.validate(), Err(Field::Authority));
    let d = MintTokenRequest {
        mint: address(),
        destination: address(),
        authority: address(),
        amount: 0,
    };
    assert_eq!(d.validate(), Err(Field::Amount));
}

#[test]
fn sign_message_request_rules() {
    let ok = SignMessageRequest { message: "m".to_string(), secret: "1".repeat(32) };
    assert_eq!(ok.validate(), Ok(()));
    let long = SignMessageRequest { message: "m".to_string(), secret: "1".repeat(500) };
    assert_eq!(long.validate(), Ok(()));
    let a = SignMessageRequest { message: String::new(), secret: "1".repeat(32) };
    assert_eq!(a.validate(), Err(Field::Message));
    let b = SignMessageRequest { message: "m".to_string(), secret: "1".repeat(31) };
    assert_eq!(b.validate(), Err(Field::Secret));
}

#[test]
fn verify_message_request_rules() {
    let ok = VerifyMessageRequest {
        message: "m".to_string(),
        signature: "s".to_string(),
        pubkey: address(),
    };
    assert_eq!(ok.validate(), Ok(()));
    let a = VerifyMessageRequest {
        message: String::new(),
        signature: "s".to_string(),
        pubkey: address(),
    };
    assert_eq!(a.validate(), Err(Field::Message));
    let b = VerifyMessageRequest {
        message: "m".to_string(),
        signature: String::new(),
        pubkey: address(),
    };
    assert_eq!(b.validate(), Err(Field::Signature));
    let c = VerifyMessageRequest {
        message: "m".to_string(),
        signature: "s".to_string(),
        pubkey: "k".to_string(),
    };
    assert_eq!(c.validate(), Err(Field::Pubkey));
}

#[test]
fn send_sol_request_rules() {
    let ok = SendSolRequest { from: address(), to: address(), lamports: 1 };
    assert_eq!(ok.validate(), Ok(()));
    let a = SendSolRequest { from: String::new(), to: address(), lamports: 1 };
    assert_eq!(a.validate(), Err(Field::From));
    let b = SendSolRequest { from: address(), to: String::new(), lamports: 1 };
    assert_eq!(b.validate(), Err(Field::To));
    let c = SendSolRequest { from: address(), to: address(), lamports: 0 };
    assert_eq!(c.validate(), Err(Field::Lamports));
}

#[test]
fn send_token_request_rules() {
    let ok = SendTokenRequest {
        destination: address(),
        mint: address(),
        owner: address(),
        amount: u64::MAX,
    };
    assert_eq!(ok.validate(), Ok(()));
    let a = SendTokenRequest {
        destination: String::new(),
        mint: address(),
        owner: address(),
        amount: 1,
    };
    assert_eq!(a.validate(), Err(Field::Destination));
    let b = SendTokenRequest {
        destination: address(),
        mint: String::new(),
        owner: address(),
        amount: 1,
    };
    assert_eq!(b.validate(), Err(Field::Mint));
    let c = SendTokenRequest {
        destination: address(),
        mint: address(),
        owner: String::new(),
        amount: 1,
    };
    assert_eq!(c.validate(), Err(Field::Owner));
    let d = SendTokenRequest {
        destination: address(),
        mint: address(),
        owner: address(),
        amount: 0,
    };
    assert_eq!(d.validate(), Err(Field::Amount));
}
