use solana_ops::error::OpError;
use solana_ops::keys::{KeyPair, PublicKey};
use solana_ops::signing::{sign, verify, Signature};

fn hex(text: &str) -> Vec<u8> {
    (0..text.len() / 2).map(|i| u8::from_str_radix(&text[2 * i..2 * i + 2], 16).unwrap()).collect()
}

fn reference_pair() -> KeyPair {
    let mut bytes = hex("9d61b19deffd5a60ba844af492ec2cc44449c5697b326919703bac031cae7f60");
    bytes.extend(hex("d75a980182b10ab7d54bfed3c964073a0ee172f3daa62325af021a68f707511a"));
    KeyPair::from_slice(&bytes).unwrap()
}

#[test]
fn signature_of_the_empty_message() {
    let signature = sign(&reference_pair(), b"");
    let expected = hex(
        "e5564300c360ac729086e2cc806e828a84877f1eb8e5d974d873e06522490155\
         5fb8821590a33bacc61e39701cf9b46bd25bf5f0595bbe24655141438e7a100b",
    );
    assert_eq!(signature.bytes.to_vec(), expected);
}

#[test]
fn signing_twice_gives_the_same_signature() {
    let pair = KeyPair::generate();
    assert_eq!(sign(&pair, b"hello").bytes, sign(&pair, b"hello").bytes);
    assert_ne!(sign(&pair, b"hello").bytes, sign(&pair, b"hellp").bytes);
}

#[test]
fn a_signature_verifies_under_its_public_key() {
    for message in [&b""[..], &b"a"[..], &b"The quick brown fox"[..], &[0u8; 300][..]] {
        let pair = KeyPair::generate();
        let signature = sign(&pair, message);
        assert!(verify(&pair.public_key(), message, &signature));
    }
}

#[test]
fn a_wrong_signature_is_false() {
    let pair = KeyPair::generate();
    let mut signature = sign(&pair, b"hello");
    signature.bytes[0] ^= 1;
    assert!(!verify(&pair.public_key(), b"hello", &signature));
    assert!(!verify(&pair.public_key(), b"hello", &Signature { bytes: [0u8; 64] }));
    assert!(!verify(&pair.public_key(), b"hello", &Signature { bytes: [255u8; 64] }));
}

#[test]
fn a_signature_does_not_verify_for_another_message_or_key() {
    let pair = KeyPair::generate();
    let other = KeyPair::generate();
    let signature = sign(&pair, b"hello");
    assert!(!verify(&pair.public_key(), b"hello!", &signature));
    assert!(!verify(&other.public_key(), b"hello", &signature));
}

#[test]
fn a_key_off_the_curve_is_false() {
    let pair = KeyPair::generate();
    let signature = sign(&pair, b"hello");
    let mut bytes = [0u8; 32];
    bytes[0] = 2;
    assert!(!verify(&PublicKey { bytes }, b"hello", &signature));
}

#[test]
fn signature_from_slice_checks_length() {
    assert_eq!(Signature::from_slice(&[9u8; 64]).unwrap().bytes, [9u8; 64]);
    assert_eq!(Signature::from_slice(&[9u8; 63]).err(), Some(OpError::Length));
    assert_eq!(Signature::from_slice(&[]).err(), Some(OpError::Length));
}
