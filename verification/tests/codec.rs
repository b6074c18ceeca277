use solana_ops::base58::{decode_base58, encode_base58};
use solana_ops::base64::{base64_to_bytes, bytes_to_base64};
use solana_ops::error::OpError;

#[test]
fn base58_known_text() {
    let bytes = [0x04u8, 0x30, 0x5e, 0x2b, 0x24, 0x73, 0xf0, 0x58];
    assert_eq!(encode_base58(&bytes), "he11owor1d");
    assert_eq!(decode_base58("he11owor1d"), Ok(bytes.to_vec()));
}

#[test]
fn base58_keeps_leading_zero_bytes() {
    assert_eq!(encode_base58(&[0, 0, 1]), "112");
    assert_eq!(decode_base58("112"), Ok(vec![0, 0, 1]));
    assert_eq!(encode_base58(&[0u8; 32]), "11111111111111111111111111111111");
}

#[test]
fn base58_empty() {
    assert_eq!(encode_base58(&[]), "");
    assert_eq!(decode_base58(""), Ok(vec![]));
}

#[test]
fn base58_rejects_characters_outside_the_alphabet() {
    assert_eq!(decode_base58("0"), Err(OpError::Encoding));
    assert_eq!(decode_base58("O"), Err(OpError::Encoding));
    assert_eq!(decode_base58("I"), Err(OpError::Encoding));
    assert_eq!(decode_base58("l"), Err(OpError::Encoding));
    assert_eq!(decode_base58("abc def"), Err(OpError::Encoding));
    assert_eq!(decode_base58("é"), Err(OpError::Encoding));
}

#[test]
fn base58_text_round_trip() {
    let texts = ["1", "z", "11z", "StV1DL6CwTryKyV", "TokenkegQfeZyiNwAJbNbGKPFXCWuBvf9Ss623VQ5DA"];
    for text in texts {
        let bytes = decode_base58(text).unwrap();
        assert_eq!(encode_base58(&bytes), text);
    }
}

#[test]
fn base64_known_text() {
    assert_eq!(bytes_to_base64(b""), "");
    assert_eq!(bytes_to_base64(b"f"), "Zg==");
    assert_eq!(bytes_to_base64(b"fo"), "Zm8=");
    assert_eq!(bytes_to_base64(b"foo"), "Zm9v");
    assert_eq!(bytes_to_base64(b"foobar"), "Zm9vYmFy");
    assert_eq!(bytes_to_base64(&[0xfb, 0xff]), "+/8=");
    assert_eq!(base64_to_bytes("Zm9vYmE="), Ok(b"fooba".to_vec()));
}

#[test]
fn base64_bytes_round_trip() {
    let mut bytes = Vec::new();
    for i in 0..=255u8 {
        bytes.push(i);
        let text = bytes_to_base64(&bytes);
        assert_eq!(base64_to_bytes(&text), Ok(bytes.clone()));
    }
}

#[test]
fn base64_rejects_malformed_text() {
    let texts = [
        "Z", "Zg", "Zg=", "Zm8", "Zh==", "Zm9=", "Zg==Zm9v", "Zm9v=", "====", "Z===", "Zm 9v",
        "Zm9v\n", "Zm-_",
    ];
    for text in texts {
        assert_eq!(base64_to_bytes(text), Err(OpError::Encoding), "{}", text);
    }
}

#[test]
fn base58_text_is_never_shorter_than_the_bytes() {
    for len in 0..70usize {
        assert!(encode_base58(&vec![0u8; len]).len() == len);
        assert!(encode_base58(&vec![1u8; len]).len() >= len);
        assert!(encode_base58(&vec![255u8; len]).len() >= len);
    }
    for groups in 0..9usize {
        assert!(encode_base58(&vec![255u8; 8 * groups]).len() <= 11 * groups);
    }
}
