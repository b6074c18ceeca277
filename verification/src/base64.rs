//! Base-64 text with the standard alphabet and `=` padding.

use crate::error::OpError;
use vstd::prelude::*;

verus! {

/// The standard alphabet: the 64 characters that stand for the six-bit
/// values 0 to 63, in this order.
pub open spec fn alphabet() -> Seq<char> {
    seq![
        'A', 'B', 'C', 'D', 'E', 'F', 'G', 'H', 'I', 'J', 'K', 'L', 'M', 'N', 'O', 'P',
        'Q', 'R', 'S', 'T', 'U', 'V', 'W', 'X', 'Y', 'Z', 'a', 'b', 'c', 'd', 'e', 'f',
        'g', 'h', 'i', 'j', 'k', 'l', 'm', 'n', 'o', 'p', 'q', 'r', 's', 't', 'u', 'v',
        'w', 'x', 'y', 'z', '0', '1', '2', '3', '4', '5', '6', '7', '8', '9', '+', '/',
    ]
}

/// The character that stands for the six-bit value `v`.
pub open spec fn sextet_char(v: nat) -> char {
    alphabet()[v as int]
}

/// The six-bit value that `c` stands for, if `c` belongs to the alphabet.
/// The padding character `=` does not.
pub open spec fn char_sextet(c: char) -> Option<nat> {
    let u = c as u32;
    if 65 <= u <= 90 {
        Some((u - 65) as nat)
    } else if 97 <= u <= 122 {
        Some((u - 71) as nat)
    } else if 48 <= u <= 57 {
        Some((u + 4) as nat)
    } else if u == 43 {
        Some(62)
    } else if u == 47 {
        Some(63)
    } else {
        None
    }
}

/// The base-64 text of `b`: each group of three bytes gives four characters;
/// a last group of one or two bytes is filled with zero bits and closed with
/// `==` or `=`.
pub open spec fn base64_text(b: Seq<u8>) -> Seq<char>
    decreases b.len(),
{
    if b.len() == 0 {
        Seq::empty()
    } else if b.len() == 1 {
        seq![sextet_char((b[0] / 4) as nat), sextet_char(((b[0] % 4) * 16) as nat), '=', '=']
    } else if b.len() == 2 {
        seq![
            sextet_char((b[0] / 4) as nat),
            sextet_char(((b[0] % 4) * 16 + b[1] / 16) as nat),
            sextet_char(((b[1] % 16) * 4) as nat),
            '=',
        ]
    } else {
        seq![
            sextet_char((b[0] / 4) as nat),
            sextet_char(((b[0] % 4) * 16 + b[1] / 16) as nat),
            sextet_char(((b[1] % 16) * 4 + b[2] / 64) as nat),
            sextet_char((b[2] % 64) as nat),
        ] + base64_text(b.skip(3))
    }
}

/// The bytes that the base-64 text `s` stands for, or `None` where `s` is no
/// canonical text: a length that is no multiple of four, a character outside
/// the alphabet, padding anywhere but at the end of the last group, or bits
/// set in the part of the last character that padding covers.
pub open spec fn base64_bytes(s: Seq<char>) -> Option<Seq<u8>>
    decreases s.len(),
{
    if s.len() == 0 {
        Some(Seq::empty())
    } else if s.len() < 4 {
        None
    } else {
        match (char_sextet(s[0]), char_sextet(s[1])) {
            (Some(a), Some(b)) => {
                let first = (a * 4 + b / 16) as u8;
                if s.len() == 4 && s[2] == '=' && s[3] == '=' {
                    if b % 16 == 0 {
                        Some(seq![first])
                    } else {
                        None
                    }
                } else {
                    match char_sextet(s[2]) {
                        Some(c) => {
                            let second = ((b % 16) * 16 + c / 4) as u8;
                            if s.len() == 4 && s[3] == '=' {
                                if c % 4 == 0 {
                                    Some(seq![first, second])
                                } else {
                                    None
                                }
                            } else {
                                match (char_sextet(s[3]), base64_bytes(s.skip(4))) {
                                    (Some(d), Some(rest)) => {
                                        let third = ((c % 4) * 64 + d) as u8;
                                        Some(seq![first, second, third] + rest)
                                    },
                                    _ => None,
                                }
                            }
                        },
                        None => None,
                    }
                }
            },
            _ => None,
        }
    }
}

/// Each six-bit value is the value of its own character, which is never
/// the padding character.
pub proof fn lemma_sextet_char_inverse(v: nat)
    requires
        v < 64,
    ensures
        char_sextet(sextet_char(v)) == Some(v),
        sextet_char(v) != '=',
{
}

/// Each character of the alphabet is the character of its own value.
pub proof fn lemma_char_sextet_inverse(c: char)
    requires
        char_sextet(c) is Some,
    ensures
        char_sextet(c).unwrap() < 64,
        sextet_char(char_sextet(c).unwrap()) == c,
        c != '=',
{
}

/// Decoding the text of any bytes gives those bytes.
pub proof fn law_decode_inverts_encode(b: Seq<u8>)
    ensures
        base64_bytes(base64_text(b)) == Some(b),
    decreases b.len(),
{
    let s = base64_text(b);
    if b.len() == 0 {
    } else {
        let v0 = (b[0] / 4) as nat;
        lemma_sextet_char_inverse(v0);
        if b.len() == 1 {
            let v1 = ((b[0] % 4) * 16) as nat;
            lemma_sextet_char_inverse(v1);
            assert(base64_bytes(s).unwrap() =~= b);
        } else {
            let v1 = ((b[0] % 4) * 16 + b[1] / 16) as nat;
            lemma_sextet_char_inverse(v1);
            if b.len() == 2 {
                let v2 = ((b[1] % 16) * 4) as nat;
                lemma_sextet_char_inverse(v2);
                assert(base64_bytes(s).unwrap() =~= b);
            } else {
                let v2 = ((b[1] % 16) * 4 + b[2] / 64) as nat;
                let v3 = (b[2] % 64) as nat;
                lemma_sextet_char_inverse(v2);
                lemma_sextet_char_inverse(v3);
                let rest = b.skip(3);
                law_decode_inverts_encode(rest);
                assert(s.skip(4) =~= base64_text(rest));
                assert(s.len() >= 4);
                assert(s[0] == sextet_char(v0));
                assert(s[1] == sextet_char(v1));
                assert(s[2] == sextet_char(v2));
                assert(s[3] == sextet_char(v3));
                assert(base64_bytes(s).unwrap() =~= b);
            }
        }
    }
}

/// Four six-bit values, packed into three bytes and unpacked again, are the
/// values that one began with.
proof fn lemma_repack(a: nat, b: nat, c: nat, d: nat)
    requires
        a < 64,
        b < 64,
        c < 64,
        d < 64,
    ensures
        a * 4 + b / 16 < 256,
        (b % 16) * 16 + c / 4 < 256,
        (c % 4) * 64 + d < 256,
        (a * 4 + b / 16) / 4 == a,
        ((a * 4 + b / 16) % 4) * 16 + ((b % 16) * 16 + c / 4) / 16 == b,
        (((b % 16) * 16 + c / 4) % 16) * 4 + ((c % 4) * 64 + d) / 64 == c,
        ((c % 4) * 64 + d) % 64 == d,
{
}

/// A text that decodes is the text of what it decodes to: no two texts stand
/// for the same bytes.
pub proof fn law_encode_inverts_decode(s: Seq<char>)
    requires
        base64_bytes(s) is Some,
    ensures
        base64_text(base64_bytes(s).unwrap()) == s,
    decreases s.len(),
{
    if s.len() != 0 {
        let bytes = base64_bytes(s).unwrap();
        lemma_char_sextet_inverse(s[0]);
        lemma_char_sextet_inverse(s[1]);
        let a = char_sextet(s[0]).unwrap();
        let b = char_sextet(s[1]).unwrap();
        if s.len() == 4 && s[2] == '=' && s[3] == '=' {
            lemma_repack(a, b, 0, 0);
            assert(bytes =~= seq![(a * 4 + b / 16) as u8]);
            assert(base64_text(bytes) =~= s);
        } else {
            lemma_char_sextet_inverse(s[2]);
            let c = char_sextet(s[2]).unwrap();
            if s.len() == 4 && s[3] == '=' {
                lemma_repack(a, b, c, 0);
                assert(bytes =~= seq![(a * 4 + b / 16) as u8, ((b % 16) * 16 + c / 4) as u8]);
                assert(base64_text(bytes) =~= s);
            } else {
                lemma_char_sextet_inverse(s[3]);
                let d = char_sextet(s[3]).unwrap();
                lemma_repack(a, b, c, d);
                let rest = base64_bytes(s.skip(4)).unwrap();
                law_encode_inverts_decode(s.skip(4));
                let head = seq![
                    (a * 4 + b / 16) as u8,
                    ((b % 16) * 16 + c / 4) as u8,
                    ((c % 4) * 64 + d) as u8,
                ];
                assert(bytes == head + rest);
                assert(bytes.skip(3) =~= rest);
                assert(bytes[0] == head[0] && bytes[1] == head[1] && bytes[2] == head[2]);
                let quad = seq![s[0], s[1], s[2], s[3]];
                assert(base64_text(bytes) == quad + base64_text(rest));
                assert(quad + s.skip(4) =~= s);
            }
        }
    }
}

/// What `base64` reports for a text that it cannot decode.
#[verifier::external_type_specification]
#[verifier::external_body]
pub struct ExBase64DecodeError(base64::DecodeError);

/// `Engine::encode` of `base64::engine::general_purpose::STANDARD`. Believed,
/// not proved: the string is the padded base-64 text of the input in the
/// standard alphabet.
#[verifier::external_body]
fn standard_encode(bytes: &[u8]) -> (text: String)
    ensures
        text@ == base64_text(bytes@),
{
    base64::Engine::encode(&base64::engine::general_purpose::STANDARD, bytes)
}

/// `Engine::decode` of `base64::engine::general_purpose::STANDARD`, which
/// asks for canonical padding and refuses trailing bits. Believed, not
/// proved: it succeeds exactly on canonical texts, with the bytes that the
/// text stands for.
#[verifier::external_body]
fn standard_decode(text: &str) -> (r: Result<Vec<u8>, base64::DecodeError>)
    ensures
        r is Ok <==> base64_bytes(text@) is Some,
        r matches Ok(b) ==> Some(b@) == base64_bytes(text@),
{
    base64::Engine::decode(&base64::engine::general_purpose::STANDARD, text)
}

/// Writes `bytes` as base-64 text.
pub fn bytes_to_base64(bytes: &[u8]) -> (text: String)
    ensures
        text@ == base64_text(bytes@),
        base64_bytes(text@) == Some(bytes@),
{
    proof {
        law_decode_inverts_encode(bytes@);
    }
    standard_encode(bytes)
}

/// Reads base-64 text. Fails with [`OpError::Encoding`] exactly when `text`
/// is no canonical base-64 text; nothing is cut off or replaced.
pub fn base64_to_bytes(text: &str) -> (r: Result<Vec<u8>, OpError>)
    ensures
        r is Ok <==> base64_bytes(text@) is Some,
        r matches Ok(b) ==> Some(b@) == base64_bytes(text@) && base64_text(b@) == text@,
        r matches Err(e) ==> e == OpError::Encoding,
{
    match standard_decode(text) {
        Ok(bytes) => {
            proof {
                law_encode_inverts_decode(text@);
            }
            Ok(bytes)
        },
        Err(_) => Err(OpError::Encoding),
    }
}

} // verus!
