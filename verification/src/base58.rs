//! Base-58 text with the Bitcoin alphabet, without checksum: a byte string
//! read as one big number, with its leading zero bytes kept.

use crate::error::OpError;
use crate::radix::all_below;
use crate::radix::lemma_power_adds;
use crate::radix::lemma_transcode_at_least;
use crate::radix::lemma_transcode_at_most;
use crate::radix::lemma_transcode_below;
use crate::radix::lemma_transcode_round_trip;
use crate::radix::power;
use crate::radix::transcode;
use vstd::prelude::*;
use vstd::utf8::encode_utf8;
use vstd::utf8::is_ascii_chars;
use vstd::utf8::is_ascii_chars_encode_utf8;

verus! {

/// The Bitcoin alphabet: the 58 characters that stand for the digits 0 to
/// 57, in this order.
pub open spec fn alphabet() -> Seq<char> {
    seq![
        '1', '2', '3', '4', '5', '6', '7', '8', '9', 'A', 'B', 'C', 'D', 'E', 'F', 'G',
        'H', 'J', 'K', 'L', 'M', 'N', 'P', 'Q', 'R', 'S', 'T', 'U', 'V', 'W', 'X', 'Y',
        'Z', 'a', 'b', 'c', 'd', 'e', 'f', 'g', 'h', 'i', 'j', 'k', 'm', 'n', 'o', 'p',
        'q', 'r', 's', 't', 'u', 'v', 'w', 'x', 'y', 'z',
    ]
}

/// The character that stands for the base-58 digit `d`.
pub open spec fn digit_char(d: nat) -> char {
    alphabet()[d as int]
}

/// The base-58 digit that `c` stands for, if `c` belongs to the alphabet.
pub open spec fn char_digit(c: char) -> Option<nat> {
    let u = c as u32;
    if 49 <= u <= 57 {
        Some((u - 49) as nat)
    } else if 65 <= u <= 72 {
        Some((u - 56) as nat)
    } else if 74 <= u <= 78 {
        Some((u - 57) as nat)
    } else if 80 <= u <= 90 {
        Some((u - 58) as nat)
    } else if 97 <= u <= 107 {
        Some((u - 64) as nat)
    } else if 109 <= u <= 122 {
        Some((u - 65) as nat)
    } else {
        None
    }
}

/// Each digit is the digit of its own character.
pub proof fn lemma_digit_char_inverse(d: nat)
    requires
        d < 58,
    ensures
        char_digit(digit_char(d)) == Some(d),
{
}

/// Each character of the alphabet is the character of its own digit.
pub proof fn lemma_char_digit_inverse(c: char)
    requires
        char_digit(c) is Some,
    ensures
        char_digit(c).unwrap() < 58,
        digit_char(char_digit(c).unwrap()) == c,
{
}

/// The bytes of `b` as digits of base 256.
pub open spec fn byte_digits(b: Seq<u8>) -> Seq<nat> {
    b.map_values(|x: u8| x as nat)
}

/// Every character of `s` belongs to the alphabet.
pub open spec fn is_base58_text(s: Seq<char>) -> bool {
    forall|i: int| 0 <= i < s.len() ==> char_digit(#[trigger] s[i]) is Some
}

/// The characters of `s` as digits of base 58.
pub open spec fn text_digits(s: Seq<char>) -> Seq<nat> {
    s.map_values(|c: char| char_digit(c).unwrap())
}

/// The base-58 text of the bytes `b`: one `1` for each leading zero byte,
/// then the big-endian number that `b` holds, written in base 58 without
/// leading zero digits.
pub open spec fn base58_text(b: Seq<u8>) -> Seq<char> {
    transcode(byte_digits(b), 256, 58).map_values(|d: nat| digit_char(d))
}

/// The bytes that the base-58 text `s` stands for: one zero byte for each
/// leading `1`, then the number that `s` holds, written in base 256 without
/// leading zero bytes.
pub open spec fn base58_bytes(s: Seq<char>) -> Seq<u8> {
    transcode(text_digits(s), 58, 256).map_values(|d: nat| d as u8)
}

/// Encoding what a valid text decodes to gives that text back.
pub proof fn law_encode_inverts_decode(s: Seq<char>)
    requires
        is_base58_text(s),
    ensures
        base58_text(base58_bytes(s)) == s,
{
    let ds = text_digits(s);
    assert(all_below(ds, 58)) by {
        assert forall|i: int| 0 <= i < ds.len() implies ds[i] < 58 by {
            lemma_char_digit_inverse(s[i]);
        }
    }
    let mid = transcode(ds, 58, 256);
    lemma_transcode_below(ds, 58, 256);
    lemma_transcode_round_trip(ds, 58, 256);
    assert(byte_digits(base58_bytes(s)) =~= mid);
    assert forall|i: int| 0 <= i < s.len() implies digit_char(ds[i]) == s[i] by {
        lemma_char_digit_inverse(s[i]);
    }
    assert(base58_text(base58_bytes(s)) =~= s);
}

/// The text of any bytes is valid, and decodes to those bytes.
pub proof fn law_decode_inverts_encode(b: Seq<u8>)
    ensures
        is_base58_text(base58_text(b)),
        base58_bytes(base58_text(b)) == b,
{
    let ds = byte_digits(b);
    assert(all_below(ds, 256));
    let mid = transcode(ds, 256, 58);
    lemma_transcode_below(ds, 256, 58);
    lemma_transcode_round_trip(ds, 256, 58);
    let text = base58_text(b);
    assert forall|i: int| 0 <= i < text.len() implies char_digit(#[trigger] text[i]) is Some by {
        lemma_digit_char_inverse(mid[i]);
    }
    assert(text_digits(text) =~= mid) by {
        assert forall|i: int| 0 <= i < mid.len() implies text_digits(text)[i] == mid[i] by {
            lemma_digit_char_inverse(mid[i]);
        }
    }
    assert(base58_bytes(text) =~= b);
}

/// Eight bytes fit into eleven digits of base 58.
proof fn lemma_eight_bytes_in_eleven_digits()
    ensures
        power(256, 8) <= power(58, 11),
{
    assert(power(256, 8) == 0x1_0000_0000_0000_0000) by {
        assert(power(256, 0) == 1);
        assert(power(256, 1) == 0x100);
        assert(power(256, 2) == 0x1_0000);
        assert(power(256, 3) == 0x100_0000);
        assert(power(256, 4) == 0x1_0000_0000);
        assert(power(256, 5) == 0x100_0000_0000);
        assert(power(256, 6) == 0x1_0000_0000_0000);
        assert(power(256, 7) == 0x100_0000_0000_0000);
    }
    assert(power(58, 11) == 24986644000165537792) by {
        assert(power(58, 0) == 1);
        assert(power(58, 1) == 58);
        assert(power(58, 2) == 3364);
        assert(power(58, 3) == 195112);
        assert(power(58, 4) == 11316496);
        assert(power(58, 5) == 656356768);
        assert(power(58, 6) == 38068692544);
        assert(power(58, 7) == 2207984167552);
        assert(power(58, 8) == 128063081718016);
        assert(power(58, 9) == 7427658739644928);
        assert(power(58, 10) == 430804206899405824);
    }
}

/// `k` groups of eight bytes fit into `k` groups of eleven digits.
proof fn lemma_groups_of_eight_bytes(k: nat)
    ensures
        power(256, 8 * k) <= power(58, 11 * k),
    decreases k,
{
    if k != 0 {
        let j = (k - 1) as nat;
        lemma_groups_of_eight_bytes(j);
        lemma_eight_bytes_in_eleven_digits();
        lemma_power_adds(256, 8 * j, 8);
        lemma_power_adds(58, 11 * j, 11);
        let a = power(256, 8 * j);
        let b = power(256, 8);
        let c = power(58, 11 * j);
        let d = power(58, 11);
        assert(a * b <= c * d) by (nonlinear_arith)
            requires
                a <= c,
                b <= d,
        ;
        assert(8 * j + 8 == 8 * k);
        assert(11 * j + 11 == 11 * k);
    }
}

/// The text of `k` groups of eight bytes has at most `k` groups of eleven
/// characters.
pub proof fn law_text_length_of_groups(b: Seq<u8>, k: nat)
    requires
        b.len() == 8 * k,
    ensures
        base58_text(b).len() <= 11 * k,
{
    let ds = byte_digits(b);
    assert(all_below(ds, 256));
    lemma_groups_of_eight_bytes(k);
    lemma_transcode_at_most(ds, 256, 58, 11 * k);
}

/// The text of `b` is never shorter than `b`. The text of a public key has
/// 32 to 44 characters, and that of a key pair 64 to 88.
pub proof fn law_text_length(b: Seq<u8>)
    ensures
        base58_text(b).len() >= b.len(),
        b.len() == 32 ==> 32 <= base58_text(b).len() <= 44,
        b.len() == 64 ==> 64 <= base58_text(b).len() <= 88,
{
    let ds = byte_digits(b);
    assert(all_below(ds, 256));
    lemma_transcode_at_least(ds, 256, 58);
    if b.len() == 32 {
        law_text_length_of_groups(b, 4);
    }
    if b.len() == 64 {
        law_text_length_of_groups(b, 8);
    }
}

/// Base-58 text is ASCII: it has as many UTF-8 bytes as characters.
pub proof fn law_text_is_ascii(s: Seq<char>)
    requires
        is_base58_text(s),
    ensures
        is_ascii_chars(s),
        encode_utf8(s).len() == s.len(),
{
    assert forall|i: int| 0 <= i < s.len() implies '\0' <= #[trigger] s[i] <= '\u{7f}' by {
        lemma_char_digit_inverse(s[i]);
    }
    is_ascii_chars_encode_utf8(s);
}

/// What `bs58` reports for a text that it cannot decode.
#[verifier::external_type_specification]
#[verifier::external_body]
pub struct ExBs58DecodeError(bs58::decode::Error);

/// `bs58::encode(..).into_string()` with the default (Bitcoin) alphabet and
/// no checksum. Believed, not proved: the string is the base-58 numeral of
/// the input read as one big-endian number, after one `1` for each leading
/// zero byte.
#[verifier::external_body]
fn bs58_encode(bytes: &[u8]) -> (text: String)
    ensures
        text@ == base58_text(bytes@),
{
    bs58::encode(bytes).into_string()
}

/// `bs58::decode(..).into_vec()` with the default (Bitcoin) alphabet and no
/// checksum. Believed, not proved: it fails exactly when some character is
/// outside the alphabet, and otherwise gives one zero byte for each leading
/// `1`, then the bytes of the number that the text holds.
#[verifier::external_body]
fn bs58_decode(text: &str) -> (r: Result<Vec<u8>, bs58::decode::Error>)
    ensures
        r is Ok <==> is_base58_text(text@),
        r matches Ok(b) ==> b@ == base58_bytes(text@),
{
    bs58::decode(text).into_vec()
}

/// Writes `bytes` as base-58 text.
pub fn encode_base58(bytes: &[u8]) -> (text: String)
    ensures
        text@ == base58_text(bytes@),
        is_base58_text(text@),
        base58_bytes(text@) == bytes@,
        text@.len() >= bytes@.len(),
{
    proof {
        law_decode_inverts_encode(bytes@);
        law_text_length(bytes@);
    }
    bs58_encode(bytes)
}

/// Reads base-58 text. Fails with [`OpError::Encoding`] exactly when some
/// character of `text` is outside the alphabet; nothing is skipped or
/// replaced.
pub fn decode_base58(text: &str) -> (r: Result<Vec<u8>, OpError>)
    ensures
        r is Ok <==> is_base58_text(text@),
        r matches Ok(b) ==> b@ == base58_bytes(text@) && base58_text(b@) == text@,
        r matches Err(e) ==> e == OpError::Encoding,
{
    match bs58_decode(text) {
        Ok(bytes) => {
            proof {
                law_encode_inverts_decode(text@);
            }
            Ok(bytes)
        },
        Err(_) => Err(OpError::Encoding),
    }
}

} // verus!
