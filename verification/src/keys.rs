//! Public keys and key pairs: their byte forms, their base-58 text, and the
//! checks that turn text into a key.

use crate::base58::base58_bytes;
use crate::base58::base58_text;
use crate::base58::decode_base58;
use crate::base58::encode_base58;
use crate::base58::is_base58_text;
use crate::base58::law_text_is_ascii;
use crate::base58::law_text_length;
use crate::error::OpError;
use vstd::prelude::*;

verus! {

/// Number of bytes in a public key.
pub const PUBLIC_KEY_LEN: usize = 32;

/// Number of bytes in a key pair: the seed, then the public key.
pub const KEY_PAIR_LEN: usize = 64;

/// An ed25519 public key, or another address of the ledger: 32 raw bytes.
#[derive(Clone, Copy, Debug)]
pub struct PublicKey {
    pub bytes: [u8; 32],
}

impl View for PublicKey {
    type V = Seq<u8>;

    open spec fn view(&self) -> Seq<u8> {
        self.bytes@
    }
}

/// Copies 32 bytes of `source`, from `start` on, into an array.
fn copy_32(source: &[u8], start: usize) -> (out: [u8; 32])
    requires
        start + 32 <= source@.len(),
    ensures
        out@ == source@.subrange(start as int, start + 32),
{
    let mut out = [0u8; 32];
    let len = source.len();
    let mut i: usize = 0;
    while i < 32
        invariant
            i <= 32,
            start + 32 <= source@.len(),
            source@.len() == len,
            forall|j: int| 0 <= j < i ==> out@[j] == source@[start + j],
        decreases 32 - i,
    {
        out[i] = source[start + i];
        i = i + 1;
    }
    assert(out@ =~= source@.subrange(start as int, start + 32));
    out
}

impl PublicKey {
    /// The key that `bytes` holds. Fails with [`OpError::Length`] unless
    /// there are exactly 32 of them.
    pub fn from_slice(bytes: &[u8]) -> (r: Result<PublicKey, OpError>)
        ensures
            r is Ok <==> bytes@.len() == 32,
            r matches Ok(key) ==> key@ == bytes@,
            r matches Err(e) ==> e == OpError::Length,
    {
        if bytes.len() != PUBLIC_KEY_LEN {
            return Err(OpError::Length);
        }
        let out = copy_32(bytes, 0);
        assert(bytes@.subrange(0, 32) =~= bytes@);
        Ok(PublicKey { bytes: out })
    }

    /// Whether two keys hold the same bytes.
    pub fn same_as(&self, other: &PublicKey) -> (b: bool)
        ensures
            b == (self@ == other@),
            b == (*self == *other),
    {
        let mut i: usize = 0;
        while i < 32
            invariant
                i <= 32,
                forall|j: int| 0 <= j < i ==> self.bytes@[j] == other.bytes@[j],
            decreases 32 - i,
        {
            if self.bytes[i] != other.bytes[i] {
                return false;
            }
            i = i + 1;
        }
        assert(self.bytes@ =~= other.bytes@);
        assert(self.bytes == other.bytes) by {
            vstd::array::axiom_array_ext_equal(self.bytes, other.bytes);
        }
        true
    }
}

/// What parsing the text `s` as a public key gives: the text must be
/// base-58, and must stand for exactly 32 bytes.
pub open spec fn parse_public_key(s: Seq<char>) -> Result<Seq<u8>, OpError> {
    if !is_base58_text(s) {
        Err(OpError::Encoding)
    } else if base58_bytes(s).len() != 32 {
        Err(OpError::Length)
    } else {
        Ok(base58_bytes(s))
    }
}

/// Reads a public key from its base-58 text.
pub fn base58_to_pubkey(text: &str) -> (r: Result<PublicKey, OpError>)
    ensures
        match (r, parse_public_key(text@)) {
            (Ok(key), Ok(bytes)) => key@ == bytes,
            (Err(e), Err(expected)) => e == expected,
            _ => false,
        },
{
    match decode_base58(text) {
        Ok(bytes) => PublicKey::from_slice(bytes.as_slice()),
        Err(e) => Err(e),
    }
}

/// Writes a public key as base-58 text, which has 32 to 44 characters and
/// reads back as the same key.
pub fn pubkey_to_base58(key: &PublicKey) -> (text: String)
    ensures
        text@ == base58_text(key@),
        32 <= text@.len() <= 44,
        is_base58_text(text@),
        parse_public_key(text@) == Ok::<Seq<u8>, OpError>(key@),
{
    proof {
        law_text_length(key@);
    }
    encode_base58(key.bytes.as_slice())
}

/// Whether `address` has the length of a base-58 public key, 32 to 44 bytes,
/// and is base-58 text. Such a text has as many bytes as characters, so the
/// length may be counted either way.
pub fn is_valid_solana_address(address: &str) -> (b: bool)
    ensures
        b == (32 <= address.len() <= 44 && is_base58_text(address@)),
        b == (32 <= address@.len() <= 44 && is_base58_text(address@)),
{
    let length = address.as_bytes().len();
    proof {
        if is_base58_text(address@) {
            law_text_is_ascii(address@);
        }
    }
    if length < 32 || length > 44 {
        return false;
    }
    decode_base58(address).is_ok()
}

/// Whether the 64 bytes are an ed25519 key pair as the ledger's SDK accepts
/// it: the second half is a point of the curve, and is the public key that
/// the seed in the first half gives.
pub uninterp spec fn keypair_is_valid(bytes: Seq<u8>) -> bool;

/// `solana_sdk::signer::keypair::Keypair::from_bytes`, asked only whether it
/// accepts the bytes. Believed, not proved: the answer depends on the bytes
/// alone.
#[verifier::external_body]
fn sdk_accepts_keypair(bytes: &[u8; 64]) -> (ok: bool)
    ensures
        ok == keypair_is_valid(bytes@),
{
    solana_sdk::signer::keypair::Keypair::from_bytes(bytes).is_ok()
}

/// `solana_sdk::signer::keypair::Keypair::new`, then `to_bytes`: a key pair
/// drawn from the operating system's random source. Believed, not proved:
/// what comes out is a key pair that `from_bytes` accepts. Nothing is said
/// of which one.
#[verifier::external_body]
fn sdk_new_keypair() -> (bytes: [u8; 64])
    ensures
        keypair_is_valid(bytes@),
{
    solana_sdk::signer::keypair::Keypair::new().to_bytes()
}

/// An ed25519 key pair: the 32-byte seed, then the 32-byte public key that
/// the seed gives. A value of this type always holds a valid pair.
pub struct KeyPair {
    bytes: [u8; 64],
}

impl View for KeyPair {
    type V = Seq<u8>;

    closed spec fn view(&self) -> Seq<u8> {
        self.bytes@
    }
}

impl KeyPair {
    #[verifier::type_invariant]
    spec fn well_formed(self) -> bool {
        keypair_is_valid(self.bytes@)
    }

    /// The public half: the last 32 of the 64 bytes.
    pub open spec fn public_bytes(&self) -> Seq<u8> {
        self@.subrange(32, 64)
    }

    /// A new key pair from the operating system's random source.
    pub fn generate() -> (pair: KeyPair)
        ensures
            pair@.len() == 64,
            keypair_is_valid(pair@),
    {
        KeyPair { bytes: sdk_new_keypair() }
    }

    /// The key pair that `bytes` holds. Fails with [`OpError::Length`] unless
    /// there are exactly 64 bytes, and with [`OpError::Curve`] where they are
    /// no valid pair.
    pub fn from_slice(bytes: &[u8]) -> (r: Result<KeyPair, OpError>)
        ensures
            match r {
                Ok(pair) => pair@ == bytes@ && bytes@.len() == 64 && keypair_is_valid(bytes@),
                Err(e) => if bytes@.len() != 64 {
                    e == OpError::Length
                } else {
                    e == OpError::Curve && !keypair_is_valid(bytes@)
                },
            },
    {
        if bytes.len() != KEY_PAIR_LEN {
            return Err(OpError::Length);
        }
        let mut out = [0u8; 64];
        let mut i: usize = 0;
        while i < 64
            invariant
                i <= 64,
                bytes@.len() == 64,
                forall|j: int| 0 <= j < i ==> out@[j] == bytes@[j],
            decreases 64 - i,
        {
            out[i] = bytes[i];
            i = i + 1;
        }
        assert(out@ =~= bytes@);
        if sdk_accepts_keypair(&out) {
            Ok(KeyPair { bytes: out })
        } else {
            Err(OpError::Curve)
        }
    }

    /// The 64 bytes: seed, then public key.
    pub fn to_bytes(&self) -> (out: [u8; 64])
        ensures
            out@ == self@,
            out@.len() == 64,
            keypair_is_valid(out@),
    {
        proof {
            use_type_invariant(self);
        }
        self.bytes
    }

    /// The public key of the pair.
    pub fn public_key(&self) -> (key: PublicKey)
        ensures
            key@ == self.public_bytes(),
    {
        PublicKey { bytes: copy_32(self.bytes.as_slice(), 32) }
    }

    /// The pair as base-58 text of its 64 bytes, which has 64 to 88
    /// characters and reads back as the same pair.
    pub fn to_base58(&self) -> (text: String)
        ensures
            text@ == base58_text(self@),
            64 <= text@.len() <= 88,
            parse_key_pair(text@) == Ok::<Seq<u8>, OpError>(self@),
    {
        proof {
            use_type_invariant(self);
            law_text_length(self.bytes@);
        }
        encode_base58(self.bytes.as_slice())
    }
}

/// What parsing the text `s` as a key pair gives: the text must be base-58,
/// must stand for exactly 64 bytes, and those must be a valid pair.
pub open spec fn parse_key_pair(s: Seq<char>) -> Result<Seq<u8>, OpError> {
    if !is_base58_text(s) {
        Err(OpError::Encoding)
    } else if base58_bytes(s).len() != 64 {
        Err(OpError::Length)
    } else if !keypair_is_valid(base58_bytes(s)) {
        Err(OpError::Curve)
    } else {
        Ok(base58_bytes(s))
    }
}

/// Reads a key pair from the base-58 text of its 64 bytes.
pub fn base58_to_keypair(text: &str) -> (r: Result<KeyPair, OpError>)
    ensures
        match (r, parse_key_pair(text@)) {
            (Ok(pair), Ok(bytes)) => pair@ == bytes,
            (Err(e), Err(expected)) => e == expected,
            _ => false,
        },
{
    match decode_base58(text) {
        Ok(bytes) => KeyPair::from_slice(bytes.as_slice()),
        Err(e) => Err(e),
    }
}

} // verus!
