//! Signing a message with a key pair, and checking a signature.

use crate::error::OpError;
use crate::keys::keypair_is_valid;
use crate::keys::KeyPair;
use crate::keys::PublicKey;
use vstd::prelude::*;

verus! {

/// Number of bytes in a signature.
pub const SIGNATURE_LEN: usize = 64;

/// An ed25519 signature: 64 raw bytes.
#[derive(Clone, Copy, Debug)]
pub struct Signature {
    pub bytes: [u8; 64],
}

impl View for Signature {
    type V = Seq<u8>;

    open spec fn view(&self) -> Seq<u8> {
        self.bytes@
    }
}

/// The ed25519 signature that the key pair `keypair` (64 bytes) gives for
/// `message`. It depends on nothing else: no randomness goes into it.
pub uninterp spec fn ed25519_signature(keypair: Seq<u8>, message: Seq<u8>) -> Seq<u8>;

/// Whether `signature` is a valid ed25519 signature of `message` under
/// `public_key`, by the strict rules of the ledger's SDK.
pub uninterp spec fn ed25519_verifies(
    public_key: Seq<u8>,
    message: Seq<u8>,
    signature: Seq<u8>,
) -> bool;

/// `Keypair::from_bytes` and `Signer::sign_message` of `solana_sdk`.
/// Believed, not proved: the signature depends on the key pair and the
/// message alone, and, as the scheme promises of every signature made with a
/// valid pair, it verifies under the public half of that pair.
#[verifier::external_body]
fn sdk_sign(keypair: &[u8; 64], message: &[u8]) -> (signature: [u8; 64])
    requires
        keypair_is_valid(keypair@),
    ensures
        signature@ == ed25519_signature(keypair@, message@),
        ed25519_verifies(keypair@.subrange(32, 64), message@, signature@),
{
    let pair = solana_sdk::signer::keypair::Keypair::from_bytes(keypair).unwrap();
    solana_sdk::signer::Signer::sign_message(&pair, message).into()
}

/// `Signature::verify` of `solana_sdk`. Believed, not proved: the answer
/// depends on the three byte strings alone. A key that is no point of the
/// curve gives `false`, never a failure.
#[verifier::external_body]
fn sdk_verify(public_key: &[u8; 32], message: &[u8], signature: &[u8; 64]) -> (ok: bool)
    ensures
        ok == ed25519_verifies(public_key@, message@, signature@),
{
    solana_sdk::signature::Signature::from(*signature).verify(public_key, message)
}

impl Signature {
    /// The signature that `bytes` holds. Fails with [`OpError::Length`]
    /// unless there are exactly 64 of them.
    pub fn from_slice(bytes: &[u8]) -> (r: Result<Signature, OpError>)
        ensures
            r is Ok <==> bytes@.len() == 64,
            r matches Ok(signature) ==> signature@ == bytes@,
            r matches Err(e) ==> e == OpError::Length,
    {
        if bytes.len() != SIGNATURE_LEN {
            return Err(OpError::Length);
        }
        let mut out = [0u8; 64];
        let mut i: usize = 0;
        while i < 64
            invariant
                i <= 64,
                bytes@.len() == 64,
                forall|j: int| 0 <= j < i ==> out@[j] == bytes@[j],
            decreases 64 - i,
        {
            out[i] = bytes[i];
            i = i + 1;
        }
        assert(out@ =~= bytes@);
        Ok(Signature { bytes: out })
    }
}

/// Signs `message` with `pair`. The signature has 64 bytes; the same pair and
/// message always give the same signature, and that signature verifies
/// under the pair's public key.
pub fn sign(pair: &KeyPair, message: &[u8]) -> (signature: Signature)
    ensures
        signature@.len() == 64,
        signature@ == ed25519_signature(pair@, message@),
        ed25519_verifies(pair.public_bytes(), message@, signature@),
{
    let bytes = pair.to_bytes();
    Signature { bytes: sdk_sign(&bytes, message) }
}

/// Whether `signature` is a valid signature of `message` under `key`. A
/// wrong signature gives `false`; there is no failure.
pub fn verify(key: &PublicKey, message: &[u8], signature: &Signature) -> (ok: bool)
    ensures
        ok == ed25519_verifies(key@, message@, signature@),
{
    sdk_verify(&key.bytes, message, &signature.bytes)
}

} // verus!
