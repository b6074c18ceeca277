//! The address of the token account that belongs to an owner and a mint: a
//! program-derived address, found by a search over the bump seed.

use crate::error::OpError;
use crate::instruction::token_program_id;
use crate::keys::PublicKey;
use vstd::prelude::*;

verus! {

/// The address of the associated-account program.
pub open spec fn associated_program_id() -> Seq<u8> {
    seq![
        140u8, 151, 37, 143, 78, 36, 137, 241, 187, 61, 16, 41, 20, 142, 13, 131,
        11, 90, 19, 153, 218, 255, 16, 132, 4, 142, 123, 216, 219, 233, 248, 89,
    ]
}

/// The ASCII bytes of `ProgramDerivedAddress`, which close every seed.
pub open spec fn derivation_suffix() -> Seq<u8> {
    seq![
        80u8, 114, 111, 103, 114, 97, 109, 68, 101, 114, 105, 118, 101, 100, 65, 100,
        100, 114, 101, 115, 115,
    ]
}

/// The SHA-256 digest of `data`: 32 bytes.
pub uninterp spec fn sha256(data: Seq<u8>) -> Seq<u8>;

/// Whether the 32 bytes decode as a point of the ed25519 curve.
pub uninterp spec fn is_curve_point(bytes: Seq<u8>) -> bool;

/// `solana_sdk::hash::hash`. Believed, not proved: the digest depends on the
/// data alone.
#[verifier::external_body]
fn sdk_sha256(data: &[u8]) -> (digest: [u8; 32])
    ensures
        digest@ == sha256(data@),
{
    solana_sdk::hash::hash(data).to_bytes()
}

/// `Pubkey::is_on_curve` of `solana_sdk`. Believed, not proved: the answer
/// depends on the bytes alone.
#[verifier::external_body]
fn sdk_is_on_curve(bytes: &[u8; 32]) -> (on_curve: bool)
    ensures
        on_curve == is_curve_point(bytes@),
{
    solana_sdk::pubkey::Pubkey::from(*bytes).is_on_curve()
}

/// The bytes that are hashed for the bump seed `bump`: owner, mint, token
/// program, the bump byte, associated-account program, suffix.
pub open spec fn seed_bytes(owner: Seq<u8>, mint: Seq<u8>, bump: u8) -> Seq<u8> {
    owner + mint + token_program_id() + seq![bump] + associated_program_id() + derivation_suffix()
}

/// The address that the bump seed `bump` gives.
pub open spec fn candidate(owner: Seq<u8>, mint: Seq<u8>, bump: u8) -> Seq<u8> {
    sha256(seed_bytes(owner, mint, bump))
}

/// The largest bump seed, not above `top`, whose candidate is no point of
/// the curve.
pub open spec fn highest_viable_bump(owner: Seq<u8>, mint: Seq<u8>, top: int) -> Option<u8>
    decreases top + 1,
{
    if top < 0 || top > 255 {
        None
    } else if !is_curve_point(candidate(owner, mint, top as u8)) {
        Some(top as u8)
    } else {
        highest_viable_bump(owner, mint, top - 1)
    }
}

/// The associated account of `owner` and `mint`, with its bump seed: the
/// candidate of the largest bump seed, from 255 down, that is no point of
/// the curve. `None` where all 256 candidates are points.
pub open spec fn associated_address(owner: Seq<u8>, mint: Seq<u8>) -> Option<(Seq<u8>, u8)> {
    match highest_viable_bump(owner, mint, 255) {
        Some(bump) => Some((candidate(owner, mint, bump), bump)),
        None => None,
    }
}

/// What the search settles on is a candidate off the curve, and every larger
/// bump seed gives a point of the curve; where it settles on nothing, every
/// bump seed does.
pub proof fn law_highest_viable_bump(owner: Seq<u8>, mint: Seq<u8>, top: int)
    requires
        -1 <= top <= 255,
    ensures
        match highest_viable_bump(owner, mint, top) {
            Some(bump) => {
                &&& bump <= top
                &&& !is_curve_point(candidate(owner, mint, bump))
                &&& forall|b: u8| bump < b <= top ==> is_curve_point(candidate(owner, mint, b))
            },
            None => forall|b: u8| b <= top ==> is_curve_point(candidate(owner, mint, b)),
        },
    decreases top + 1,
{
    if top >= 0 && is_curve_point(candidate(owner, mint, top as u8)) {
        law_highest_viable_bump(owner, mint, top - 1);
    }
}

/// A derived address is never a point of the curve, so no key pair can own
/// it.
pub proof fn law_derived_address_is_off_curve(owner: Seq<u8>, mint: Seq<u8>)
    ensures
        associated_address(owner, mint) matches Some(found) ==> {
            &&& found.0 == candidate(owner, mint, found.1)
            &&& !is_curve_point(found.0)
        },
{
    law_highest_viable_bump(owner, mint, 255);
}

/// `r` is what deriving the associated account of `owner` and `mint` gives:
/// the address with its bump seed, or [`OpError::Domain`] where there is
/// none.
pub open spec fn is_derivation(
    r: Result<(PublicKey, u8), OpError>,
    owner: Seq<u8>,
    mint: Seq<u8>,
) -> bool {
    match r {
        Ok((address, bump)) => associated_address(owner, mint) == Some((address@, bump)),
        Err(e) => e == OpError::Domain && associated_address(owner, mint) is None,
    }
}

/// Two derivations for the same owner and mint give the same address and
/// the same bump seed, or fail alike.
pub proof fn law_derivation_is_deterministic(
    owner: Seq<u8>,
    mint: Seq<u8>,
    first: Result<(PublicKey, u8), OpError>,
    second: Result<(PublicKey, u8), OpError>,
)
    requires
        is_derivation(first, owner, mint),
        is_derivation(second, owner, mint),
    ensures
        first is Ok <==> second is Ok,
        first matches Ok(a) ==> second matches Ok(b) && a.0@ == b.0@ && a.1 == b.1,
        first matches Err(e) ==> second == Err::<(PublicKey, u8), OpError>(e),
{
}

/// Appends `part` to `out`.
fn push_all(out: &mut Vec<u8>, part: &[u8])
    ensures
        final(out)@ == old(out)@ + part@,
{
    let mut i: usize = 0;
    while i < part.len()
        invariant
            i <= part@.len(),
            out@ == old(out)@ + part@.subrange(0, i as int),
        decreases part@.len() - i,
    {
        out.push(part[i]);
        i = i + 1;
        assert(out@ =~= old(out)@ + part@.subrange(0, i as int));
    }
    assert(part@.subrange(0, i as int) =~= part@);
}

/// The token program's address.
pub fn token_program() -> (key: PublicKey)
    ensures
        key@ == token_program_id(),
{
    let key = PublicKey {
        bytes: [
            6, 221, 246, 225, 215, 101, 161, 147, 217, 203, 225, 70, 206, 235, 121, 172,
            28, 180, 133, 237, 95, 91, 55, 145, 58, 140, 245, 133, 126, 255, 0, 169,
        ],
    };
    assert(key@ =~= token_program_id());
    key
}

/// The associated-account program's address.
pub fn associated_program() -> (key: PublicKey)
    ensures
        key@ == associated_program_id(),
{
    let key = PublicKey {
        bytes: [
            140, 151, 37, 143, 78, 36, 137, 241, 187, 61, 16, 41, 20, 142, 13, 131,
            11, 90, 19, 153, 218, 255, 16, 132, 4, 142, 123, 216, 219, 233, 248, 89,
        ],
    };
    assert(key@ =~= associated_program_id());
    key
}

/// The bytes that are hashed for one bump seed.
pub fn seed_for_bump(owner: &PublicKey, mint: &PublicKey, bump: u8) -> (seed: Vec<u8>)
    ensures
        seed@ == seed_bytes(owner@, mint@, bump),
{
    let suffix: [u8; 21] = [
        80, 114, 111, 103, 114, 97, 109, 68, 101, 114, 105, 118, 101, 100, 65, 100,
        100, 114, 101, 115, 115,
    ];
    assert(suffix@ =~= derivation_suffix());
    let token = token_program();
    let program = associated_program();
    let mut seed: Vec<u8> = Vec::new();
    push_all(&mut seed, owner.bytes.as_slice());
    push_all(&mut seed, mint.bytes.as_slice());
    push_all(&mut seed, token.bytes.as_slice());
    seed.push(bump);
    push_all(&mut seed, program.bytes.as_slice());
    push_all(&mut seed, suffix.as_slice());
    assert(seed@ =~= seed_bytes(owner@, mint@, bump));
    seed
}

/// Where the search stands once one candidate has been looked at.
#[derive(Clone, Copy, Debug)]
pub enum Search {
    /// The candidate is off the curve: it is the address, with its bump seed.
    Found(PublicKey, u8),
    /// The candidate is a point of the curve: the next bump seed is tried.
    Next(u8),
    /// The candidate is a point of the curve, and no bump seed is left.
    Exhausted,
}

/// What follows from the candidate `digest` of the bump seed `bump`, given
/// whether it is a point of the curve.
pub fn after_candidate(bump: u8, digest: [u8; 32], on_curve: bool) -> (next: Search)
    ensures
        match next {
            Search::Found(address, found) => !on_curve && address@ == digest@ && found == bump,
            Search::Next(lower) => on_curve && bump > 0 && lower == bump - 1,
            Search::Exhausted => on_curve && bump == 0,
        },
{
    if !on_curve {
        Search::Found(PublicKey { bytes: digest }, bump)
    } else if bump == 0 {
        Search::Exhausted
    } else {
        Search::Next(bump - 1)
    }
}

/// Derives the associated account of `owner` and `mint`, and the bump seed
/// that gives it. The same owner and mint always give the same address and
/// bump seed, and the address is no point of the curve. Fails with
/// [`OpError::Domain`] exactly when no bump seed is usable.
pub fn derive_associated_account(owner: &PublicKey, mint: &PublicKey) -> (r: Result<
    (PublicKey, u8),
    OpError,
>)
    ensures
        is_derivation(r, owner@, mint@),
        r matches Ok(found) ==> !is_curve_point(found.0@),
{
    let mut bump: u8 = 255;
    loop
        invariant
            highest_viable_bump(owner@, mint@, 255) == highest_viable_bump(
                owner@,
                mint@,
                bump as int,
            ),
        decreases bump,
    {
        let seed = seed_for_bump(owner, mint, bump);
        let digest = sdk_sha256(seed.as_slice());
        let on_curve = sdk_is_on_curve(&digest);
        match after_candidate(bump, digest, on_curve) {
            Search::Found(address, found) => {
                return Ok((address, found));
            },
            Search::Next(lower) => {
                bump = lower;
            },
            Search::Exhausted => {
                assert(highest_viable_bump(owner@, mint@, -1) is None);
                return Err(OpError::Domain);
            },
        }
    }
}

} // verus!
