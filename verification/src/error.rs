//! The ways in which an operation can refuse its input.

use vstd::prelude::*;

verus! {

/// Why an operation of this library refused its input.
#[derive(Clone, Copy, Debug, PartialEq, Eq, Structural)]
pub enum OpError {
    /// The text holds a character outside the alphabet, or its padding is
    /// malformed.
    Encoding,
    /// The decoded bytes do not have the one length that the value must have.
    Length,
    /// The bytes have the right length but are no valid ed25519 key.
    Curve,
    /// A rule of the ledger is broken: an amount of zero, decimals out of
    /// range, a transfer from an account to itself, or no usable bump seed.
    Domain,
}

impl OpError {
    /// How messages call the error.
    pub open spec fn label(self) -> Seq<char> {
        match self {
            OpError::Encoding => "invalid encoding"@,
            OpError::Length => "wrong length"@,
            OpError::Curve => "not a valid ed25519 key"@,
            OpError::Domain => "not allowed by the rules of the ledger"@,
        }
    }

    /// How messages call the error, as a string.
    pub fn label_text(self) -> (text: &'static str)
        ensures
            text@ == self.label(),
    {
        match self {
            OpError::Encoding => "invalid encoding",
            OpError::Length => "wrong length",
            OpError::Curve => "not a valid ed25519 key",
            OpError::Domain => "not allowed by the rules of the ledger",
        }
    }
}

} // verus!
