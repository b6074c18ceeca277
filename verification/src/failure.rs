//! Why a request was turned down, and the message that says so.

use crate::error::OpError;
use vstd::prelude::*;
use vstd::string::StringExecFns;

verus! {

/// The fields that requests are made of.
#[derive(Clone, Copy, Debug, PartialEq, Eq, Structural)]
pub enum Field {
    MintAuthority,
    Mint,
    Decimals,
    Destination,
    Authority,
    Amount,
    Message,
    Secret,
    Signature,
    Pubkey,
    From,
    To,
    Lamports,
    Owner,
}

/// Why a request was turned down.
#[derive(Clone, Copy, Debug, PartialEq, Eq, Structural)]
pub enum Failure {
    /// The field has not the length or the range that a request allows.
    Validation(Field),
    /// The text of the field could not be read as what it stands for.
    Parse(Field, OpError),
    /// The request is well formed but breaks a rule of the ledger.
    Domain,
}

impl Field {
    /// How messages call the field.
    pub open spec fn label(self) -> Seq<char> {
        match self {
            Field::MintAuthority => "mint authority"@,
            Field::Mint => "mint"@,
            Field::Decimals => "decimals"@,
            Field::Destination => "destination"@,
            Field::Authority => "authority"@,
            Field::Amount => "amount"@,
            Field::Message => "message"@,
            Field::Secret => "secret key"@,
            Field::Signature => "signature"@,
            Field::Pubkey => "public key"@,
            Field::From => "from address"@,
            Field::To => "to address"@,
            Field::Lamports => "lamports"@,
            Field::Owner => "owner"@,
        }
    }

    /// How messages call the field, as a string.
    pub fn label_text(self) -> (text: &'static str)
        ensures
            text@ == self.label(),
    {
        match self {
            Field::MintAuthority => "mint authority",
            Field::Mint => "mint",
            Field::Decimals => "decimals",
            Field::Destination => "destination",
            Field::Authority => "authority",
            Field::Amount => "amount",
            Field::Message => "message",
            Field::Secret => "secret key",
            Field::Signature => "signature",
            Field::Pubkey => "public key",
            Field::From => "from address",
            Field::To => "to address",
            Field::Lamports => "lamports",
            Field::Owner => "owner",
        }
    }
}

/// The text `head` followed by the text `tail`.
fn join(head: &str, tail: &str) -> (text: String)
    ensures
        text@ == head@ + tail@,
{
    String::from_str(head).concat(tail)
}

impl Failure {
    /// The message of the failure.
    pub open spec fn text(self) -> Seq<char> {
        match self {
            Failure::Validation(field) => "Validation error: "@ + field.label(),
            Failure::Parse(field, kind) => "Invalid "@ + field.label() + ": "@ + kind.label(),
            Failure::Domain => "Operation "@ + OpError::Domain.label(),
        }
    }

    /// The message of the failure, for the envelope of the response.
    pub fn message(self) -> (text: String)
        ensures
            text@ == self.text(),
    {
        match self {
            Failure::Validation(field) => join("Validation error: ", field.label_text()),
            Failure::Parse(field, kind) => {
                let head = join("Invalid ", field.label_text());
                let tail = join(": ", kind.label_text());
                join(head.as_str(), tail.as_str())
            },
            Failure::Domain => join("Operation ", OpError::Domain.label_text()),
        }
    }
}

} // verus!
