//! The rules on the form of a request: how long a text may be, and which
//! numbers are in range. The first field that breaks its rule is named.

use crate::failure::Field;
use crate::instruction::MAX_DECIMALS;
use crate::models::CreateTokenRequest;
use crate::models::MintTokenRequest;
use crate::models::SendSolRequest;
use crate::models::SendTokenRequest;
use crate::models::SignMessageRequest;
use crate::models::VerifyMessageRequest;
use vstd::prelude::*;
use vstd::string::StrSliceExecFns;

verus! {

/// A base-58 address has 32 to 44 characters.
pub open spec fn address_length(text: Seq<char>) -> bool {
    32 <= text.len() <= 44
}

/// Whether `text` has the length of a base-58 address.
pub fn has_address_length(text: &str) -> (b: bool)
    ensures
        b == address_length(text@),
{
    let n = text.unicode_len();
    32 <= n && n <= 44
}

/// Whether `text` has at least `min` characters.
pub fn has_min_length(text: &str, min: usize) -> (b: bool)
    ensures
        b == (text@.len() >= min),
{
    text.unicode_len() >= min
}

impl CreateTokenRequest {
    /// The first field that breaks its rule, if any: both keys have the
    /// length of an address, and the decimals are at most [`MAX_DECIMALS`].
    pub open spec fn violation(&self) -> Option<Field> {
        if !address_length(self.mint_authority@) {
            Some(Field::MintAuthority)
        } else if !address_length(self.mint@) {
            Some(Field::Mint)
        } else if self.decimals > MAX_DECIMALS {
            Some(Field::Decimals)
        } else {
            None
        }
    }

    /// Checks the form of the request and names the first field that
    /// breaks its rule.
    pub fn validate(&self) -> (r: Result<(), Field>)
        ensures
            r is Ok <==> self.violation() is None,
            r matches Err(field) ==> self.violation() == Some(field),
    {
        if !has_address_length(self.mint_authority.as_str()) {
            Err(Field::MintAuthority)
        } else if !has_address_length(self.mint.as_str()) {
            Err(Field::Mint)
        } else if self.decimals > MAX_DECIMALS {
            Err(Field::Decimals)
        } else {
            Ok(())
        }
    }
}

impl MintTokenRequest {
    /// The first field that breaks its rule, if any: the three keys have the
    /// length of an address, and the amount is at least 1.
    pub open spec fn violation(&self) -> Option<Field> {
        if !address_length(self.mint@) {
            Some(Field::Mint)
        } else if !address_length(self.destination@) {
            Some(Field::Destination)
        } else if !address_length(self.authority@) {
            Some(Field::Authority)
        } else if self.amount < 1 {
            Some(Field::Amount)
        } else {
            None
        }
    }

    /// Checks the form of the request and names the first field that
    /// breaks its rule.
    pub fn validate(&self) -> (r: Result<(), Field>)
        ensures
            r is Ok <==> self.violation() is None,
            r matches Err(field) ==> self.violation() == Some(field),
    {
        if !has_address_length(self.mint.as_str()) {
            Err(Field::Mint)
        } else if !has_address_length(self.destination.as_str()) {
            Err(Field::Destination)
        } else if !has_address_length(self.authority.as_str()) {
            Err(Field::Authority)
        } else if self.amount < 1 {
            Err(Field::Amount)
        } else {
            Ok(())
        }
    }
}

impl SignMessageRequest {
    /// The first field that breaks its rule, if any: the message is not
    /// empty, and the secret has at least 32 characters.
    pub open spec fn violation(&self) -> Option<Field> {
        if self.message@.len() < 1 {
            Some(Field::Message)
        } else if self.secret@.len() < 32 {
            Some(Field::Secret)
        } else {
            None
        }
    }

    /// Checks the form of the request and names the first field that
    /// breaks its rule.
    pub fn validate(&self) -> (r: Result<(), Field>)
        ensures
            r is Ok <==> self.violation() is None,
            r matches Err(field) ==> self.violation() == Some(field),
    {
        if !has_min_length(self.message.as_str(), 1) {
            Err(Field::Message)
        } else if !has_min_length(self.secret.as_str(), 32) {
            Err(Field::Secret)
        } else {
            Ok(())
        }
    }
}

impl VerifyMessageRequest {
    /// The first field that breaks its rule, if any: message and signature
    /// are not empty, and the key has the length of an address.
    pub open spec fn violation(&self) -> Option<Field> {
        if self.message@.len() < 1 {
            Some(Field::Message)
        } else if self.signature@.len() < 1 {
            Some(Field::Signature)
        } else if !address_length(self.pubkey@) {
            Some(Field::Pubkey)
        } else {
            None
        }
    }

    /// Checks the form of the request and names the first field that
    /// breaks its rule.
    pub fn validate(&self) -> (r: Result<(), Field>)
        ensures
            r is Ok <==> self.violation() is None,
            r matches Err(field) ==> self.violation() == Some(field),
    {
        if !has_min_length(self.message.as_str(), 1) {
            Err(Field::Message)
        } else if !has_min_length(self.signature.as_str(), 1) {
            Err(Field::Signature)
        } else if !has_address_length(self.pubkey.as_str()) {
            Err(Field::Pubkey)
        } else {
            Ok(())
        }
    }
}

impl SendSolRequest {
    /// The first field that breaks its rule, if any: both keys have the
    /// length of an address, and at least 1 lamport is sent.
    pub open spec fn violation(&self) -> Option<Field> {
        if !address_length(self.from@) {
            Some(Field::From)
        } else if !address_length(self.to@) {
            Some(Field::To)
        } else if self.lamports < 1 {
            Some(Field::Lamports)
        } else {
            None
        }
    }

    /// Checks the form of the request and names the first field that
    /// breaks its rule.
    pub fn validate(&self) -> (r: Result<(), Field>)
        ensures
            r is Ok <==> self.violation() is None,
            r matches Err(field) ==> self.violation() == Some(field),
    {
        if !has_address_length(self.from.as_str()) {
            Err(Field::From)
        } else if !has_address_length(self.to.as_str()) {
            Err(Field::To)
        } else if self.lamports < 1 {
            Err(Field::Lamports)
        } else {
            Ok(())
        }
    }
}

impl SendTokenRequest {
    /// The first field that breaks its rule, if any: the three keys have the
    /// length of an address, and the amount is at least 1.
    pub open spec fn violation(&self) -> Option<Field> {
        if !address_length(self.destination@) {
            Some(Field::Destination)
        } else if !address_length(self.mint@) {
            Some(Field::Mint)
        } else if !address_length(self.owner@) {
            Some(Field::Owner)
        } else if self.amount < 1 {
            Some(Field::Amount)
        } else {
            None
        }
    }

    /// Checks the form of the request and names the first field that
    /// breaks its rule.
    pub fn validate(&self) -> (r: Result<(), Field>)
        ensures
            r is Ok <==> self.violation() is None,
            r matches Err(field) ==> self.violation() == Some(field),
    {
        if !has_address_length(self.destination.as_str()) {
            Err(Field::Destination)
        } else if !has_address_length(self.mint.as_str()) {
            Err(Field::Mint)
        } else if !has_address_length(self.owner.as_str()) {
            Err(Field::Owner)
        } else if self.amount < 1 {
            Err(Field::Amount)
        } else {
            Ok(())
        }
    }
}

} // verus!
