//! Validators for interactively entered values: small unsigned integers
//! and email addresses.

use vstd::prelude::*;

use crate::digits::{all_digits, parse_usize, seq_val};

verus! {

/// The outcome of validating one input string.
#[derive(Clone, Copy, Debug, PartialEq, Eq, Structural)]
pub enum Validation {
    Valid,
    Invalid,
}

/// `s` is the decimal rendering of a number no larger than `max`.
pub open spec fn spec_decimal_at_most(s: Seq<char>, max: nat) -> bool {
    s.len() > 0 && all_digits(s) && seq_val(s) <= max
}

/// Accepts exactly the decimal strings whose value fits in a `u16`.
#[derive(Clone, Copy, Debug, Default)]
pub struct U16Validator;

impl U16Validator {
    pub fn validate(&self, input: &str) -> (r: Validation)
        ensures
            r is Valid <==> spec_decimal_at_most(input@, u16::MAX as nat),
    {
        match parse_usize(input) {
            Some(v) => {
                if v <= 65535 {
                    Validation::Valid
                } else {
                    Validation::Invalid
                }
            },
            None => Validation::Invalid,
        }
    }
}

/// Accepts exactly the decimal strings whose value fits in a `usize`.
#[derive(Clone, Copy, Debug, Default)]
pub struct UsizeValidator;

impl UsizeValidator {
    pub fn validate(&self, input: &str) -> (r: Validation)
        ensures
            r is Valid <==> spec_decimal_at_most(input@, usize::MAX as nat),
    {
        match parse_usize(input) {
            Some(_) => Validation::Valid,
            None => Validation::Invalid,
        }
    }
}

/// Whether a string is a well-formed email address; the exact grammar is
/// the outside parser's.
pub uninterp spec fn email_valid(s: Seq<char>) -> bool;

/// Relies on email_address's EmailAddress::is_valid: whether an address
/// parses depends on its characters alone.
#[verifier::external_body]
fn check_email(s: &str) -> (r: bool)
    ensures
        r == email_valid(s@),
{
    email_address::EmailAddress::is_valid(s)
}

/// Accepts exactly the well-formed email addresses.
#[derive(Clone, Copy, Debug, Default)]
pub struct EmailValidator;

impl EmailValidator {
    pub fn validate(&self, input: &str) -> (r: Validation)
        ensures
            r is Valid <==> email_valid(input@),
    {
        if check_email(input) {
            Validation::Valid
        } else {
            Validation::Invalid
        }
    }
}

} // verus!
