//! The failure kinds of secret sharing, and the text of each.

use vstd::prelude::*;
use vstd::string::StringExecFns;

verus! {

/// A specialised result for secret-sharing operations.
pub type SharingResult<T> = Result<T, SharingError>;

/// Why a secret-sharing operation failed.
#[derive(Copy, Clone, Debug)]
pub enum SharingError {
    /// Fewer than 4 bytes were given for a Shamir share.
    ShareSecretMinSize,
    /// The limit is less than the threshold.
    ShareLimitLessThanThreshold,
    /// The threshold is less than 2.
    ShareMinThreshold,
    /// The value to be split is not within the field.
    ShareInvalidSecret,
    /// The share identifier is zero.
    ShareInvalidIdentifier,
    /// A share identifier occurs more than once when recombining.
    ShareDuplicateIdentifier,
    /// The share value is corrupted or invalid.
    ShareInvalidValue,
    /// Fewer bytes than the minimum for a Pedersen verifier: expected, found.
    PedersenVerifierMinSize(usize, usize),
    /// The blinding-factor share is corrupted or invalid.
    PedersenBlindShareInvalid,
    /// The bytes are not a point of the curve.
    InvalidPoint,
}

/// The character of a decimal digit.
pub open spec fn digit(d: nat) -> char
    recommends
        d < 10,
{
    if d == 0 {
        '0'
    } else if d == 1 {
        '1'
    } else if d == 2 {
        '2'
    } else if d == 3 {
        '3'
    } else if d == 4 {
        '4'
    } else if d == 5 {
        '5'
    } else if d == 6 {
        '6'
    } else if d == 7 {
        '7'
    } else if d == 8 {
        '8'
    } else {
        '9'
    }
}

/// A number in decimal, without leading zeros; zero is "0".
pub open spec fn decimal(n: nat) -> Seq<char>
    decreases n,
{
    if n < 10 {
        seq![digit(n)]
    } else {
        decimal(n / 10).push(digit(n % 10))
    }
}

impl SharingError {
    /// The message of this error.
    pub open spec fn text(self) -> Seq<char> {
        match self {
            SharingError::ShareSecretMinSize => "ShamirShare requires at least 4 bytes"@,
            SharingError::ShareLimitLessThanThreshold => "Limit cannot be less than the threshold"@,
            SharingError::ShareMinThreshold => "Threshold must be at least 2"@,
            SharingError::ShareInvalidSecret => "Can't split secret"@,
            SharingError::ShareInvalidIdentifier => "Share must have a non-zero identifier"@,
            SharingError::ShareDuplicateIdentifier => "Duplicate shares cannot be used to reconstruct the secret"@,
            SharingError::ShareInvalidValue => "Share is not valid"@,
            SharingError::PedersenVerifierMinSize(expected, found) =>
                "Minimum length not satisfied: expected "@ + decimal(expected as nat)
                    + ", found "@ + decimal(found as nat),
            SharingError::PedersenBlindShareInvalid => "Blind share is not valid"@,
            SharingError::InvalidPoint => "Invalid curve point"@,
        }
    }

    /// Renders the message of this error.
    pub fn to_string(&self) -> (s: String)
        ensures
            s@ == self.text(),
    {
        match *self {
            SharingError::ShareSecretMinSize => String::from_str(
                "ShamirShare requires at least 4 bytes",
            ),
            SharingError::ShareLimitLessThanThreshold => String::from_str(
                "Limit cannot be less than the threshold",
            ),
            SharingError::ShareMinThreshold => String::from_str("Threshold must be at least 2"),
            SharingError::ShareInvalidSecret => String::from_str("Can't split secret"),
            SharingError::ShareInvalidIdentifier => String::from_str(
                "Share must have a non-zero identifier",
            ),
            SharingError::ShareDuplicateIdentifier => String::from_str(
                "Duplicate shares cannot be used to reconstruct the secret",
            ),
            SharingError::ShareInvalidValue => String::from_str("Share is not valid"),
            SharingError::PedersenVerifierMinSize(expected, found) => {
                let mut s = String::from_str("Minimum length not satisfied: expected ");
                append_decimal(&mut s, expected);
                s.append(", found ");
                append_decimal(&mut s, found);
                s
            },
            SharingError::PedersenBlindShareInvalid => String::from_str("Blind share is not valid"),
            SharingError::InvalidPoint => String::from_str("Invalid curve point"),
        }
    }
}

/// The one-character string of a decimal digit.
fn digit_str(d: usize) -> (s: &'static str)
    requires
        d < 10,
    ensures
        s@ == seq![digit(d as nat)],
{
    proof {
        reveal_strlit("0");
        reveal_strlit("1");
        reveal_strlit("2");
        reveal_strlit("3");
        reveal_strlit("4");
        reveal_strlit("5");
        reveal_strlit("6");
        reveal_strlit("7");
        reveal_strlit("8");
        reveal_strlit("9");
    }
    let s = if d == 0 {
        "0"
    } else if d == 1 {
        "1"
    } else if d == 2 {
        "2"
    } else if d == 3 {
        "3"
    } else if d == 4 {
        "4"
    } else if d == 5 {
        "5"
    } else if d == 6 {
        "6"
    } else if d == 7 {
        "7"
    } else if d == 8 {
        "8"
    } else {
        "9"
    };
    assert(s@ =~= seq![digit(d as nat)]);
    s
}

/// Appends a number in decimal.
fn append_decimal(s: &mut String, n: usize)
    ensures
        final(s)@ == old(s)@ + decimal(n as nat),
    decreases n,
{
    if n < 10 {
        s.append(digit_str(n));
    } else {
        append_decimal(s, n / 10);
        s.append(digit_str(n % 10));
        assert(final(s)@ =~= old(s)@ + decimal(n as nat));
    }
}

} // verus!
