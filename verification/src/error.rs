//! The error of the signature scheme.

use vstd::prelude::*;

verus! {

/// Why a value of the scheme could not be made.
#[derive(Debug, PartialEq, Eq, Hash)]
pub enum CryptoError {
    /// Bytes were not the encoding of a value; the text says why.
    ParseError(String),
}

impl Clone for CryptoError {
    fn clone(&self) -> (copy: Self)
        ensures
            copy == *self,
    {
        match self {
            CryptoError::ParseError(text) => CryptoError::ParseError(text.clone()),
        }
    }
}

impl CryptoError {
    /// The diagnostic that the error carries.
    pub fn message(&self) -> (text: &String)
        ensures
            *self == CryptoError::ParseError(*text),
    {
        match self {
            CryptoError::ParseError(text) => text,
        }
    }
}

} // verus!
