//! Decoding with validation.

use crate::bytes::bytes_equal;
use crate::curve::{describe, reduce_scalar};
use crate::error::CryptoError;
use crate::group::{has_group_order, recode_point};
use crate::scheme::{decoded_point, decoded_scalar, is_scalar_encoding, rejects};
use vstd::prelude::*;
use vstd::string::StringExecFns;

verus! {

/// Decodes a scalar: any 48 bytes, reduced modulo the group order. Another
/// length is a parse error.
pub fn decode_scalar(bytes: &[u8]) -> (r: Result<Vec<u8>, CryptoError>)
    ensures
        match r {
            Ok(scalar) => decoded_scalar(bytes@) == Some(scalar@) && is_scalar_encoding(scalar@),
            Err(e) => decoded_scalar(bytes@) is None && e is ParseError,
        },
{
    match reduce_scalar(bytes) {
        Ok(scalar) => Ok(scalar),
        Err(e) => Err(CryptoError::ParseError(describe(&e))),
    }
}

/// Decodes an element of the chosen group. The bytes must have the group's
/// length, be what the element they decode to encodes as, and that element
/// must have the group's prime order; anything else is a parse error.
pub fn decode_point(in_g1: bool, bytes: &[u8]) -> (r: Result<Vec<u8>, CryptoError>)
    ensures
        match r {
            Ok(point) => decoded_point(in_g1, bytes@) == Some(point@),
            Err(e) => rejects(in_g1, bytes@, e),
        },
{
    match recode_point(in_g1, bytes) {
        Err(e) => Err(CryptoError::ParseError(describe(&e))),
        Ok(canonical) => {
            if !bytes_equal(canonical.as_slice(), bytes) {
                Err(
                    CryptoError::ParseError(
                        String::from_str("bytes are not the encoding of a group element"),
                    ),
                )
            } else if !has_group_order(in_g1, bytes) {
                Err(
                    CryptoError::ParseError(
                        String::from_str("element is not of the order of the group"),
                    ),
                )
            } else {
                Ok(canonical)
            }
        },
    }
}

} // verus!
