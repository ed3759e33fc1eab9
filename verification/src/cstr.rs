//! Conversion of Rust text into C strings.
//!
//! SPDK takes names, paths and addresses as NUL-terminated C strings. A text
//! can be handed over only when it holds no NUL byte of its own; otherwise the
//! conversion fails and reports where the first NUL byte stands.

use crate::error::{Error, NulError};
use vstd::prelude::*;
use vstd::string::StringSliceAdditionalSpecFns;

verus! {

/// `bytes` holds no NUL byte.
pub open spec fn no_nul(bytes: Seq<u8>) -> bool {
    forall|i: int| 0 <= i < bytes.len() ==> bytes[i] != 0u8
}

/// `pos` is the index of the first NUL byte of `bytes`.
pub open spec fn first_nul_at(bytes: Seq<u8>, pos: int) -> bool {
    &&& 0 <= pos < bytes.len()
    &&& bytes[pos] == 0u8
    &&& forall|i: int| 0 <= i < pos ==> bytes[i] != 0u8
}

/// What converting `text` into a C string gives: its bytes when they hold no
/// NUL, else the position of the first NUL together with the bytes.
pub open spec fn c_string_spec(text: Seq<u8>, r: Result<Vec<u8>, NulError>) -> bool {
    match r {
        Ok(v) => no_nul(text) && v@ == text,
        Err(e) => first_nul_at(text, e.nul_position as int) && e.bytes@ == text,
    }
}

/// Converts `s` into the bytes of a C string (without the terminating NUL).
///
/// Fails exactly when `s` holds a NUL byte.
pub fn to_c_string(s: &str) -> (r: Result<Vec<u8>, NulError>)
    ensures
        c_string_spec(s.spec_bytes(), r),
{
    let bytes = s.as_bytes();
    let n: usize = bytes.len();
    let mut i: usize = 0;
    while i < n
        invariant
            n == bytes@.len(),
            bytes@ == s.spec_bytes(),
            0 <= i <= n,
            forall|j: int| 0 <= j < i ==> bytes@[j] != 0u8,
        decreases n - i,
    {
        if bytes[i] == 0 {
            return Err(NulError { nul_position: i, bytes: s.as_bytes_vec() });
        }
        i = i + 1;
    }
    Ok(s.as_bytes_vec())
}

/// Converts `s` into the bytes of a C string, reporting a NUL byte as the
/// library's error.
pub fn c_string(s: &str) -> (r: Result<Vec<u8>, Error>)
    ensures
        match r {
            Ok(v) => no_nul(s.spec_bytes()) && v@ == s.spec_bytes(),
            Err(e) => e matches Error::NulError(ne) && first_nul_at(
                s.spec_bytes(),
                ne.nul_position as int,
            ) && ne.bytes@ == s.spec_bytes(),
        },
{
    match to_c_string(s) {
        Ok(v) => Ok(v),
        Err(e) => Err(Error::NulError(e)),
    }
}

/// Converts an optional text into an optional C string.
pub fn c_string_opt(s: Option<&str>) -> (r: Result<Option<Vec<u8>>, Error>)
    ensures
        match s {
            None => r == Ok::<Option<Vec<u8>>, Error>(None),
            Some(t) => match r {
                Ok(v) => no_nul(t.spec_bytes()) && v is Some && v->0@ == t.spec_bytes(),
                Err(e) => e matches Error::NulError(ne) && first_nul_at(
                    t.spec_bytes(),
                    ne.nul_position as int,
                ) && ne.bytes@ == t.spec_bytes(),
            },
        },
{
    match s {
        None => Ok(None),
        Some(t) => match c_string(t) {
            Ok(v) => Ok(Some(v)),
            Err(e) => Err(e),
        },
    }
}

} // verus!
