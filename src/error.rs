//! The errors a decode can end with.
use vstd::prelude::*;

verus! {

/// Why a decode stopped, with the buffer offset at which it did.
#[derive(Clone, Copy, Debug, PartialEq, Eq, Structural)]
pub enum DecodeError {
    /// The buffer ended inside a field that needed `needed` bytes.
    UnexpectedEof { offset: usize, needed: u64 },
    /// A fixed ASCII tag of `len` bytes did not match.
    TagMismatch { offset: usize, len: usize },
    /// A constant-valued field held `actual` where `expected` is required.
    ConstraintViolation { offset: usize, expected: u64, actual: u64 },
    /// No candidate decoder accepted the bytes; `discriminant` is the value
    /// that selected among them (a little-endian tag or item kind).
    UnknownVariant { offset: usize, discriminant: u64 },
    /// A list of fixed length ended after `actual_count` entries.
    LengthMismatch { offset: usize, expected_count: usize, actual_count: usize },
    /// The chunk is recognised but its layout is not known well enough to decode.
    Unsupported { offset: usize },
}

/// A decode result with the decoded value replaced by its view.
pub open spec fn view_res<T: View>(r: Result<(T, usize), DecodeError>) -> Result<(T::V, usize), DecodeError> {
    match r {
        Ok((v, e)) => Ok((v@, e)),
        Err(x) => Err(x),
    }
}

} // verus!
