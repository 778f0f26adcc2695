//! Typed handles for the two host objects that finalization deals with, and
//! the decoding of the machine words in which the host hands them out.
//!
//! The host reports a failed image creation inside the returned word itself:
//! the last `MAX_ERRNO` values of the address space are never valid handles and
//! stand for the negative error codes `-MAX_ERRNO ..= -1`. A failed launch
//! preparation is reported as the null word.

use vstd::prelude::*;

verus! {

/// The largest error number that the host encodes in a handle word.
pub const MAX_ERRNO: usize = 4095;

/// Whether `raw` is one of the words that encode an error instead of a handle.
pub open spec fn is_error_word(raw: usize) -> bool {
    raw > usize::MAX - MAX_ERRNO
}

/// The (negative) error code that an error word encodes: the word read as a
/// signed number.
pub open spec fn error_code(raw: usize) -> int {
    raw - usize::MAX - 1
}

/// An anonymous, memory-backed file object of the host.
#[derive(Clone, Copy, Debug, PartialEq, Eq, Structural)]
pub struct ImageHandle {
    pub raw: usize,
}

/// A prepared, not yet executed, subprocess launch of the host.
#[derive(Clone, Copy, Debug, PartialEq, Eq, Structural)]
pub struct RequestHandle {
    pub raw: usize,
}

/// Decodes the word that image creation returned: a handle, or the error code
/// that the word encodes.
pub fn decode_image(raw: usize) -> (r: Result<ImageHandle, isize>)
    ensures
        !is_error_word(raw) ==> r == Ok::<ImageHandle, isize>(ImageHandle { raw }),
        is_error_word(raw) ==> r == Err::<ImageHandle, isize>(error_code(raw) as isize),
        is_error_word(raw) ==> -(MAX_ERRNO as int) <= error_code(raw) <= -1,
{
    if raw > usize::MAX - MAX_ERRNO {
        let below: usize = usize::MAX - raw;
        let code: isize = -(below as isize) - 1;
        Err(code)
    } else {
        Ok(ImageHandle { raw })
    }
}

/// Decodes the word that launch preparation returned: a request, or `None`
/// for the null word.
pub fn decode_request(raw: usize) -> (r: Option<RequestHandle>)
    ensures
        raw != 0 ==> r == Some(RequestHandle { raw }),
        raw == 0 ==> r.is_none(),
{
    if raw == 0 {
        None
    } else {
        Some(RequestHandle { raw })
    }
}

} // verus!
