//! Lossless (JPEGL) entry point. The native routine for this path needs an
//! auxiliary image-descriptor structure that is not modelled yet, so the
//! operation is deliberately unimplemented: it reports that fact and makes
//! no foreign call.

use vstd::prelude::*;

verus! {

/// Errors of the lossless path.
#[derive(Clone, Copy, Debug, PartialEq, Eq, Structural)]
pub enum JpegError {
    /// A native lossless operation returned the carried nonzero status code.
    OperationFailed(i32),
    /// The lossless path is intentionally not implemented.
    NotImplemented,
}

/// Lossless encoding of raw grayscale pixels.
///
/// Deliberately unimplemented: every call returns `NotImplemented` without
/// touching the input or attempting a foreign call.
pub fn jpegl_encode(_raw_data: &[u8], _width: i32, _height: i32) -> (r: Result<
    Vec<u8>,
    JpegError,
>)
    ensures
        r == Err::<Vec<u8>, JpegError>(JpegError::NotImplemented),
{
    Err(JpegError::NotImplemented)
}

} // verus!
