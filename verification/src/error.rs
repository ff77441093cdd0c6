//! The diagnostics error taxonomy: classification of the native error
//! flag into a small closed enumeration.

use vstd::prelude::*;

verus! {

/// Native error-flag value meaning that no error is pending.
pub const GL_NO_ERROR: u32 = 0;
/// Native error-flag value for an unacceptable enumerant argument.
pub const GL_INVALID_ENUM: u32 = 0x0500;
/// Native error-flag value for a numeric argument out of range.
pub const GL_INVALID_VALUE: u32 = 0x0501;
/// Native error-flag value for an operation illegal in the current state.
pub const GL_INVALID_OPERATION: u32 = 0x0502;
/// Native error-flag value for an operation on an incomplete framebuffer.
pub const GL_INVALID_FRAMEBUFFER_OPERATION: u32 = 0x0506;
/// Native error-flag value for memory exhaustion.
pub const GL_OUT_OF_MEMORY: u32 = 0x0505;

/// Typed form of the native context's error flag.
#[derive(Copy, Clone, Debug, PartialEq, Eq, Structural)]
pub enum Error {
    NoError,
    InvalidEnum,
    InvalidValue,
    InvalidOperation,
    InvalidFramebufferOperation,
    OutOfMemory,
    UnknownError,
}

/// What `Error::from_error_code` returns for each native code.
pub open spec fn spec_from_error_code(error_code: u32) -> Error {
    if error_code == GL_NO_ERROR {
        Error::NoError
    } else if error_code == GL_INVALID_ENUM {
        Error::InvalidEnum
    } else if error_code == GL_INVALID_VALUE {
        Error::InvalidValue
    } else if error_code == GL_INVALID_OPERATION {
        Error::InvalidOperation
    } else if error_code == GL_INVALID_FRAMEBUFFER_OPERATION {
        Error::InvalidFramebufferOperation
    } else if error_code == GL_OUT_OF_MEMORY {
        Error::OutOfMemory
    } else {
        Error::UnknownError
    }
}

impl Error {
    /// Classify a raw native error code.  Codes outside the closed set of
    /// documented error values map to `UnknownError`.
    pub fn from_error_code(error_code: u32) -> (r: Error)
        ensures
            r == spec_from_error_code(error_code),
    {
        if error_code == GL_NO_ERROR {
            Error::NoError
        } else if error_code == GL_INVALID_ENUM {
            Error::InvalidEnum
        } else if error_code == GL_INVALID_VALUE {
            Error::InvalidValue
        } else if error_code == GL_INVALID_OPERATION {
            Error::InvalidOperation
        } else if error_code == GL_INVALID_FRAMEBUFFER_OPERATION {
            Error::InvalidFramebufferOperation
        } else if error_code == GL_OUT_OF_MEMORY {
            Error::OutOfMemory
        } else {
            Error::UnknownError
        }
    }
}

} // verus!
