//! The error type of the library and its parts.
use vstd::prelude::*;
use crate::consts::cl_int;
use crate::status::Status;

verus! {

/// Every failure that a call of the library can report.
#[derive(Debug, PartialEq, Eq, Clone)]
pub enum OpenCLAPIError {
    /// The native driver answered with a status code other than success.
    StatusCodeError { code: Status, int_code: cl_int, func: &'static str, reason: &'static str },
    /// A value was refused by local validation before any native call.
    ObjectError(ValidationError),
    /// A native call returned something that cannot be turned into a value.
    RuntimeError(RuntimeError),
}

/// Failures of local validation.
#[derive(Debug, PartialEq, Eq, Clone)]
pub enum ValidationError {
    /// A bit-flag value outside the flags of its type; carries the type's name.
    InvalidBitfield(&'static str),
    /// A property value that the property list does not admit; carries the call site.
    InvalidProperty(&'static str),
    /// A status without a native code; carries the call site it came from.
    InvalidStatusCode(&'static str),
    /// A query parameter identifier that the call site does not know.
    UnsupportedParameter(&'static str, u32),
}

/// Failures met while turning native results into values.
#[derive(Debug, PartialEq, Eq, Clone)]
pub enum RuntimeError {
    /// A byte string returned by the driver is not valid UTF-8.
    CorruptedByteArray,
    /// A native call returned a null handle; carries the call site.
    NullPointer(&'static str),
}

/// Lifts a partial error into the library's error type.
pub trait ToLibraryError: Sized {
    spec fn lifted(self) -> OpenCLAPIError;

    fn to_error(self) -> (r: OpenCLAPIError)
        ensures
            r == self.lifted(),
    ;
}

impl ToLibraryError for ValidationError {
    open spec fn lifted(self) -> OpenCLAPIError {
        OpenCLAPIError::ObjectError(self)
    }

    fn to_error(self) -> (r: OpenCLAPIError) {
        OpenCLAPIError::ObjectError(self)
    }
}

impl ToLibraryError for RuntimeError {
    open spec fn lifted(self) -> OpenCLAPIError {
        OpenCLAPIError::RuntimeError(self)
    }

    fn to_error(self) -> (r: OpenCLAPIError) {
        OpenCLAPIError::RuntimeError(self)
    }
}

} // verus!
