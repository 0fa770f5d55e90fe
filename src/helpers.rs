//! Status checking and the marshalling of raw native results into values.
use vstd::prelude::*;
use vstd::utf8::{decode_utf8, valid_utf8};
use crate::consts::{cl_bool, cl_int, CL_FALSE, CL_SUCCESS, CL_TRUE};
use crate::errors::{OpenCLAPIError, RuntimeError, ToLibraryError, ValidationError};
use crate::status::{status_of, Status};

verus! {

pub type APIResult<T> = Result<T, OpenCLAPIError>;

pub type HelperResult<T> = Result<T, OpenCLAPIError>;

pub type StatusCodeResult = Result<cl_int, ValidationError>;

pub type BitfieldResult<T> = Result<T, ValidationError>;

pub type PropertyResult<T> = Result<T, ValidationError>;

/// The error that a failing status code at call site `func` becomes.
pub open spec fn status_error(code: cl_int, func: &'static str) -> OpenCLAPIError {
    OpenCLAPIError::StatusCodeError {
        code: status_of(code, func),
        int_code: code,
        func,
        reason: status_of(code, func).reason_spec(),
    }
}

/// `result` when `code` is success, the status error of `code` otherwise.
pub open spec fn status_result<T>(code: cl_int, func: &'static str, result: T) -> Result<
    T,
    OpenCLAPIError,
> {
    if code == CL_SUCCESS {
        Ok(result)
    } else {
        Err(status_error(code, func))
    }
}

/// Gates `result` on the native status code: success passes it through, any
/// other code becomes a status error naming the call site.
pub fn status_update<T>(status_code: cl_int, function_name: &'static str, result: T) -> (r:
    APIResult<T>)
    ensures
        r == status_result(status_code, function_name, result),
{
    if status_code != CL_SUCCESS {
        let code = Status::from(status_code, function_name);
        let reason = code.reason();
        Err(OpenCLAPIError::StatusCodeError {
            code,
            int_code: status_code,
            func: function_name,
            reason,
        })
    } else {
        Ok(result)
    }
}

/// Whether `c` has the Unicode property White_Space.
pub open spec fn is_white_space(c: char) -> bool {
    let u = c as u32;
    (0x9 <= u && u <= 0xD) || u == 0x20 || u == 0x85 || u == 0xA0 || u == 0x1680 || (0x2000 <= u
        && u <= 0x200A) || u == 0x2028 || u == 0x2029 || u == 0x202F || u == 0x205F || u == 0x3000
}

/// `r` is `s` without its leading and trailing white space.
pub open spec fn is_trim_of(s: Seq<char>, r: Seq<char>) -> bool {
    exists|i: int, j: int|
        0 <= i <= j <= s.len() && r == s.subrange(i, j) && (forall|k: int|
            0 <= k < i ==> is_white_space(#[trigger] s[k])) && (forall|k: int|
            j <= k < s.len() ==> is_white_space(#[trigger] s[k])) && (r.len() > 0 ==> (
        !is_white_space(r[0]) && !is_white_space(r.last())))
}

/// The bytes without one trailing NUL, if they end in one.
pub open spec fn strip_nul(b: Seq<u8>) -> Seq<u8> {
    if b.len() > 0 && b.last() == 0 {
        b.drop_last()
    } else {
        b
    }
}

/// Relies on String::from_utf8: it succeeds exactly on valid UTF-8, and the
/// string then holds the characters that the bytes encode.
#[verifier::external_body]
fn utf8_string(bytes: Vec<u8>) -> (r: Option<String>)
    ensures
        r is Some <==> valid_utf8(bytes@),
        r matches Some(s) ==> s@ == decode_utf8(bytes@),
{
    String::from_utf8(bytes).ok()
}

/// Relies on str::trim: it removes the leading and trailing characters that
/// have the Unicode property White_Space.
#[verifier::external_body]
fn trimmed_string(s: &String) -> (r: String)
    ensures
        is_trim_of(s@, r@),
{
    String::from(s.trim())
}

/// Decodes a byte string returned by a native query: one trailing NUL is
/// dropped, the rest must be UTF-8, and the text is trimmed of white space.
pub fn bytes_into_string(bytes: Vec<u8>) -> (r: HelperResult<String>)
    ensures
        valid_utf8(strip_nul(bytes@)) ==> (r matches Ok(s) && is_trim_of(
            decode_utf8(strip_nul(bytes@)),
            s@,
        )),
        !valid_utf8(strip_nul(bytes@)) ==> r == Err::<String, OpenCLAPIError>(
            OpenCLAPIError::RuntimeError(RuntimeError::CorruptedByteArray),
        ),
{
    let ghost given = bytes@;
    let mut bytes = bytes;
    let n = bytes.len();
    if n > 0 && bytes[n - 1] == 0u8 {
        bytes.pop();
    }
    assert(bytes@ =~= strip_nul(given));
    match utf8_string(bytes) {
        Some(text) => Ok(trimmed_string(&text)),
        None => Err(RuntimeError::CorruptedByteArray.to_error()),
    }
}

/// The native boolean for `val`.
pub fn bool_to_clbool(val: bool) -> (r: cl_bool)
    ensures
        r == (if val {
            CL_TRUE
        } else {
            CL_FALSE
        }),
{
    if val {
        CL_TRUE
    } else {
        CL_FALSE
    }
}

} // verus!
