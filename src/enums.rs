//! Element sizes of native values and the shapes a query result can take.
#![allow(non_camel_case_types)]
use vstd::prelude::*;
use crate::consts::{cl_uint, cl_ulong};
use crate::types::{cl_image_format, cl_name_version};
use crate::wrappers::{WrappedMutablePointer, WrappedPointer};

verus! {

/// The native element types that queries read, by their byte size.
#[derive(Debug, Clone, Copy, PartialEq, Eq)]
pub enum Size {
    i8,
    u8,
    i16,
    u16,
    i32,
    u32,
    i64,
    u64,
    usize,
    isize,
    cl_image_desc,
    cl_image_format,
    cl_buffer_region,
    cl_name_version,
}

impl Size {
    /// The byte size of one element.
    pub open spec fn bytes(self) -> usize {
        match self {
            Size::i8 | Size::u8 => 1,
            Size::i16 | Size::u16 => 2,
            Size::i32 | Size::u32 => 4,
            Size::i64 | Size::u64 | Size::usize | Size::isize | Size::cl_image_format => 8,
            Size::cl_buffer_region => 16,
            Size::cl_name_version => 68,
            Size::cl_image_desc => 80,
        }
    }

    /// The byte size of one element.
    pub fn get(&self) -> (r: usize)
        ensures
            r == self.bytes(),
    {
        match self {
            Size::i8 | Size::u8 => 1,
            Size::i16 | Size::u16 => 2,
            Size::i32 | Size::u32 => 4,
            Size::i64 | Size::u64 | Size::usize | Size::isize | Size::cl_image_format => 8,
            Size::cl_buffer_region => 16,
            Size::cl_name_version => 68,
            Size::cl_image_desc => 80,
        }
    }
}

/// A value returned by a native "get info" query, in the shape the queried
/// parameter has.
#[derive(Debug, PartialEq)]
pub enum ParamValue {
    String(String),
    UInt(cl_uint),
    ULong(cl_ulong),
    CSize(usize),
    CPtr(isize),
    ArrCSize(Vec<usize>),
    ArrCPtr(Vec<isize>),
    ArrULong(Vec<cl_ulong>),
    NameVersion(Vec<cl_name_version>),
    ImageFormat(Vec<cl_image_format>),
}

impl ParamValue {
    /// The text, if the value is one.
    pub fn unwrap_string(self) -> (r: Option<String>)
        ensures
            self matches ParamValue::String(d) ==> r == Some(d),
            !(self is String) ==> r is None,
    {
        match self {
            ParamValue::String(dat) => Some(dat),
            _ => None,
        }
    }

    /// The unsigned int, if the value is one.
    pub fn unwrap_uint(self) -> (r: Option<cl_uint>)
        ensures
            self matches ParamValue::UInt(d) ==> r == Some(d),
            !(self is UInt) ==> r is None,
    {
        match self {
            ParamValue::UInt(dat) => Some(dat),
            _ => None,
        }
    }

    /// The unsigned long, if the value is one.
    pub fn unwrap_ulong(self) -> (r: Option<cl_ulong>)
        ensures
            self matches ParamValue::ULong(d) ==> r == Some(d),
            !(self is ULong) ==> r is None,
    {
        match self {
            ParamValue::ULong(dat) => Some(dat),
            _ => None,
        }
    }

    /// The size, if the value is one.
    pub fn unwrap_csize(self) -> (r: Option<usize>)
        ensures
            self matches ParamValue::CSize(d) ==> r == Some(d),
            !(self is CSize) ==> r is None,
    {
        match self {
            ParamValue::CSize(dat) => Some(dat),
            _ => None,
        }
    }

    /// The address, as a read-only handle, if the value is one.
    pub fn unwrap_cptr<T>(self) -> (r: Option<WrappedPointer<T>>)
        ensures
            self matches ParamValue::CPtr(d) ==> (r matches Some(h) && h@ == d as usize),
            !(self is CPtr) ==> r is None,
    {
        match self {
            ParamValue::CPtr(dat) => Some(WrappedPointer::from_raw(dat)),
            _ => None,
        }
    }

    /// The address, as a mutable handle, if the value is one.
    pub fn unwrap_mut_cptr<T>(self) -> (r: Option<WrappedMutablePointer<T>>)
        ensures
            self matches ParamValue::CPtr(d) ==> (r matches Some(h) && h@ == d as usize),
            !(self is CPtr) ==> r is None,
    {
        match self {
            ParamValue::CPtr(dat) => Some(WrappedMutablePointer::from_raw(dat)),
            _ => None,
        }
    }

    /// The list of unsigned longs, if the value is one.
    pub fn unwrap_arr_ulong(self) -> (r: Option<Vec<cl_ulong>>)
        ensures
            self matches ParamValue::ArrULong(d) ==> r == Some(d),
            !(self is ArrULong) ==> r is None,
    {
        match self {
            ParamValue::ArrULong(dat) => Some(dat),
            _ => None,
        }
    }

    /// The list of sizes, if the value is one.
    pub fn unwrap_arr_csize(self) -> (r: Option<Vec<usize>>)
        ensures
            self matches ParamValue::ArrCSize(d) ==> r == Some(d),
            !(self is ArrCSize) ==> r is None,
    {
        match self {
            ParamValue::ArrCSize(dat) => Some(dat),
            _ => None,
        }
    }

    /// The list of addresses, if the value is one.
    pub fn unwrap_arr_cptr(self) -> (r: Option<Vec<isize>>)
        ensures
            self matches ParamValue::ArrCPtr(d) ==> r == Some(d),
            !(self is ArrCPtr) ==> r is None,
    {
        match self {
            ParamValue::ArrCPtr(dat) => Some(dat),
            _ => None,
        }
    }

    /// The list of named versions, if the value is one.
    pub fn unwrap_name_version(self) -> (r: Option<Vec<cl_name_version>>)
        ensures
            self matches ParamValue::NameVersion(d) ==> r == Some(d),
            !(self is NameVersion) ==> r is None,
    {
        match self {
            ParamValue::NameVersion(dat) => Some(dat),
            _ => None,
        }
    }

    /// The list of image formats, if the value is one.
    pub fn unwrap_image_format(self) -> (r: Option<Vec<cl_image_format>>)
        ensures
            self matches ParamValue::ImageFormat(d) ==> r == Some(d),
            !(self is ImageFormat) ==> r is None,
    {
        match self {
            ParamValue::ImageFormat(dat) => Some(dat),
            _ => None,
        }
    }
}

impl Default for ParamValue {
    fn default() -> (r: Self)
        ensures
            r == ParamValue::UInt(0),
    {
        ParamValue::UInt(0)
    }
}

} // verus!
