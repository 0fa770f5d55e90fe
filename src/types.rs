//! Plain records that native queries fill.
#![allow(non_camel_case_types)]
use vstd::prelude::*;
use crate::consts::{cl_channel_order, cl_channel_type, cl_version};

verus! {

/// The longest name, NUL included, that a `cl_name_version` holds.
pub const CL_NAME_VERSION_MAX_NAME_SIZE: usize = 64;

/// An image format: channel order and channel data type.
#[derive(Debug, Clone, Copy, PartialEq, Eq, Default)]
pub struct cl_image_format {
    pub image_channel_order: cl_channel_order,
    pub image_channel_data_type: cl_channel_type,
}

/// A region of a buffer: byte offset and byte size.
#[derive(Debug, Clone, Copy, PartialEq, Eq, Default)]
pub struct cl_buffer_region {
    pub origin: usize,
    pub size: usize,
}

/// A named, versioned capability (an extension, an IL, a built-in kernel).
#[derive(Debug, Clone, Copy, PartialEq, Eq)]
pub struct cl_name_version {
    pub version: cl_version,
    pub name: [libc::c_char; 64],
}

} // verus!
