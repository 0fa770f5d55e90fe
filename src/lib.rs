//! Typed, status-checked access to the OpenCL host API.
//!
//! The library holds the parts of the binding that decide something: the
//! translation of native status codes, validated bit-flag types, null-checked
//! handles, the size-then-fetch query protocol and the marshalling of raw
//! results into typed values.
pub mod consts;
pub mod structs;
pub mod errors;
pub mod status;
pub mod helpers;
pub mod bitfields;
pub mod wrappers;
pub mod query;
pub mod types;
pub mod enums;
pub mod property;
pub mod version;
pub mod info;
