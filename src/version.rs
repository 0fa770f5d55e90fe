//! Packed `cl_version` values: major, minor and patch in one integer.
use vstd::prelude::*;
use crate::consts::{cl_bitfield, cl_ulong};

verus! {

/// The major part of a packed version.
pub open spec fn major_of(version: cl_ulong) -> cl_bitfield {
    version >> 22u64
}

/// The minor part of a packed version.
pub open spec fn minor_of(version: cl_ulong) -> cl_bitfield {
    (version >> 12u64) & 0x3FFu64
}

/// The patch part of a packed version.
pub open spec fn patch_of(version: cl_ulong) -> cl_bitfield {
    version & 0xFFFu64
}

/// The packed version of the parts, each cut to its field width.
pub open spec fn version_of(major: cl_ulong, minor: cl_ulong, patch: cl_ulong) -> cl_bitfield {
    ((major & 0x3FFu64) << 22u64) | ((minor & 0x3FFu64) << 12u64) | (patch & 0xFFFu64)
}

/// The major part of `version`.
pub fn major(version: cl_ulong) -> (r: cl_bitfield)
    ensures
        r == major_of(version),
{
    version >> 22u64
}

/// The minor part of `version`.
pub fn minor(version: cl_ulong) -> (r: cl_bitfield)
    ensures
        r == minor_of(version),
{
    (version >> 12u64) & 0x3FFu64
}

/// The patch part of `version`.
pub fn patch(version: cl_ulong) -> (r: cl_bitfield)
    ensures
        r == patch_of(version),
{
    version & 0xFFFu64
}

/// Packs a version from its parts.
pub fn make_version(major: cl_ulong, minor: cl_ulong, patch: cl_ulong) -> (r: cl_bitfield)
    ensures
        r == version_of(major, minor, patch),
{
    ((major & 0x3FFu64) << 22u64) | ((minor & 0x3FFu64) << 12u64) | (patch & 0xFFFu64)
}

/// Parts that fit their fields are read back unchanged from the packed version.
pub proof fn lemma_version_round_trip(major: cl_ulong, minor: cl_ulong, patch: cl_ulong)
    requires
        major <= 0x3FF,
        minor <= 0x3FF,
        patch <= 0xFFF,
    ensures
        major_of(version_of(major, minor, patch)) == major,
        minor_of(version_of(major, minor, patch)) == minor,
        patch_of(version_of(major, minor, patch)) == patch,
{
    assert(major <= 0x3FF && minor <= 0x3FF ==> ((((major & 0x3FFu64) << 22u64) | ((minor
        & 0x3FFu64) << 12u64) | (patch & 0xFFFu64)) >> 22u64) == major) by (bit_vector);
    assert(minor <= 0x3FF ==> (((((major & 0x3FFu64) << 22u64) | ((minor & 0x3FFu64) << 12u64)
        | (patch & 0xFFFu64)) >> 12u64) & 0x3FFu64) == minor) by (bit_vector);
    assert(patch <= 0xFFF ==> ((((major & 0x3FFu64) << 22u64) | ((minor & 0x3FFu64) << 12u64)
        | (patch & 0xFFFu64)) & 0xFFFu64) == patch) by (bit_vector);
}

} // verus!
