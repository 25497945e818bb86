//! Packing and unpacking of the graphics API's version words: a variant,
//! a major, a minor and a patch number packed into one 32-bit value.

use vstd::prelude::*;

verus! {

/// The packed version word for revision 1.0 of the API.
pub const API_VERSION_1_0: u32 = 0x40_0000;

/// How a version word is packed: the variant in the top three bits, then
/// seven bits of major, ten of minor, and twelve of patch.
pub open spec fn spec_make_api_version(variant: u32, major: u32, minor: u32, patch: u32) -> u32 {
    ((variant << 29) | (major << 22) | (minor << 12)) | patch
}

/// Packs a variant, major, minor and patch number into one version word.
pub fn make_api_version(variant: u32, major: u32, minor: u32, patch: u32) -> (r: u32)
    ensures
        r == spec_make_api_version(variant, major, minor, patch),
{
    ((variant << 29u32) | (major << 22u32) | (minor << 12u32)) | patch
}

/// The variant field of a packed version word.
pub open spec fn spec_api_version_variant(version: u32) -> u32 {
    version >> 29
}

/// Reads the variant field of a packed version word.
pub fn api_version_variant(version: u32) -> (r: u32)
    ensures
        r == spec_api_version_variant(version),
{
    version >> 29u32
}

/// The major field of a packed version word.
pub open spec fn spec_api_version_major(version: u32) -> u32 {
    (version >> 22) & 0x7f
}

/// Reads the major field of a packed version word.
pub fn api_version_major(version: u32) -> (r: u32)
    ensures
        r == spec_api_version_major(version),
{
    (version >> 22u32) & 0x7fu32
}

/// The minor field of a packed version word.
pub open spec fn spec_api_version_minor(version: u32) -> u32 {
    (version >> 12) & 0x3ff
}

/// Reads the minor field of a packed version word.
pub fn api_version_minor(version: u32) -> (r: u32)
    ensures
        r == spec_api_version_minor(version),
{
    (version >> 12u32) & 0x3ffu32
}

/// The patch field of a packed version word.
pub open spec fn spec_api_version_patch(version: u32) -> u32 {
    version & 0xfff
}

/// Reads the patch field of a packed version word.
pub fn api_version_patch(version: u32) -> (r: u32)
    ensures
        r == spec_api_version_patch(version),
{
    version & 0xfffu32
}

/// Packing a version from in-range fields and unpacking it gives the
/// fields back: the four fields never bleed into one another.
pub proof fn lemma_api_version_round_trip(variant: u32, major: u32, minor: u32, patch: u32)
    requires
        variant < 8,
        major < 128,
        minor < 1024,
        patch < 4096,
    ensures
        spec_api_version_variant(spec_make_api_version(variant, major, minor, patch)) == variant,
        spec_api_version_major(spec_make_api_version(variant, major, minor, patch)) == major,
        spec_api_version_minor(spec_make_api_version(variant, major, minor, patch)) == minor,
        spec_api_version_patch(spec_make_api_version(variant, major, minor, patch)) == patch,
{
    assert(variant < 8 && major < 128 && minor < 1024 && patch < 4096 ==> {
        let v = ((variant << 29) | (major << 22) | (minor << 12)) | patch;
        &&& v >> 29 == variant
        &&& (v >> 22) & 0x7f == major
        &&& (v >> 12) & 0x3ff == minor
        &&& v & 0xfff == patch
    }) by (bit_vector);
}

/// The constant for revision 1.0 is the word packed from variant 0,
/// major 1, minor 0 and patch 0.
pub proof fn lemma_api_version_1_0()
    ensures
        API_VERSION_1_0 == spec_make_api_version(0, 1, 0, 0),
{
    assert(0x40_0000u32 == ((0u32 << 29) | (1u32 << 22) | (0u32 << 12)) | 0u32) by (bit_vector);
}

} // verus!
