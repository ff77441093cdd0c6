//! The capability registry: the static, queried-once description of what
//! the legacy context supports.
//!
//! The embedding program performs the native version / extension /
//! limit queries once at adapter enumeration and hands the answers in as
//! the plain values below; nothing in this crate mutates them afterwards.

use vstd::prelude::*;

verus! {

/// Legacy-feature bit: the context can present sRGB framebuffers.
pub const SRGB_COLOR: u32 = 0x1;

/// A parsed native API version.
#[derive(Copy, Clone, Debug, PartialEq, Eq, Structural)]
pub struct Version {
    pub major: u32,
    pub minor: u32,
    /// Whether this is an embedded-profile context.
    pub is_embedded: bool,
}

impl Version {
    /// Build a desktop-profile version.
    pub fn new(major: u32, minor: u32) -> (r: Version)
        ensures
            r == (Version { major, minor, is_embedded: false }),
    {
        Version { major, minor, is_embedded: false }
    }

    /// Build an embedded-profile version.
    pub fn new_embedded(major: u32, minor: u32) -> (r: Version)
        ensures
            r == (Version { major, minor, is_embedded: true }),
    {
        Version { major, minor, is_embedded: true }
    }
}

/// The strings the native platform reports about itself.
#[derive(Clone, Debug)]
pub struct PlatformName {
    pub vendor: String,
    pub renderer: String,
}

/// Capabilities that are internal to the backend: which native concepts
/// exist on this context.
#[derive(Copy, Clone, Debug, PartialEq, Eq, Structural)]
pub struct PrivateCaps {
    /// The vertex-array-object concept exists.
    pub vertex_array: bool,
    /// Buffer memory can be mapped into host-visible memory.
    pub map: bool,
}

/// Numeric limits the adapter reports.
#[derive(Copy, Clone, Debug, PartialEq, Eq, Structural)]
pub struct Limits {
    pub max_texture_size: u32,
    pub max_viewports: u32,
    pub max_compute_group_count: u32,
}

/// The whole registry: version, platform strings, shading-language
/// version and extension names.
#[derive(Clone, Debug)]
pub struct Info {
    pub platform_name: PlatformName,
    pub version: Version,
    pub shading_language: Version,
    pub extensions: Vec<String>,
}

/// Bit-set containment: every bit of `requested` is also set in
/// `supported`.
pub open spec fn spec_contains_bits(supported: u64, requested: u64) -> bool {
    requested & supported == requested
}

/// Decide bit-set containment of a requested feature set in a supported
/// one.
pub fn contains_bits(supported: u64, requested: u64) -> (r: bool)
    ensures
        r == spec_contains_bits(supported, requested),
{
    requested & supported == requested
}

} // verus!
