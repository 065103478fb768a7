//! API versions and the minimum-version rule.

use crate::error::Error;
use vstd::prelude::*;

verus! {

/// Major part of the lowest API version that is accepted.
pub const MIN_API_MAJOR: u32 = 1;

/// Minor part of the lowest API version that is accepted.
pub const MIN_API_MINOR: u32 = 2;

/// A packed API version: variant, major, minor and patch shifted into place.
pub open spec fn packed(variant: u32, major: u32, minor: u32, patch: u32) -> u32 {
    (variant << 29) | (major << 22) | (minor << 12) | patch
}

/// Major part of a packed API version.
pub open spec fn major_of(version: u32) -> u32 {
    (version >> 22) & 0x7f
}

/// Minor part of a packed API version.
pub open spec fn minor_of(version: u32) -> u32 {
    (version >> 12) & 0x3ff
}

/// Patch part of a packed API version.
pub open spec fn patch_of(version: u32) -> u32 {
    version & 0xfff
}

/// Whether `version` is, by major then minor, at least 1.2.
pub open spec fn meets_minimum(version: u32) -> bool {
    major_of(version) > MIN_API_MAJOR || (major_of(version) == MIN_API_MAJOR && minor_of(version)
        >= MIN_API_MINOR)
}

/// The instance version that a loader's report stands for: a loader that
/// has no way to report one is a 1.0.0 loader.
pub open spec fn reported_version(report: Option<u32>) -> u32 {
    match report {
        Some(version) => version,
        None => packed(0, 1, 0, 0),
    }
}

/// The verdict on the instance version.
pub open spec fn instance_version_verdict(report: Result<Option<u32>, i32>) -> Result<(), Error> {
    match report {
        Err(_) => Err(Error::EnumerateInstanceVersion),
        Ok(found) => if meets_minimum(reported_version(found)) {
            Ok(())
        } else {
            Err(Error::InstanceVersionTooLow)
        },
    }
}

/// An API version, part by part.
#[derive(Clone, Copy, Debug, PartialEq, Eq, Structural)]
pub struct ApiVersion {
    pub major: u32,
    pub minor: u32,
    pub patch: u32,
}

/// Splits a packed API version into its major, minor and patch parts.
pub fn unpack(version: u32) -> (parts: ApiVersion)
    ensures
        parts.major == major_of(version),
        parts.minor == minor_of(version),
        parts.patch == patch_of(version),
{
    ApiVersion {
        major: ash::vk::api_version_major(version),
        minor: ash::vk::api_version_minor(version),
        patch: ash::vk::api_version_patch(version),
    }
}

/// The packed API version 1.2.0 that an instance is created for.
pub fn requested_api_version() -> (version: u32)
    ensures
        version == packed(0, 1, 2, 0),
        version == 0x0040_2000,
{
    let version: u32 = ash::vk::make_api_version(0, 1, 2, 0);
    assert(((0u32 << 29) | (1u32 << 22) | (2u32 << 12) | 0u32) == 0x0040_2000u32) by (bit_vector);
    version
}

/// Decides whether a packed API version is at least 1.2, comparing the major
/// part first and the minor part only between equal majors.
pub fn version_supported(version: u32) -> (ok: bool)
    ensures
        ok == meets_minimum(version),
{
    let major: u32 = ash::vk::api_version_major(version);
    let minor: u32 = ash::vk::api_version_minor(version);
    major > MIN_API_MAJOR || (major == MIN_API_MAJOR && minor >= MIN_API_MINOR)
}

/// Checks the instance API version that the loader reported. `report` is
/// what the query gave: an error code, no version (a 1.0 loader), or the
/// packed version.
pub fn check_instance_version(report: &Result<Option<u32>, i32>) -> (verdict: Result<(), Error>)
    ensures
        verdict == instance_version_verdict(*report),
{
    match report {
        Err(_) => Err(Error::EnumerateInstanceVersion),
        Ok(found) => {
            let version: u32 = match found {
                Some(version) => *version,
                None => ash::vk::make_api_version(0, 1, 0, 0),
            };
            if version_supported(version) {
                Ok(())
            } else {
                Err(Error::InstanceVersionTooLow)
            }
        },
    }
}

/// Packing then unpacking gives back major, minor and patch, as long as each
/// fits its field (7, 10 and 12 bits) and the variant fits 3 bits.
pub proof fn unpack_packed(variant: u32, major: u32, minor: u32, patch: u32)
    requires
        variant < 8,
        major < 128,
        minor < 1024,
        patch < 4096,
    ensures
        major_of(packed(variant, major, minor, patch)) == major,
        minor_of(packed(variant, major, minor, patch)) == minor,
        patch_of(packed(variant, major, minor, patch)) == patch,
{
    assert(((((variant << 29) | (major << 22) | (minor << 12) | patch) >> 22) & 0x7f) == major) by (bit_vector)
        requires
            variant < 8,
            major < 128,
            minor < 1024,
            patch < 4096,
    ;
    assert(((((variant << 29) | (major << 22) | (minor << 12) | patch) >> 12) & 0x3ff) == minor) by (bit_vector)
        requires
            variant < 8,
            major < 128,
            minor < 1024,
            patch < 4096,
    ;
    assert((((variant << 29) | (major << 22) | (minor << 12) | patch) & 0xfff) == patch) by (bit_vector)
        requires
            variant < 8,
            major < 128,
            minor < 1024,
            patch < 4096,
    ;
}

/// The minimum is lexicographic: a version passes exactly when its major
/// part is above 1, or is 1 with a minor part of at least 2. In particular
/// a lower major part is never rescued by a high minor part.
pub proof fn minimum_is_lexicographic(variant: u32, major: u32, minor: u32, patch: u32)
    requires
        variant < 8,
        major < 128,
        minor < 1024,
        patch < 4096,
    ensures
        meets_minimum(packed(variant, major, minor, patch)) <==> (major > 1 || (major == 1 && minor
            >= 2)),
        major == 0 ==> !meets_minimum(packed(variant, major, minor, patch)),
{
    unpack_packed(variant, major, minor, patch);
}

} // verus!
