use vulkan_base::error::Error;
use vulkan_base::seconds;
use vulkan_base::version::{
    check_instance_version, requested_api_version, unpack, version_supported, ApiVersion,
};

fn pack(major: u32, minor: u32, patch: u32) -> u32 {
    ash::vk::make_api_version(0, major, minor, patch)
}

#[test]
fn seconds_are_nanoseconds() {
    assert_eq!(seconds(0), 0);
    assert_eq!(seconds(1), 1_000_000_000);
    assert_eq!(seconds(7), 7_000_000_000);
    assert_eq!(seconds(18_446_744_073), 18_446_744_073_000_000_000);
}

#[test]
fn seconds_wrap_past_64_bits() {
    assert_eq!(seconds(18_446_744_074), 290_448_384);
    assert_eq!(seconds(u64::MAX), u64::MAX.wrapping_mul(1_000_000_000));
}

#[test]
fn unpack_splits_the_packed_version() {
    assert_eq!(
        unpack(pack(1, 3, 251)),
        ApiVersion {
            major: 1,
            minor: 3,
            patch: 251
        }
    );
    assert_eq!(
        unpack(0),
        ApiVersion {
            major: 0,
            minor: 0,
            patch: 0
        }
    );
    assert_eq!(
        unpack(u32::MAX),
        ApiVersion {
            major: 127,
            minor: 1023,
            patch: 4095
        }
    );
}

#[test]
fn requested_version_is_1_2_0() {
    assert_eq!(requested_api_version(), 0x0040_2000);
    assert_eq!(requested_api_version(), ash::vk::API_VERSION_1_2);
}

#[test]
fn minimum_version_is_1_2() {
    assert!(!version_supported(pack(1, 0, 0)));
    assert!(!version_supported(pack(1, 1, 999)));
    assert!(version_supported(pack(1, 2, 0)));
    assert!(version_supported(pack(1, 3, 0)));
    assert!(version_supported(pack(2, 0, 0)));
}

#[test]
fn lower_major_is_not_rescued_by_minor() {
    assert!(!version_supported(pack(0, 9, 0)));
    assert!(!version_supported(pack(0, 1023, 4095)));
    assert!(version_supported(pack(2, 1, 0)));
}

#[test]
fn variant_bits_do_not_count() {
    assert!(version_supported(ash::vk::make_api_version(5, 1, 2, 0)));
    assert!(!version_supported(ash::vk::make_api_version(5, 1, 1, 0)));
}

#[test]
fn instance_version_query_failed() {
    assert_eq!(
        check_instance_version(&Err(-3)),
        Err(Error::EnumerateInstanceVersion)
    );
}

#[test]
fn instance_without_version_query_is_1_0() {
    assert_eq!(
        check_instance_version(&Ok(None)),
        Err(Error::InstanceVersionTooLow)
    );
}

#[test]
fn instance_version_checked() {
    assert_eq!(check_instance_version(&Ok(Some(pack(1, 2, 0)))), Ok(()));
    assert_eq!(check_instance_version(&Ok(Some(pack(1, 3, 280)))), Ok(()));
    assert_eq!(
        check_instance_version(&Ok(Some(pack(1, 1, 0)))),
        Err(Error::InstanceVersionTooLow)
    );
}
