//! Verified bootstrap and lifecycle logic for a Vulkan rendering context.
//!
//! The library decides and its caller acts. Choices among what a system
//! offers (`version`, `extensions`, `device`, `surface`) are functions from
//! what was read to what is chosen. Work that takes several steps (`base`,
//! `swapchain`, `transaction`, `frame`) is a protocol: the library names the
//! next request, the caller carries it out and reports back, and the
//! library says how things stand. Every protocol ends in all or nothing:
//! what a failed run created is handed out for destruction, the latest
//! first (`scope`). Command buffers that wait for submission queue up in
//! `submit`.
//!
//! Objects of the graphics API appear as raw handles (`resource`). The few
//! functions and values taken from the `ash` bindings are in `bindings`.

use vstd::prelude::*;

pub mod base;
pub mod bindings;
pub mod core_context;
pub mod device;
pub mod error;
pub mod extensions;
pub mod frame;
pub mod pipeline;
pub mod resource;
pub mod scope;
pub mod select;
pub mod submit;
pub mod surface;
pub mod swapchain;
pub mod text;
pub mod transaction;
pub mod version;

verus! {

/// Nanoseconds in one second.
pub const NANOS_PER_SECOND: u64 = 1_000_000_000;

/// The number of nanoseconds in `v` seconds, reduced modulo 2^64.
pub fn seconds(v: u64) -> (nanos: u64)
    ensures
        nanos as int == (v as int * NANOS_PER_SECOND as int) % 0x1_0000_0000_0000_0000,
{
    assert(v * NANOS_PER_SECOND <= 0xffff_ffff_ffff_ffff * 1_000_000_000) by (nonlinear_arith)
        requires
            v <= 0xffff_ffff_ffff_ffff,
            NANOS_PER_SECOND == 1_000_000_000,
    ;
    let wide: u128 = (v as u128) * (NANOS_PER_SECOND as u128);
    let low: u128 = wide % 0x1_0000_0000_0000_0000u128;
    low as u64
}

} // verus!
