//! Choice of the physical device, its queue family and its depth format.
//!
//! Every choice is the first candidate, in the order of enumeration, that
//! passes the checks. Candidates are never ranked against each other.

use crate::bindings;
use crate::error::Error;
use crate::extensions::{check_required_device_extensions, device_extensions_verdict};
use crate::select::{first, first_is, first_is_none, first_sound, is_first, none_pass};
use crate::version::{meets_minimum, version_supported};
use vstd::prelude::*;

verus! {

/// What was read from one physical device.
#[derive(Debug, PartialEq, Eq)]
pub struct PhysicalDeviceInfo {
    /// The raw handle of the device.
    pub handle: u64,
    /// The packed API version from the device's properties.
    pub api_version: u32,
    /// Whether the device has tessellation shader stages.
    pub tessellation_shader: bool,
    /// Whether the device can draw polygons as lines or points.
    pub fill_mode_non_solid: bool,
    /// What listing the device's extensions gave: their names, or the error
    /// code.
    pub extensions: Result<Vec<String>, i32>,
}

/// What was read from one queue family of a device.
#[derive(Clone, Copy, Debug, PartialEq, Eq)]
pub struct QueueFamilyInfo {
    /// How many queues the family has.
    pub queue_count: u32,
    /// The raw capability bits of the family.
    pub queue_flags: u32,
    /// What asking whether the family can present to the surface gave.
    pub present_support: Result<bool, i32>,
}

/// A candidate depth format with the raw feature bits of its optimal tiling.
#[derive(Clone, Copy, Debug, PartialEq, Eq)]
pub struct DepthCandidate {
    pub format: i32,
    pub optimal_tiling_features: u32,
}

/// The verdict on one device: API version, then tessellation, then
/// non-solid fill, then the required extensions; the first failed check is
/// the error.
pub open spec fn device_verdict(device: PhysicalDeviceInfo, required: Seq<String>) -> Result<
    (),
    Error,
> {
    if !meets_minimum(device.api_version) {
        Err(Error::DeviceVersionTooLow)
    } else if !device.tessellation_shader {
        Err(Error::NoTessellationShader)
    } else if !device.fill_mode_non_solid {
        Err(Error::NoFillModeNonSolid)
    } else {
        device_extensions_verdict(device.extensions, required)
    }
}

/// The test "passes every check".
pub open spec fn suitable(required: Seq<String>) -> spec_fn(PhysicalDeviceInfo) -> bool {
    |device: PhysicalDeviceInfo| device_verdict(device, required) is Ok
}

/// The position of the device that is selected: the first suitable one.
pub open spec fn selected_device(devices: Seq<PhysicalDeviceInfo>, required: Seq<String>) -> Option<
    int,
> {
    first(devices, suitable(required))
}

/// The outcome of device selection: the handle of the first suitable device.
pub open spec fn physical_device_choice(
    devices: Result<Vec<PhysicalDeviceInfo>, i32>,
    required: Seq<String>,
) -> Result<u64, Error> {
    match devices {
        Err(_) => Err(Error::EnumeratePhysicalDevices),
        Ok(list) => match selected_device(list@, required) {
            Some(i) => Ok(list@[i].handle),
            None => Err(Error::NoSuitableDevice),
        },
    }
}

/// Whether a queue family has at least one queue and the graphics bit.
pub open spec fn draws(family: QueueFamilyInfo) -> bool {
    family.queue_count > 0 && family.queue_flags & bindings::QUEUE_GRAPHICS
        == bindings::QUEUE_GRAPHICS
}

/// The test that ends the search for a queue family: the family draws, and
/// asking for its presentation support either failed or said yes.
pub open spec fn decides() -> spec_fn(QueueFamilyInfo) -> bool {
    |family: QueueFamilyInfo| draws(family) && family.present_support != Ok::<bool, i32>(false)
}

/// The outcome of queue family selection: the index of the first family
/// that draws and presents. A failed presentation query at a drawing family
/// that comes before any such family is the error. A family whose position
/// does not fit an index of 32 bits cannot be named and is not found.
pub open spec fn queue_family_choice(families: Seq<QueueFamilyInfo>) -> Result<u32, Error> {
    match first(families, decides()) {
        Some(i) => if i > u32::MAX {
            Err(Error::NoGraphicsPresentQueue)
        } else if families[i].present_support is Ok {
            Ok(i as u32)
        } else {
            Err(Error::SurfaceSupport)
        },
        None => Err(Error::NoGraphicsPresentQueue),
    }
}

/// The test "can be a depth-stencil attachment with optimal tiling".
pub open spec fn attachable() -> spec_fn(DepthCandidate) -> bool {
    |candidate: DepthCandidate|
        candidate.optimal_tiling_features & bindings::FEATURE_DEPTH_STENCIL_ATTACHMENT
            == bindings::FEATURE_DEPTH_STENCIL_ATTACHMENT
}

/// The outcome of depth format selection: the format of the first candidate
/// that can be a depth-stencil attachment.
pub open spec fn depth_format_choice(candidates: Seq<DepthCandidate>) -> Result<i32, Error> {
    match first(candidates, attachable()) {
        Some(i) => Ok(candidates[i].format),
        None => Err(Error::NoDepthFormat),
    }
}

/// The depth formats that are tried, in order of preference.
pub open spec fn preferred_depth_formats() -> Seq<i32> {
    seq![bindings::D16_UNORM_S8_UINT, bindings::D24_UNORM_S8_UINT, bindings::D32_SFLOAT_S8_UINT]
}

/// Checks one device: API version, required features, required extensions.
pub fn check_device_suitability(device: &PhysicalDeviceInfo, required: &Vec<String>) -> (verdict:
    Result<(), Error>)
    ensures
        verdict == device_verdict(*device, required@),
{
    if !version_supported(device.api_version) {
        return Err(Error::DeviceVersionTooLow);
    }
    if !device.tessellation_shader {
        return Err(Error::NoTessellationShader);
    }
    if !device.fill_mode_non_solid {
        return Err(Error::NoFillModeNonSolid);
    }
    check_required_device_extensions(&device.extensions, required)
}

/// Finds the position of the first device that passes every check.
pub fn find_suitable_device(devices: &Vec<PhysicalDeviceInfo>, required: &Vec<String>) -> (found:
    Option<usize>)
    ensures
        match found {
            Some(i) => selected_device(devices@, required@) == Some(i as int),
            None => selected_device(devices@, required@) is None,
        },
{
    let mut i: usize = 0;
    while i < devices.len()
        invariant
            i <= devices.len(),
            forall|k: int| 0 <= k < i ==> !suitable(required@)(#[trigger] devices@[k]),
        decreases devices.len() - i,
    {
        if check_device_suitability(&devices[i], required).is_ok() {
            proof {
                assert(is_first(devices@, suitable(required@), i as int));
                first_is(devices@, suitable(required@), i as int);
            }
            return Some(i);
        }
        i += 1;
    }
    proof {
        assert(none_pass(devices@, suitable(required@)));
        first_is_none(devices@, suitable(required@));
    }
    None
}

/// Selects the physical device: the first one, in the order of enumeration,
/// that passes every check. `devices` is what enumerating the devices gave.
pub fn get_physical_device(
    devices: &Result<Vec<PhysicalDeviceInfo>, i32>,
    required: &Vec<String>,
) -> (choice: Result<u64, Error>)
    ensures
        choice == physical_device_choice(*devices, required@),
{
    match devices {
        Err(_) => Err(Error::EnumeratePhysicalDevices),
        Ok(list) => match find_suitable_device(list, required) {
            Some(i) => Ok(list[i].handle),
            None => Err(Error::NoSuitableDevice),
        },
    }
}

/// Selects the queue family: the first one, by index, that has a queue,
/// draws and can present to the surface.
pub fn get_queue_family(families: &Vec<QueueFamilyInfo>) -> (choice: Result<u32, Error>)
    ensures
        choice == queue_family_choice(families@),
{
    let mut i: usize = 0;
    while i < families.len()
        invariant
            i <= families.len(),
            i <= u32::MAX + 1,
            forall|k: int| 0 <= k < i ==> !decides()(#[trigger] families@[k]),
        decreases families.len() - i,
    {
        if i > 0xffff_ffff {
            proof {
                first_sound(families@, decides());
            }
            return Err(Error::NoGraphicsPresentQueue);
        }
        let family = &families[i];
        if family.queue_count > 0 && bindings::has_graphics(family.queue_flags) {
            match family.present_support {
                Err(_) => {
                    proof {
                        assert(is_first(families@, decides(), i as int));
                        first_is(families@, decides(), i as int);
                    }
                    return Err(Error::SurfaceSupport);
                },
                Ok(true) => {
                    proof {
                        assert(is_first(families@, decides(), i as int));
                        first_is(families@, decides(), i as int);
                    }
                    return Ok(i as u32);
                },
                Ok(false) => {},
            }
        }
        i += 1;
    }
    proof {
        assert(none_pass(families@, decides()));
        first_is_none(families@, decides());
    }
    Err(Error::NoGraphicsPresentQueue)
}

/// The depth formats to ask the device about, in order of preference.
pub fn depth_format_candidates() -> (formats: Vec<i32>)
    ensures
        formats@ == preferred_depth_formats(),
{
    let mut formats: Vec<i32> = Vec::new();
    formats.push(bindings::d16_unorm_s8_uint());
    formats.push(bindings::d24_unorm_s8_uint());
    formats.push(bindings::d32_sfloat_s8_uint());
    assert(formats@ =~= preferred_depth_formats());
    formats
}

/// Selects the depth format: the first candidate, in the order given, whose
/// optimal tiling can be a depth-stencil attachment.
pub fn get_depth_format(candidates: &Vec<DepthCandidate>) -> (choice: Result<i32, Error>)
    ensures
        choice == depth_format_choice(candidates@),
{
    let mut i: usize = 0;
    while i < candidates.len()
        invariant
            i <= candidates.len(),
            forall|k: int| 0 <= k < i ==> !attachable()(#[trigger] candidates@[k]),
        decreases candidates.len() - i,
    {
        if bindings::has_depth_stencil_attachment(candidates[i].optimal_tiling_features) {
            proof {
                assert(is_first(candidates@, attachable(), i as int));
                first_is(candidates@, attachable(), i as int);
            }
            return Ok(candidates[i].format);
        }
        i += 1;
    }
    proof {
        assert(none_pass(candidates@, attachable()));
        first_is_none(candidates@, attachable());
    }
    Err(Error::NoDepthFormat)
}

/// Device selection is first-match: the device selected passes every check
/// and no device before it does, so a device further down the list is never
/// taken in place of an earlier one that passes, whatever else it offers.
/// Where no device is selected, none passes.
pub proof fn device_selection_is_first_match(
    devices: Seq<PhysicalDeviceInfo>,
    required: Seq<String>,
)
    ensures
        match selected_device(devices, required) {
            Some(i) => {
                &&& 0 <= i < devices.len()
                &&& device_verdict(devices[i], required) is Ok
                &&& forall|j: int|
                    0 <= j < i ==> device_verdict(#[trigger] devices[j], required) is Err
                &&& forall|j: int|
                    0 <= j < devices.len() && device_verdict(#[trigger] devices[j], required) is Ok
                        ==> i <= j
            },
            None => forall|j: int|
                0 <= j < devices.len() ==> device_verdict(#[trigger] devices[j], required) is Err,
        },
{
    first_sound(devices, suitable(required));
    match selected_device(devices, required) {
        Some(i) => {
            assert forall|j: int| 0 <= j < i implies device_verdict(
                #[trigger] devices[j],
                required,
            ) is Err by {
                assert(!suitable(required)(devices[j]));
            }
            assert forall|j: int|
                0 <= j < devices.len() && device_verdict(
                    #[trigger] devices[j],
                    required,
                ) is Ok implies i <= j by {
                if j < i {
                    assert(!suitable(required)(devices[j]));
                }
            }
        },
        None => {
            assert forall|j: int| 0 <= j < devices.len() implies device_verdict(
                #[trigger] devices[j],
                required,
            ) is Err by {
                assert(!suitable(required)(devices[j]));
            }
        },
    }
}

/// Depth format selection is first-match: the format selected is that of
/// the first candidate that can be a depth-stencil attachment, whatever the
/// candidates before and after it are. In particular, where exactly one
/// candidate can, that one is selected. Where none can, selection fails.
pub proof fn depth_selection_is_first_match(candidates: Seq<DepthCandidate>)
    ensures
        match depth_format_choice(candidates) {
            Ok(format) => exists|i: int|
                {
                    &&& 0 <= i < candidates.len()
                    &&& format == (#[trigger] candidates[i]).format
                    &&& attachable()(candidates[i])
                    &&& forall|j: int| 0 <= j < i ==> !attachable()(#[trigger] candidates[j])
                },
            Err(error) => error == Error::NoDepthFormat && forall|j: int|
                0 <= j < candidates.len() ==> !attachable()(#[trigger] candidates[j]),
        },
        forall|i: int|
            0 <= i < candidates.len() && attachable()(#[trigger] candidates[i]) && (forall|j: int|
                0 <= j < candidates.len() && j != i ==> !attachable()(#[trigger] candidates[j]))
                ==> depth_format_choice(candidates) == Ok::<i32, Error>(candidates[i].format),
{
    first_sound(candidates, attachable());
    match first(candidates, attachable()) {
        Some(k) => {
            assert(is_first(candidates, attachable(), k));
            assert(candidates[k].format == candidates[k].format);
        },
        None => {},
    }
    assert forall|i: int|
        0 <= i < candidates.len() && attachable()(#[trigger] candidates[i]) && (forall|j: int|
            0 <= j < candidates.len() && j != i ==> !attachable()(
                #[trigger] candidates[j],
            )) implies depth_format_choice(candidates) == Ok::<i32, Error>(candidates[i].format) by {
        assert(is_first(candidates, attachable(), i));
        first_is(candidates, attachable(), i);
    }
}

/// Queue family selection is first-match among the families that draw and
/// present: a family is selected only if it has a queue, draws and presents,
/// and every family before it either does not draw or does not present.
pub proof fn queue_selection_is_first_match(families: Seq<QueueFamilyInfo>)
    ensures
        queue_family_choice(families) matches Ok(index) ==> {
            &&& index < families.len()
            &&& draws(families[index as int])
            &&& families[index as int].present_support == Ok::<bool, i32>(true)
            &&& forall|j: int|
                0 <= j < index ==> !draws(#[trigger] families[j]) || families[j].present_support
                    == Ok::<bool, i32>(false)
        },
{
    first_sound(families, decides());
    match first(families, decides()) {
        Some(i) => {
            assert(decides()(families[i]));
            if i <= u32::MAX && families[i].present_support is Ok {
                assert((i as u32) as int == i);
                assert(families[i].present_support->Ok_0);
            }
            assert forall|j: int| 0 <= j < i implies !draws(#[trigger] families[j])
                || families[j].present_support == Ok::<bool, i32>(false) by {
                assert(!decides()(families[j]));
            }
        },
        None => {},
    }
}

} // verus!
