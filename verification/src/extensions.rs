//! Required extensions against the extensions on offer.

use crate::error::Error;
use crate::select::{first, first_is, first_is_none, is_first, none_pass};
use crate::version::{check_instance_version, instance_version_verdict};
use crate::bindings;
use vstd::prelude::*;

verus! {

/// Whether an extension called `name` is among `offered`.
pub open spec fn offers(offered: Seq<String>, name: String) -> bool {
    exists|j: int| 0 <= j < offered.len() && (#[trigger] offered[j])@ == name@
}

/// The test "is not among `offered`".
pub open spec fn missing_from(offered: Seq<String>) -> spec_fn(String) -> bool {
    |name: String| !offers(offered, name)
}

/// The position in `required` of the first extension that `offered` lacks.
pub open spec fn first_missing(offered: Seq<String>, required: Seq<String>) -> Option<int> {
    first(required, missing_from(offered))
}

/// The verdict on the instance extensions: the listing must have succeeded,
/// and the first required extension that is not listed is named.
pub open spec fn instance_extensions_verdict(
    offered: Result<Vec<String>, i32>,
    required: Seq<String>,
) -> Result<(), Error> {
    match offered {
        Err(_) => Err(Error::EnumerateInstanceExtensions),
        Ok(names) => match first_missing(names@, required) {
            Some(i) => Err(Error::MissingInstanceExtension(required[i])),
            None => Ok(()),
        },
    }
}

/// The verdict on a device's extensions: the listing must have succeeded,
/// and the first required extension that is not listed is named.
pub open spec fn device_extensions_verdict(
    offered: Result<Vec<String>, i32>,
    required: Seq<String>,
) -> Result<(), Error> {
    match offered {
        Err(_) => Err(Error::EnumerateDeviceExtensions),
        Ok(names) => match first_missing(names@, required) {
            Some(i) => Err(Error::MissingDeviceExtension(required[i])),
            None => Ok(()),
        },
    }
}

/// Tells whether an extension called `name` is among `offered`.
pub fn is_offered(offered: &Vec<String>, name: &String) -> (found: bool)
    ensures
        found == offers(offered@, *name),
{
    let mut j: usize = 0;
    while j < offered.len()
        invariant
            j <= offered.len(),
            forall|k: int| 0 <= k < j ==> (#[trigger] offered@[k])@ != name@,
        decreases offered.len() - j,
    {
        if offered[j] == *name {
            return true;
        }
        j += 1;
    }
    false
}

/// Finds the position of the first required extension that is not offered.
pub fn find_missing(offered: &Vec<String>, required: &Vec<String>) -> (missing: Option<usize>)
    ensures
        match missing {
            Some(i) => first_missing(offered@, required@) == Some(i as int),
            None => first_missing(offered@, required@) is None,
        },
{
    let mut i: usize = 0;
    while i < required.len()
        invariant
            i <= required.len(),
            forall|k: int| 0 <= k < i ==> !missing_from(offered@)(#[trigger] required@[k]),
        decreases required.len() - i,
    {
        if !is_offered(offered, &required[i]) {
            proof {
                assert(is_first(required@, missing_from(offered@), i as int));
                first_is(required@, missing_from(offered@), i as int);
            }
            return Some(i);
        }
        i += 1;
    }
    proof {
        assert(none_pass(required@, missing_from(offered@)));
        first_is_none(required@, missing_from(offered@));
    }
    None
}

/// Checks that every required instance extension is offered. `offered` is
/// what listing the instance extensions gave.
pub fn check_required_instance_extensions(
    offered: &Result<Vec<String>, i32>,
    required: &Vec<String>,
) -> (verdict: Result<(), Error>)
    ensures
        verdict == instance_extensions_verdict(*offered, required@),
{
    match offered {
        Err(_) => Err(Error::EnumerateInstanceExtensions),
        Ok(names) => match find_missing(names, required) {
            Some(i) => Err(Error::MissingInstanceExtension(required[i].clone())),
            None => Ok(()),
        },
    }
}

/// Checks that every required device extension is offered. `offered` is
/// what listing the device's extensions gave.
pub fn check_required_device_extensions(
    offered: &Result<Vec<String>, i32>,
    required: &Vec<String>,
) -> (verdict: Result<(), Error>)
    ensures
        verdict == device_extensions_verdict(*offered, required@),
{
    match offered {
        Err(_) => Err(Error::EnumerateDeviceExtensions),
        Ok(names) => match find_missing(names, required) {
            Some(i) => Err(Error::MissingDeviceExtension(required[i].clone())),
            None => Ok(()),
        },
    }
}

/// The instance extensions to ask for: those that the window system needs,
/// in the order given, followed by the debug-utilities extension.
pub fn get_required_instance_extensions(window_needs: &Result<Vec<String>, i32>) -> (names: Result<
    Vec<String>,
    Error,
>)
    ensures
        window_needs is Err ==> names == Err::<Vec<String>, Error>(
            Error::EnumerateRequiredExtensions,
        ),
        window_needs matches Ok(needs) ==> {
            &&& names is Ok
            &&& names->Ok_0@.len() == needs@.len() + 1
            &&& forall|i: int| 0 <= i < needs@.len() ==> (#[trigger] names->Ok_0@[i]) == needs@[i]
            &&& names->Ok_0@[needs@.len() as int]@ == "VK_EXT_debug_utils"@
        },
{
    match window_needs {
        Err(_) => Err(Error::EnumerateRequiredExtensions),
        Ok(needs) => {
            let mut names: Vec<String> = Vec::new();
            let mut i: usize = 0;
            while i < needs.len()
                invariant
                    i <= needs.len(),
                    names@.len() == i,
                    forall|k: int| 0 <= k < i ==> (#[trigger] names@[k]) == needs@[k],
                decreases needs.len() - i,
            {
                names.push(needs[i].clone());
                i += 1;
            }
            names.push(bindings::debug_utils_name());
            Ok(names)
        },
    }
}

/// The verdict on loader and instance together: the version first, then
/// the extensions.
pub open spec fn compatibility_verdict(
    version: Result<Option<u32>, i32>,
    offered: Result<Vec<String>, i32>,
    required: Seq<String>,
) -> Result<(), Error> {
    match instance_version_verdict(version) {
        Err(error) => Err(error),
        Ok(_) => instance_extensions_verdict(offered, required),
    }
}

/// Checks the instance API version and then the required instance
/// extensions, and reports the first check that fails.
pub fn compatibility_check(
    version: &Result<Option<u32>, i32>,
    offered: &Result<Vec<String>, i32>,
    required: &Vec<String>,
) -> (verdict: Result<(), Error>)
    ensures
        verdict == compatibility_verdict(*version, *offered, required@),
{
    match check_instance_version(version) {
        Err(error) => Err(error),
        Ok(_) => check_required_instance_extensions(offered, required),
    }
}

/// Every required extension is offered exactly when no missing one is
/// found; and where one is found, it is required, it is not offered, and
/// every required extension before it is offered.
pub proof fn first_missing_is_first(offered: Seq<String>, required: Seq<String>)
    ensures
        match first_missing(offered, required) {
            Some(i) => {
                &&& 0 <= i < required.len()
                &&& !offers(offered, required[i])
                &&& forall|j: int| 0 <= j < i ==> offers(offered, #[trigger] required[j])
            },
            None => forall|j: int| 0 <= j < required.len() ==> offers(offered, #[trigger] required[j]),
        },
{
    crate::select::first_sound(required, missing_from(offered));
    match first_missing(offered, required) {
        Some(i) => {
            assert forall|j: int| 0 <= j < i implies offers(offered, #[trigger] required[j]) by {
                assert(!missing_from(offered)(required[j]));
            }
        },
        None => {
            assert forall|j: int| 0 <= j < required.len() implies offers(
                offered,
                #[trigger] required[j],
            ) by {
                assert(!missing_from(offered)(required[j]));
            }
        },
    }
}

} // verus!
