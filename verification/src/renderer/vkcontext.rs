//! Device-selection decisions: which queue families a device is used with
//! and whether a device is suitable at all, stated over what the device
//! reports.

use vstd::prelude::*;

verus! {

#[derive(Clone, Copy)]
pub struct QueueFamilyIndices {
    pub graphics_index: u32,
    pub present_index: u32,
}

/// What one reported queue family offers.
#[derive(Clone, Copy)]
pub struct QueueFamilyInfo {
    pub queue_count: u32,
    pub supports_graphics: bool,
    pub supports_present: bool,
}

pub open spec fn graphics_candidate(f: QueueFamilyInfo) -> bool {
    f.queue_count > 0 && f.supports_graphics
}

pub open spec fn present_candidate(f: QueueFamilyInfo) -> bool {
    f.queue_count > 0 && f.supports_present
}

/// How many families before position `j` have any queues at all: the
/// position a family gets once the empty ones are skipped.
pub open spec fn nonzero_count(fams: Seq<QueueFamilyInfo>, j: int) -> int
    decreases j,
{
    if j <= 0 {
        0
    } else {
        nonzero_count(fams, j - 1) + if fams[j - 1].queue_count > 0 {
            1int
        } else {
            0int
        }
    }
}

/// Picks the graphics and the present queue family: for each, the first
/// family with any queues that supports it, numbered among the families
/// with any queues.
pub fn find_queue_families(families: &Vec<QueueFamilyInfo>) -> (r: (Option<u32>, Option<u32>))
    requires
        families@.len() <= u32::MAX,
    ensures
        match r.0 {
            Some(g) => exists|j: int|
                0 <= j < families@.len() && graphics_candidate(#[trigger] families@[j]) && (
                forall|i: int| 0 <= i < j ==> !graphics_candidate(#[trigger] families@[i]))
                    && g == nonzero_count(families@, j),
            None => forall|j: int|
                0 <= j < families@.len() ==> !graphics_candidate(#[trigger] families@[j]),
        },
        match r.1 {
            Some(p) => exists|j: int|
                0 <= j < families@.len() && present_candidate(#[trigger] families@[j]) && (
                forall|i: int| 0 <= i < j ==> !present_candidate(#[trigger] families@[i])) && p
                    == nonzero_count(families@, j),
            None => forall|j: int|
                0 <= j < families@.len() ==> !present_candidate(#[trigger] families@[j]),
        },
{
    let mut graphics: Option<u32> = None;
    let mut present: Option<u32> = None;
    let mut filtered: u32 = 0;
    let mut j: usize = 0;
    while j < families.len()
        invariant
            j <= families@.len(),
            families@.len() <= u32::MAX,
            filtered == nonzero_count(families@, j as int),
            0 <= filtered <= j,
            match graphics {
                Some(g) => exists|k: int|
                    0 <= k < j && graphics_candidate(#[trigger] families@[k]) && (forall|i: int|
                        0 <= i < k ==> !graphics_candidate(#[trigger] families@[i])) && g
                        == nonzero_count(families@, k),
                None => forall|k: int|
                    0 <= k < j ==> !graphics_candidate(#[trigger] families@[k]),
            },
            match present {
                Some(p) => exists|k: int|
                    0 <= k < j && present_candidate(#[trigger] families@[k]) && (forall|i: int|
                        0 <= i < k ==> !present_candidate(#[trigger] families@[i])) && p
                        == nonzero_count(families@, k),
                None => forall|k: int|
                    0 <= k < j ==> !present_candidate(#[trigger] families@[k]),
            },
        decreases families@.len() - j,
    {
        let f = families[j];
        if f.queue_count > 0 {
            if f.supports_graphics && graphics.is_none() {
                graphics = Some(filtered);
            }
            if f.supports_present && present.is_none() {
                present = Some(filtered);
            }
            filtered = filtered + 1;
        }
        j = j + 1;
    }
    (graphics, present)
}

/// The suitability rule: both queue families found, the swapchain extension
/// supported, at least one surface format and one present mode reported,
/// and anisotropic sampling available.
pub fn is_device_suitable(
    graphics: &Option<u32>,
    present: &Option<u32>,
    extension_support: bool,
    format_count: usize,
    present_mode_count: usize,
    sampler_anisotropy: bool,
) -> (r: bool)
    ensures
        r == (graphics is Some && present is Some && extension_support && format_count > 0
            && present_mode_count > 0 && sampler_anisotropy),
{
    graphics.is_some() && present.is_some() && extension_support && format_count > 0
        && present_mode_count > 0 && sampler_anisotropy
}

fn bytes_equal(a: &Vec<u8>, b: &Vec<u8>) -> (r: bool)
    ensures
        r == (a@ == b@),
{
    if a.len() != b.len() {
        return false;
    }
    let mut i: usize = 0;
    while i < a.len()
        invariant
            i <= a@.len(),
            a@.len() == b@.len(),
            forall|j: int| 0 <= j < i ==> a@[j] == b@[j],
        decreases a@.len() - i,
    {
        if a[i] != b[i] {
            return false;
        }
        i = i + 1;
    }
    proof {
        assert(a@ =~= b@);
    }
    true
}

/// The list of available names has one equal to `name`.
pub open spec fn names_contain(available: Seq<Vec<u8>>, name: Seq<u8>) -> bool {
    exists|j: int| 0 <= j < available.len() && (#[trigger] available[j])@ == name
}

/// Whether every required extension name appears among the available ones.
pub fn check_device_extension_support(required: &Vec<Vec<u8>>, available: &Vec<Vec<u8>>) -> (r:
    bool)
    ensures
        r == forall|i: int|
            0 <= i < required@.len() ==> names_contain(available@, (#[trigger] required@[i])@),
{
    let mut i: usize = 0;
    while i < required.len()
        invariant
            i <= required@.len(),
            forall|k: int|
                0 <= k < i ==> names_contain(available@, (#[trigger] required@[k])@),
        decreases required@.len() - i,
    {
        let mut found = false;
        let mut j: usize = 0;
        while j < available.len()
            invariant
                i < required@.len(),
                j <= available@.len(),
                found ==> names_contain(available@, (required@[i as int])@),
                !found ==> forall|k: int|
                    0 <= k < j ==> (#[trigger] available@[k])@ != (required@[i as int])@,
            decreases available@.len() - j,
        {
            if bytes_equal(&required[i], &available[j]) {
                proof {
                    assert((available@[j as int])@ == (required@[i as int])@);
                }
                found = true;
            }
            j = j + 1;
        }
        if !found {
            proof {
                assert(!names_contain(available@, (required@[i as int])@));
            }
            return false;
        }
        i = i + 1;
    }
    true
}

} // verus!
