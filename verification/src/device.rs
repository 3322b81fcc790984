//! Which physical device the renderer runs on, and which of its queue
//! families, memory types, sample counts and formats it uses.
//!
//! The host queries each physical device and hands over what it found as
//! plain values; the decisions are made here. Bit sets and enumerated
//! values of the graphics API are carried as their raw codes.

use vstd::prelude::*;
use std::collections::HashSet;
use crate::swapchain::SwapchainSupport;

verus! {

/// The bit of a queue family's flags that says it takes graphics commands.
pub const QUEUE_GRAPHICS: u32 = 0x1;

/// The bit of a queue family's flags that says it takes transfer commands.
pub const QUEUE_TRANSFER: u32 = 0x4;

/// The bit of a format's features that says it can be a depth and stencil
/// attachment.
pub const FEATURE_DEPTH_STENCIL_ATTACHMENT: u32 = 0x200;

/// The greatest number of memory types that a device can have.
pub const MAX_MEMORY_TYPES: usize = 32;

/// The reason given when a queue family is missing.
pub const MISSING_QUEUE_FAMILIES: &'static str = "Missing required queue families.";

/// The reason given when a device extension is missing.
pub const MISSING_EXTENSIONS: &'static str = "Missing required device extensions.";

/// The reason given when the device cannot draw to several viewports.
pub const MISSING_MULTI_VIEWPORT: &'static str = "Missing multi viewport support.";

/// The reason given when the device offers no surface format or no present
/// mode.
pub const INSUFFICIENT_SWAPCHAIN_SUPPORT: &'static str = "Insufficient swapchain support.";

/// Why a physical device is not suitable: what it is missing.
#[derive(Clone, Copy, Debug, PartialEq, Eq)]
pub struct SuitabilityError(pub &'static str);

/// A queue family of a physical device.
#[derive(Clone, Copy, Debug, PartialEq, Eq)]
pub struct QueueFamily {
    /// The kinds of commands that the family takes, as a bit set.
    pub queue_flags: u32,
    /// Whether the family can present to the surface.
    pub present_support: bool,
}

/// What a queue family is wanted for.
#[derive(Clone, Copy, Debug, PartialEq, Eq)]
pub enum QueueRole {
    Graphics,
    Transfer,
    Present,
}

/// The queue families that a physical device must have to be used at all,
/// by their index on the device: the one that uploads go through and the
/// one that presents.
#[derive(Clone, Copy, Debug, PartialEq, Eq)]
pub struct QueueFamilyIndices {
    pub transfer: u32,
    pub present: u32,
}

/// What the host found out about a physical device.
#[derive(Clone, Debug)]
pub struct PhysicalDeviceInfo {
    /// The queue families, in the device's order.
    pub families: Vec<QueueFamily>,
    /// The names of the device extensions that the device offers.
    pub extensions: Vec<Vec<u8>>,
    /// Whether the device can draw to several viewports.
    pub multi_viewport: bool,
    /// What the device offers for the surface.
    pub support: SwapchainSupport,
}

/// Whether `flags` has every bit of `wanted`.
pub open spec fn has_flags(flags: u32, wanted: u32) -> bool {
    flags & wanted == wanted
}

/// Whether a queue family can play a role.
pub open spec fn serves(family: QueueFamily, role: QueueRole) -> bool {
    match role {
        QueueRole::Graphics => has_flags(family.queue_flags, QUEUE_GRAPHICS),
        QueueRole::Transfer => has_flags(family.queue_flags, QUEUE_TRANSFER),
        QueueRole::Present => family.present_support,
    }
}

/// `index` is the first family that can play the role.
pub open spec fn first_serving(families: Seq<QueueFamily>, role: QueueRole, index: int) -> bool {
    &&& 0 <= index < families.len()
    &&& serves(families[index], role)
    &&& forall|k: int| 0 <= k < index ==> !serves(#[trigger] families[k], role)
}

/// Some family can play the role.
pub open spec fn some_serves(families: Seq<QueueFamily>, role: QueueRole) -> bool {
    exists|k: int| 0 <= k < families.len() && serves(#[trigger] families[k], role)
}

/// The device offers an extension of this name.
pub open spec fn offers(extensions: Seq<Vec<u8>>, name: Seq<u8>) -> bool {
    exists|k: int| 0 <= k < extensions.len() && (#[trigger] extensions[k])@ == name
}

/// The device offers every extension that is required.
pub open spec fn offers_all(extensions: Seq<Vec<u8>>, required: Seq<Vec<u8>>) -> bool {
    forall|i: int| 0 <= i < required.len() ==> offers(extensions, (#[trigger] required[i])@)
}

/// The verdict on a physical device: the first thing it is missing, looking
/// at queue families, extensions, viewports and swapchain support in this
/// order, or nothing.
pub open spec fn verdict(device: PhysicalDeviceInfo, required: Seq<Vec<u8>>) -> Result<
    (),
    SuitabilityError,
> {
    if !(some_serves(device.families@, QueueRole::Transfer) && some_serves(
        device.families@,
        QueueRole::Present,
    )) {
        Err(SuitabilityError(MISSING_QUEUE_FAMILIES))
    } else if !offers_all(device.extensions@, required) {
        Err(SuitabilityError(MISSING_EXTENSIONS))
    } else if !device.multi_viewport {
        Err(SuitabilityError(MISSING_MULTI_VIEWPORT))
    } else if device.support.formats@.len() == 0 || device.support.present_modes@.len() == 0 {
        Err(SuitabilityError(INSUFFICIENT_SWAPCHAIN_SUPPORT))
    } else {
        Ok(())
    }
}

/// The queue families for which the logical device gets a queue: the
/// graphics family and the present family, once if they are the same family.
pub open spec fn queue_families(graphics: u32, indices: QueueFamilyIndices) -> Seq<u32> {
    if graphics == indices.present {
        seq![graphics]
    } else {
        seq![graphics, indices.present]
    }
}

fn family_serves(family: &QueueFamily, role: QueueRole) -> (r: bool)
    ensures
        r == serves(*family, role),
{
    match role {
        QueueRole::Graphics => family.queue_flags & QUEUE_GRAPHICS == QUEUE_GRAPHICS,
        QueueRole::Transfer => family.queue_flags & QUEUE_TRANSFER == QUEUE_TRANSFER,
        QueueRole::Present => family.present_support,
    }
}

/// The index of the first queue family that can play the role, if any can.
pub fn find_queue_family(families: &Vec<QueueFamily>, role: QueueRole) -> (found: Option<u32>)
    requires
        families.len() <= u32::MAX,
    ensures
        found matches Some(index) ==> first_serving(families@, role, index as int),
        found is Some <==> some_serves(families@, role),
{
    let mut i: usize = 0;
    while i < families.len()
        invariant
            i <= families.len() <= u32::MAX,
            forall|k: int| 0 <= k < i ==> !serves(#[trigger] families[k], role),
        decreases families.len() - i,
    {
        if family_serves(&families[i], role) {
            return Some(i as u32);
        }
        i += 1;
    }
    None
}

impl QueueFamilyIndices {
    /// Picks the first queue family that takes transfer commands and the
    /// first that can present. Fails exactly when there is no family of one
    /// of the two kinds; whether a family takes graphics commands plays no
    /// part.
    pub fn get(families: &Vec<QueueFamily>) -> (r: Result<QueueFamilyIndices, SuitabilityError>)
        requires
            families.len() <= u32::MAX,
        ensures
            r matches Ok(indices) ==> {
                &&& first_serving(families@, QueueRole::Transfer, indices.transfer as int)
                &&& first_serving(families@, QueueRole::Present, indices.present as int)
            },
            r is Ok <==> some_serves(families@, QueueRole::Transfer) && some_serves(
                families@,
                QueueRole::Present,
            ),
            r matches Err(e) ==> e == SuitabilityError(MISSING_QUEUE_FAMILIES),
    {
        let transfer = find_queue_family(families, QueueRole::Transfer);
        let present = find_queue_family(families, QueueRole::Present);
        match (transfer, present) {
            (Some(transfer), Some(present)) => Ok(QueueFamilyIndices { transfer, present }),
            _ => Err(SuitabilityError(MISSING_QUEUE_FAMILIES)),
        }
    }
}

fn same_name(a: &Vec<u8>, b: &Vec<u8>) -> (same: bool)
    ensures
        same == (a@ == b@),
{
    if a.len() != b.len() {
        return false;
    }
    let mut i: usize = 0;
    while i < a.len()
        invariant
            a.len() == b.len(),
            i <= a.len(),
            forall|k: int| 0 <= k < i ==> a[k] == b[k],
        decreases a.len() - i,
    {
        if a[i] != b[i] {
            return false;
        }
        i += 1;
    }
    assert(a@ =~= b@);
    true
}

fn is_offered(extensions: &Vec<Vec<u8>>, name: &Vec<u8>) -> (found: bool)
    ensures
        found == offers(extensions@, name@),
{
    let mut i: usize = 0;
    while i < extensions.len()
        invariant
            i <= extensions.len(),
            forall|k: int| 0 <= k < i ==> (#[trigger] extensions[k])@ != name@,
        decreases extensions.len() - i,
    {
        if same_name(&extensions[i], name) {
            return true;
        }
        i += 1;
    }
    false
}

/// Checks that the device offers every required extension.
pub fn check_physical_device_extensions(extensions: &Vec<Vec<u8>>, required: &Vec<Vec<u8>>) -> (r:
    Result<(), SuitabilityError>)
    ensures
        r is Ok <==> offers_all(extensions@, required@),
        r matches Err(e) ==> e == SuitabilityError(MISSING_EXTENSIONS),
{
    let mut i: usize = 0;
    while i < required.len()
        invariant
            i <= required.len(),
            forall|k: int| 0 <= k < i ==> offers(extensions@, (#[trigger] required[k])@),
        decreases required.len() - i,
    {
        if !is_offered(extensions, &required[i]) {
            return Err(SuitabilityError(MISSING_EXTENSIONS));
        }
        i += 1;
    }
    Ok(())
}

/// Decides whether a physical device is suitable, and if not, says what it
/// is missing.
pub fn check_physical_device(device: &PhysicalDeviceInfo, required: &Vec<Vec<u8>>) -> (r: Result<
    (),
    SuitabilityError,
>)
    requires
        device.families.len() <= u32::MAX,
    ensures
        r == verdict(*device, required@),
{
    match QueueFamilyIndices::get(&device.families) {
        Ok(_) => {},
        Err(e) => {
            return Err(e);
        },
    }
    match check_physical_device_extensions(&device.extensions, required) {
        Ok(_) => {},
        Err(e) => {
            return Err(e);
        },
    }
    if !device.multi_viewport {
        return Err(SuitabilityError(MISSING_MULTI_VIEWPORT));
    }
    if device.support.formats.len() == 0 || device.support.present_modes.len() == 0 {
        return Err(SuitabilityError(INSUFFICIENT_SWAPCHAIN_SUPPORT));
    }
    Ok(())
}

/// Picks the first suitable device of the list, if there is one.
pub fn pick_physical_device(devices: &Vec<PhysicalDeviceInfo>, required: &Vec<Vec<u8>>) -> (picked:
    Option<usize>)
    requires
        forall|k: int| 0 <= k < devices.len() ==> (#[trigger] devices[k]).families.len() <= u32::MAX,
    ensures
        picked matches Some(index) ==> {
            &&& index < devices.len()
            &&& verdict(devices[index as int], required@) is Ok
            &&& forall|k: int| 0 <= k < index ==> verdict(#[trigger] devices[k], required@) is Err
        },
        picked is None <==> forall|k: int|
            0 <= k < devices.len() ==> verdict(#[trigger] devices[k], required@) is Err,
{
    let mut i: usize = 0;
    while i < devices.len()
        invariant
            i <= devices.len(),
            forall|k: int|
                0 <= k < devices.len() ==> (#[trigger] devices[k]).families.len() <= u32::MAX,
            forall|k: int| 0 <= k < i ==> verdict(#[trigger] devices[k], required@) is Err,
        decreases devices.len() - i,
    {
        if check_physical_device(&devices[i], required).is_ok() {
            return Some(i);
        }
        i += 1;
    }
    None
}

/// Decides for which queue families the logical device gets a queue. A set
/// of the families asked for so far keeps a family from being asked twice.
pub fn create_logical_device(graphics: u32, indices: &QueueFamilyIndices) -> (families: Vec<u32>)
    ensures
        families@ == queue_families(graphics, *indices),
{
    broadcast use vstd::std_specs::hash::group_hash_axioms;

    let mut unique_indices: HashSet<u32> = HashSet::new();
    let mut families: Vec<u32> = Vec::new();
    if unique_indices.insert(graphics) {
        families.push(graphics);
    }
    if unique_indices.insert(indices.present) {
        families.push(indices.present);
    }
    assert(families@ =~= queue_families(graphics, *indices));
    families
}

/// Memory type `index` is allowed by `memory_type_bits`, the set of types
/// that a resource can live in, and has every wanted property.
pub open spec fn memory_type_fits(
    memory_types: Seq<u32>,
    properties: u32,
    memory_type_bits: u32,
    index: int,
) -> bool {
    &&& 0 <= index < memory_types.len()
    &&& index < MAX_MEMORY_TYPES
    &&& memory_type_bits & (1u32 << (index as u32)) != 0
    &&& has_flags(memory_types[index], properties)
}

/// Finds the first memory type that a resource can live in and that has the
/// wanted properties. `memory_types` holds the property flags of the
/// device's memory types, in the device's order.
pub fn get_memory_type_index(memory_types: &Vec<u32>, properties: u32, memory_type_bits: u32) -> (found:
    Option<u32>)
    ensures
        found matches Some(index) ==> memory_type_fits(
            memory_types@,
            properties,
            memory_type_bits,
            index as int,
        ) && forall|k: int|
            0 <= k < index ==> !memory_type_fits(memory_types@, properties, memory_type_bits, k),
        found is None <==> forall|k: int|
            !memory_type_fits(memory_types@, properties, memory_type_bits, k),
{
    let mut i: u32 = 0;
    while (i as usize) < MAX_MEMORY_TYPES && (i as usize) < memory_types.len()
        invariant
            i <= MAX_MEMORY_TYPES,
            i <= memory_types.len(),
            forall|k: int|
                0 <= k < i ==> !memory_type_fits(memory_types@, properties, memory_type_bits, k),
        decreases MAX_MEMORY_TYPES - i,
    {
        let allowed = memory_type_bits & (1u32 << i) != 0;
        if allowed && memory_types[i as usize] & properties == properties {
            assert(memory_type_fits(memory_types@, properties, memory_type_bits, i as int));
            return Some(i);
        }
        i += 1;
    }
    None
}

/// The sample count to render with for the given sets of supported counts:
/// the greatest of 64, 32, 16, 8, 4 and 2 that both color and depth
/// attachments support, and 1 if they share none of these.
pub open spec fn max_sample_count(color_counts: u32, depth_counts: u32) -> u32 {
    let counts = color_counts & depth_counts;
    if counts & 64 == 64 {
        64
    } else if counts & 32 == 32 {
        32
    } else if counts & 16 == 16 {
        16
    } else if counts & 8 == 8 {
        8
    } else if counts & 4 == 4 {
        4
    } else if counts & 2 == 2 {
        2
    } else {
        1
    }
}

/// A number of samples per pixel above one that a device can offer.
pub open spec fn is_sample_count(n: u32) -> bool {
    n == 2 || n == 4 || n == 8 || n == 16 || n == 32 || n == 64
}

/// Color and depth attachments both support `n` samples per pixel.
pub open spec fn both_support(color_counts: u32, depth_counts: u32, n: u32) -> bool {
    has_flags(color_counts, n) && has_flags(depth_counts, n)
}

/// The sample count to render with is one, or else a count that color and
/// depth attachments both support; and no count that both support is
/// greater.
pub proof fn lemma_max_sample_count_is_greatest_shared(color_counts: u32, depth_counts: u32)
    ensures
        ({
            let samples = max_sample_count(color_counts, depth_counts);
            &&& samples == 1 || (is_sample_count(samples) && both_support(
                color_counts,
                depth_counts,
                samples,
            ))
            &&& forall|n: u32|
                is_sample_count(n) && #[trigger] both_support(color_counts, depth_counts, n) ==> n
                    <= samples
        }),
{
    let c = color_counts;
    let d = depth_counts;
    assert(forall|n: u32| ((c & d) & n == n) == (c & n == n && d & n == n)) by (bit_vector);
}

/// Picks the number of samples per pixel. The sets of supported counts are
/// bit sets in which bit `k` stands for `2^k` samples.
pub fn get_max_msaa_samples(color_counts: u32, depth_counts: u32) -> (samples: u32)
    ensures
        samples == max_sample_count(color_counts, depth_counts),
{
    let counts = color_counts & depth_counts;
    if counts & 64 == 64 {
        64
    } else if counts & 32 == 32 {
        32
    } else if counts & 16 == 16 {
        16
    } else if counts & 8 == 8 {
        8
    } else if counts & 4 == 4 {
        4
    } else if counts & 2 == 2 {
        2
    } else {
        1
    }
}

/// A format together with what the device can do with images of that
/// format in optimal tiling.
#[derive(Clone, Copy, Debug, PartialEq, Eq)]
pub struct FormatSupport {
    /// The raw code of the format.
    pub format: i32,
    /// The features, as a bit set.
    pub features: u32,
}

/// `index` is the first candidate that has every wanted feature.
pub open spec fn first_supported(candidates: Seq<FormatSupport>, wanted: u32, index: int) -> bool {
    &&& 0 <= index < candidates.len()
    &&& has_flags(candidates[index].features, wanted)
    &&& forall|k: int| 0 <= k < index ==> !has_flags((#[trigger] candidates[k]).features, wanted)
}

/// Picks the first of the candidate formats that has every wanted feature.
pub fn get_supported_format(candidates: &Vec<FormatSupport>, wanted: u32) -> (found: Option<i32>)
    ensures
        found matches Some(format) ==> exists|i: int| #[trigger]
            first_supported(candidates@, wanted, i) && candidates[i].format == format,
        found is None <==> forall|k: int|
            0 <= k < candidates.len() ==> !has_flags((#[trigger] candidates[k]).features, wanted),
{
    let mut i: usize = 0;
    while i < candidates.len()
        invariant
            i <= candidates.len(),
            forall|k: int| 0 <= k < i ==> !has_flags((#[trigger] candidates[k]).features, wanted),
        decreases candidates.len() - i,
    {
        if candidates[i].features & wanted == wanted {
            assert(first_supported(candidates@, wanted, i as int));
            return Some(candidates[i].format);
        }
        i += 1;
    }
    None
}

} // verus!
