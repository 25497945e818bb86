//! Physical-device selection: the queue-family lookup, the device
//! extension check, the suitability test, and the queue requests the
//! logical device is created with.

use vstd::prelude::*;

use crate::model::DeviceQueuePlan;
use crate::model::PHYSICAL_DEVICE_TYPE_DISCRETE_GPU;
use crate::model::PhysicalDeviceInfo;
use crate::model::QUEUE_GRAPHICS_BIT;
use crate::model::QueueFamilyIndices;
use crate::model::QueueFamilyInfo;
use crate::model::all_names_contained;
use crate::model::all_strings_contained;
use crate::model::contains_name;

verus! {

/// The one device extension the application requires: the swapchain
/// extension, without which the device cannot present to a surface.
pub open spec fn spec_swapchain_extension_name() -> Seq<char> {
    "VK_KHR_swapchain"@
}

/// The device extensions the application requires; today only the
/// swapchain extension.
pub fn required_device_extensions() -> (r: Vec<String>)
    ensures
        r@.len() == 1,
        r@[0]@ == spec_swapchain_extension_name(),
{
    let mut extensions: Vec<String> = Vec::new();
    extensions.push("VK_KHR_swapchain".to_owned());
    extensions
}

/// The family at `index` supports graphics commands.
pub open spec fn spec_family_has_graphics(family: QueueFamilyInfo) -> bool {
    family.queue_flags & QUEUE_GRAPHICS_BIT == QUEUE_GRAPHICS_BIT
}

/// One step of the queue-family lookup: the family at `index` overwrites
/// whichever of the two recorded indices it qualifies for.
pub open spec fn spec_queue_family_step(
    acc: QueueFamilyIndices,
    family: QueueFamilyInfo,
    index: u32,
) -> QueueFamilyIndices {
    QueueFamilyIndices {
        graphics_family: if spec_family_has_graphics(family) {
            Some(index)
        } else {
            acc.graphics_family
        },
        present_family: if family.present_support {
            Some(index)
        } else {
            acc.present_family
        },
    }
}

/// The queue-family lookup continued from position `i` with the indices
/// recorded so far: each family in turn updates the record, and the scan
/// stops as soon as the record is complete.
pub open spec fn spec_find_queue_families_from(
    families: Seq<QueueFamilyInfo>,
    i: int,
    acc: QueueFamilyIndices,
) -> QueueFamilyIndices
    decreases families.len() - i,
{
    if i < 0 || i >= families.len() {
        acc
    } else {
        let next = spec_queue_family_step(acc, families[i], i as u32);
        if next.spec_is_complete() {
            next
        } else {
            spec_find_queue_families_from(families, i + 1, next)
        }
    }
}

/// What the queue-family lookup returns for a device's family list.
pub open spec fn spec_find_queue_families(families: Seq<QueueFamilyInfo>) -> QueueFamilyIndices {
    spec_find_queue_families_from(
        families,
        0,
        QueueFamilyIndices { graphics_family: None, present_family: None },
    )
}

/// Scans the device's queue families in order, recording the index of
/// each family that supports graphics commands and of each whose
/// presentation query was answered, and stops as soon as both are on
/// record.
pub fn find_queue_families(families: &Vec<QueueFamilyInfo>) -> (r: QueueFamilyIndices)
    requires
        families@.len() <= u32::MAX,
    ensures
        r == spec_find_queue_families(families@),
{
    let mut indices = QueueFamilyIndices { graphics_family: None, present_family: None };

    let mut i: usize = 0;
    while i < families.len()
        invariant_except_break
            0 <= i <= families@.len(),
            families@.len() <= u32::MAX,
            !indices.spec_is_complete(),
            spec_find_queue_families(families@) == spec_find_queue_families_from(
                families@,
                i as int,
                indices,
            ),
        ensures
            indices == spec_find_queue_families(families@),
        decreases families@.len() - i,
    {
        let queue_family = families[i];
        if queue_family.queue_flags & QUEUE_GRAPHICS_BIT == QUEUE_GRAPHICS_BIT {
            indices.graphics_family = Some(i as u32);
        }

        if queue_family.present_support {
            indices.present_family = Some(i as u32);
        }

        if indices.is_complete() {
            break;
        }

        i = i + 1;
    }

    indices
}

/// Helper for the completeness law: continued from any position, the
/// lookup completes exactly when each of the two families is either
/// already on record or still ahead in the list.
proof fn lemma_find_from_complete(families: Seq<QueueFamilyInfo>, i: int, acc: QueueFamilyIndices)
    requires
        0 <= i <= families.len(),
    ensures
        spec_find_queue_families_from(families, i, acc).spec_is_complete() <==> {
            &&& acc.graphics_family is Some || exists|k: int|
                i <= k < families.len() && spec_family_has_graphics(#[trigger] families[k])
            &&& acc.present_family is Some || exists|k: int|
                i <= k < families.len() && (#[trigger] families[k]).present_support
        },
    decreases families.len() - i,
{
    if i < families.len() {
        let next = spec_queue_family_step(acc, families[i], i as u32);
        if !next.spec_is_complete() {
            lemma_find_from_complete(families, i + 1, next);
        }
    }
}

/// The queue-family lookup completes exactly when the list holds some
/// family that supports graphics commands and some family whose
/// presentation query was answered; stopping early never misses one.
pub proof fn lemma_queue_family_search_complete(families: Seq<QueueFamilyInfo>)
    ensures
        spec_find_queue_families(families).spec_is_complete() <==> {
            &&& exists|k: int|
                0 <= k < families.len() && spec_family_has_graphics(#[trigger] families[k])
            &&& exists|k: int| 0 <= k < families.len() && (#[trigger] families[k]).present_support
        },
{
    lemma_find_from_complete(
        families,
        0,
        QueueFamilyIndices { graphics_family: None, present_family: None },
    );
}

/// Helper for the soundness law: every index the lookup records from
/// position `i` on either was already on record or points at a family,
/// at or past `i`, with the recorded capability.
proof fn lemma_find_from_valid(families: Seq<QueueFamilyInfo>, i: int, acc: QueueFamilyIndices)
    requires
        0 <= i <= families.len(),
        families.len() <= u32::MAX,
    ensures
        ({
            let r = spec_find_queue_families_from(families, i, acc);
            &&& (r.graphics_family is Some ==> acc.graphics_family == r.graphics_family || {
                let g = r.graphics_family->0;
                i <= g < families.len() && spec_family_has_graphics(families[g as int])
            })
            &&& (r.present_family is Some ==> acc.present_family == r.present_family || {
                let p = r.present_family->0;
                i <= p < families.len() && families[p as int].present_support
            })
        }),
    decreases families.len() - i,
{
    if i < families.len() {
        let next = spec_queue_family_step(acc, families[i], i as u32);
        if !next.spec_is_complete() {
            lemma_find_from_valid(families, i + 1, next);
        }
    }
}

/// Every index the queue-family lookup records is sound: it lies within
/// the family list and points at a family with the recorded capability.
pub proof fn lemma_queue_family_indices_valid(families: Seq<QueueFamilyInfo>)
    requires
        families.len() <= u32::MAX,
    ensures
        ({
            let r = spec_find_queue_families(families);
            &&& (r.graphics_family is Some ==> {
                let g = r.graphics_family->0;
                g < families.len() && spec_family_has_graphics(families[g as int])
            })
            &&& (r.present_family is Some ==> {
                let p = r.present_family->0;
                p < families.len() && families[p as int].present_support
            })
        }),
{
    lemma_find_from_valid(
        families,
        0,
        QueueFamilyIndices { graphics_family: None, present_family: None },
    );
}

/// The device advertises every required device extension.
pub open spec fn spec_device_extensions_supported(available: Seq<String>) -> bool {
    contains_name(available, spec_swapchain_extension_name())
}

/// Whether the device advertises every required device extension; today
/// that is the swapchain extension alone.
pub fn check_device_extension_support(available_extensions: &Vec<String>) -> (r: bool)
    ensures
        r == spec_device_extensions_supported(available_extensions@),
{
    let required = required_device_extensions();
    let supported = all_strings_contained(&required, available_extensions);

    proof {
        if supported {
            assert(contains_name(available_extensions@, required@[0]@));
        }
        if spec_device_extensions_supported(available_extensions@) {
            assert forall|i: int|
                0 <= i < required@.len() implies contains_name(
                available_extensions@,
                #[trigger] required@[i]@,
            ) by {
                assert(i == 0);
            }
            assert(all_names_contained(required@, available_extensions@));
        }
    }

    supported
}

/// A device qualifies when it is a discrete GPU with geometry-shader
/// support, its queue families cover graphics and presentation, it
/// advertises the required device extensions, and the surface has at
/// least one format and one presentation mode to offer.
pub open spec fn spec_is_device_suitable(info: PhysicalDeviceInfo) -> bool {
    &&& info.device_type == PHYSICAL_DEVICE_TYPE_DISCRETE_GPU
    &&& info.geometry_shader > 0
    &&& spec_find_queue_families(info.queue_families@).spec_is_complete()
    &&& spec_device_extensions_supported(info.available_extensions@)
    &&& info.formats@.len() > 0
    &&& info.present_modes@.len() > 0
}

/// Decides whether one physical device can carry the application: a
/// discrete GPU with geometry shaders, complete queue families, the
/// required extensions, and a workable swapchain for the surface.
pub fn is_device_suitable(info: &PhysicalDeviceInfo) -> (r: bool)
    requires
        info.queue_families@.len() <= u32::MAX,
    ensures
        r == spec_is_device_suitable(*info),
{
    let extensions_supported = check_device_extension_support(&info.available_extensions);

    let mut swapchain_adequate = false;
    if extensions_supported {
        swapchain_adequate = info.formats.len() > 0 && info.present_modes.len() > 0;
    }

    let indices = find_queue_families(&info.queue_families);

    (info.device_type == PHYSICAL_DEVICE_TYPE_DISCRETE_GPU && info.geometry_shader > 0)
        && indices.is_complete() && extensions_supported && swapchain_adequate
}

/// The queue requests for the logical device: one queue from the graphics
/// family, and one from the presentation family when that is a different
/// family.
pub fn device_queue_plans(indices: &QueueFamilyIndices) -> (r: Vec<DeviceQueuePlan>)
    requires
        indices.spec_is_complete(),
    ensures
        r@.len() == (if indices.graphics_family->0 == indices.present_family->0 {
            1int
        } else {
            2int
        }),
        r@[0] == (DeviceQueuePlan {
            queue_family_index: indices.graphics_family->0,
            queue_count: 1,
        }),
        indices.graphics_family->0 != indices.present_family->0 ==> r@[1] == (DeviceQueuePlan {
            queue_family_index: indices.present_family->0,
            queue_count: 1,
        }),
{
    let graphics_family = indices.graphics_family.unwrap();
    let present_family = indices.present_family.unwrap();

    let mut queues_to_create: Vec<DeviceQueuePlan> = Vec::new();
    queues_to_create.push(DeviceQueuePlan { queue_family_index: graphics_family, queue_count: 1 });

    if present_family != graphics_family {
        queues_to_create.push(
            DeviceQueuePlan { queue_family_index: present_family, queue_count: 1 },
        );
    }

    queues_to_create
}

} // verus!
