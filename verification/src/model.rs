//! Plain-value models of the descriptor data that the graphics driver
//! reports and that the selection logic reads: surface formats, surface
//! capabilities, queue families, and the gathered per-device report.
//!
//! Formats, color spaces, presentation modes and device types are carried
//! as the raw identifiers the driver uses; flag sets are carried as bit
//! masks. The constants below give the identifiers the logic cares about.

use vstd::prelude::*;

verus! {

/// Bit set in a queue family's flag mask when the family accepts graphics
/// commands.
pub const QUEUE_GRAPHICS_BIT: u32 = 0x1;

/// Identifier of the discrete-GPU physical device type.
pub const PHYSICAL_DEVICE_TYPE_DISCRETE_GPU: i32 = 2;

/// Identifier of the 8-bit BGRA sRGB image format.
pub const FORMAT_B8G8R8A8_SRGB: i32 = 50;

/// Identifier of the non-linear sRGB color space.
pub const COLOR_SPACE_SRGB_NONLINEAR: i32 = 0;

/// Identifier of the mailbox presentation mode (triple buffering).
pub const PRESENT_MODE_MAILBOX: i32 = 1;

/// Identifier of the first-in-first-out presentation mode, the only one
/// every driver must offer.
pub const PRESENT_MODE_FIFO: i32 = 2;

/// Image-usage bit marking swapchain images as color attachments.
pub const IMAGE_USAGE_COLOR_ATTACHMENT: u32 = 0x10;

/// Composite-alpha bit asking the window system to ignore the alpha
/// channel.
pub const COMPOSITE_ALPHA_OPAQUE: u32 = 0x1;

/// Debug-message severity bit: verbose diagnostics.
pub const DEBUG_SEVERITY_VERBOSE: u32 = 0x1;

/// Debug-message severity bit: informational messages.
pub const DEBUG_SEVERITY_INFO: u32 = 0x10;

/// Debug-message severity bit: warnings.
pub const DEBUG_SEVERITY_WARNING: u32 = 0x100;

/// Debug-message severity bit: errors.
pub const DEBUG_SEVERITY_ERROR: u32 = 0x1000;

/// Debug-message kind bit: general events.
pub const DEBUG_TYPE_GENERAL: u32 = 0x1;

/// Debug-message kind bit: validation findings.
pub const DEBUG_TYPE_VALIDATION: u32 = 0x2;

/// Debug-message kind bit: performance advice.
pub const DEBUG_TYPE_PERFORMANCE: u32 = 0x4;

/// A surface format as the driver reports it: a pixel format paired with
/// a color space.
#[derive(Clone, Copy, Debug, PartialEq, Eq, Structural)]
pub struct SurfaceFormat {
    pub format: i32,
    pub color_space: i32,
}

/// A width and height in pixels.
#[derive(Clone, Copy, Debug, PartialEq, Eq, Structural)]
pub struct Extent2D {
    pub width: u32,
    pub height: u32,
}

/// What the driver reports about a surface: how many swapchain images it
/// requires and allows, the extent it currently has, the extents it
/// accepts, and the transform it currently applies.
///
/// A `max_image_count` of zero means the driver puts no upper bound on
/// the image count. A `current_extent` width of `u32::MAX` means the
/// window system leaves the extent to the application.
#[derive(Clone, Copy, Debug, PartialEq, Eq, Structural)]
pub struct SurfaceCapabilities {
    pub min_image_count: u32,
    pub max_image_count: u32,
    pub current_extent: Extent2D,
    pub min_image_extent: Extent2D,
    pub max_image_extent: Extent2D,
    pub current_transform: u32,
}

/// Everything the swapchain configuration reads about one device and
/// surface: the capabilities, the supported surface formats, and the
/// supported presentation modes.
pub struct SwapChainSupportDetails {
    pub capabilities: SurfaceCapabilities,
    pub formats: Vec<SurfaceFormat>,
    pub present_modes: Vec<i32>,
}

/// What the queue-family lookup reads about one queue family: its flag
/// mask and whether the driver reported the presentation query for it as
/// answered.
#[derive(Clone, Copy, Debug, PartialEq, Eq, Structural)]
pub struct QueueFamilyInfo {
    pub queue_flags: u32,
    pub present_support: bool,
}

/// The queue-family indices the device setup needs: one family for
/// graphics commands and one for presentation, either possibly missing.
#[derive(Clone, Copy, Debug)]
pub struct QueueFamilyIndices {
    pub graphics_family: Option<u32>,
    pub present_family: Option<u32>,
}

impl QueueFamilyIndices {
    /// Both required families have been found.
    pub open spec fn spec_is_complete(self) -> bool {
        self.graphics_family is Some && self.present_family is Some
    }

    /// Both required families have been found.
    pub fn is_complete(&self) -> (r: bool)
        ensures
            r == self.spec_is_complete(),
    {
        self.graphics_family.is_some() && self.present_family.is_some()
    }
}

impl Default for QueueFamilyIndices {
    /// Starts a lookup with neither family found.
    fn default() -> (r: Self)
        ensures
            r.graphics_family is None,
            r.present_family is None,
    {
        QueueFamilyIndices { graphics_family: None, present_family: None }
    }
}

/// Everything the suitability check reads about one physical device: its
/// type, whether it offers geometry shaders (nonzero when it does), its
/// queue families, the device extensions it advertises, and the surface
/// formats and presentation modes it supports for the target surface.
pub struct PhysicalDeviceInfo {
    pub device_type: i32,
    pub geometry_shader: u32,
    pub queue_families: Vec<QueueFamilyInfo>,
    pub available_extensions: Vec<String>,
    pub formats: Vec<SurfaceFormat>,
    pub present_modes: Vec<i32>,
}

/// The severity and kind masks a debug messenger is configured with.
#[derive(Clone, Copy, Debug, PartialEq, Eq, Structural)]
pub struct DebugMessengerConfig {
    pub message_severity: u32,
    pub message_type: u32,
}

/// One queue request for the logical device: which family to draw the
/// queues from and how many to create.
#[derive(Clone, Copy, Debug, PartialEq, Eq, Structural)]
pub struct DeviceQueuePlan {
    pub queue_family_index: u32,
    pub queue_count: u32,
}

/// The swapchain configuration the selection logic settles on; the
/// driver call is filled in from these fields.
#[derive(Clone, Copy, Debug, PartialEq, Eq, Structural)]
pub struct SwapChainPlan {
    pub surface_format: SurfaceFormat,
    pub present_mode: i32,
    pub extent: Extent2D,
    pub min_image_count: u32,
    pub image_array_layers: u32,
    pub image_usage: u32,
    pub pre_transform: u32,
    pub composite_alpha: u32,
    pub clipped: bool,
}

/// Some string in `names` reads exactly `target`.
pub open spec fn contains_name(names: Seq<String>, target: Seq<char>) -> bool {
    exists|i: int| 0 <= i < names.len() && names[i]@ == target
}

/// Whether `haystack` holds a string equal to `needle`.
pub fn contains_string(haystack: &Vec<String>, needle: &String) -> (r: bool)
    ensures
        r == contains_name(haystack@, needle@),
{
    let mut i: usize = 0;
    while i < haystack.len()
        invariant
            0 <= i <= haystack@.len(),
            forall|j: int| 0 <= j < i ==> haystack@[j]@ != needle@,
        decreases haystack@.len() - i,
    {
        if haystack[i].eq(needle) {
            return true;
        }
        i = i + 1;
    }
    false
}

/// Every string in `required` also occurs in `available`.
pub open spec fn all_names_contained(required: Seq<String>, available: Seq<String>) -> bool {
    forall|i: int| 0 <= i < required.len() ==> contains_name(available, #[trigger] required[i]@)
}

/// Whether every string in `required` also occurs in `available`.
pub fn all_strings_contained(required: &Vec<String>, available: &Vec<String>) -> (r: bool)
    ensures
        r == all_names_contained(required@, available@),
{
    let mut i: usize = 0;
    while i < required.len()
        invariant
            0 <= i <= required@.len(),
            forall|j: int| 0 <= j < i ==> contains_name(available@, #[trigger] required@[j]@),
        decreases required@.len() - i,
    {
        if !contains_string(available, &required[i]) {
            return false;
        }
        i = i + 1;
    }
    true
}

} // verus!
