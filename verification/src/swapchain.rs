//! Swapchain configuration: choosing a surface format, a presentation
//! mode, an image extent and an image count from what the driver reports,
//! and assembling them into one plan.

use vstd::prelude::*;

use crate::model::COMPOSITE_ALPHA_OPAQUE;
use crate::model::COLOR_SPACE_SRGB_NONLINEAR;
use crate::model::Extent2D;
use crate::model::FORMAT_B8G8R8A8_SRGB;
use crate::model::IMAGE_USAGE_COLOR_ATTACHMENT;
use crate::model::PRESENT_MODE_FIFO;
use crate::model::PRESENT_MODE_MAILBOX;
use crate::model::SurfaceCapabilities;
use crate::model::SurfaceFormat;
use crate::model::SwapChainPlan;
use crate::model::SwapChainSupportDetails;

verus! {

/// What `clamp` returns: `min` when the value is below it, else `max`
/// when the value is above it, else the value itself.
pub open spec fn spec_clamp(value: u32, min: u32, max: u32) -> u32 {
    if value < min {
        min
    } else if value > max {
        max
    } else {
        value
    }
}

/// Clamps `value` into the interval `[min, max]`, checking the lower
/// bound first.
pub fn clamp(value: u32, min: u32, max: u32) -> (r: u32)
    ensures
        r == spec_clamp(value, min, max),
{
    if value < min {
        return min;
    } else if value > max {
        return max;
    }

    value
}

/// The format the selection always prefers: 8-bit BGRA sRGB in the
/// non-linear sRGB color space.
pub open spec fn spec_is_preferred_format(f: SurfaceFormat) -> bool {
    f.format == FORMAT_B8G8R8A8_SRGB && f.color_space == COLOR_SPACE_SRGB_NONLINEAR
}

/// Some format in `s` is the preferred one.
pub open spec fn spec_has_preferred_format(s: Seq<SurfaceFormat>) -> bool {
    exists|i: int| 0 <= i < s.len() && spec_is_preferred_format(s[i])
}

/// `r` is what the format selection returns for the list `s`: the first
/// preferred format when one occurs, else the first format of the list.
pub open spec fn spec_is_chosen_surface_format(s: Seq<SurfaceFormat>, r: SurfaceFormat) -> bool {
    if spec_has_preferred_format(s) {
        exists|i: int|
            0 <= i < s.len() && spec_is_preferred_format(s[i]) && r == s[i] && (forall|j: int|
                0 <= j < i ==> !spec_is_preferred_format(s[j]))
    } else {
        r == s[0]
    }
}

/// Picks the first available format that is 8-bit BGRA sRGB with the
/// non-linear sRGB color space; when none is, settles for the first
/// available format.
pub fn choose_swap_surface_format(available_formats: &Vec<SurfaceFormat>) -> (r: SurfaceFormat)
    requires
        available_formats@.len() > 0,
    ensures
        spec_is_chosen_surface_format(available_formats@, r),
{
    let mut i: usize = 0;
    while i < available_formats.len()
        invariant
            0 <= i <= available_formats@.len(),
            forall|j: int| 0 <= j < i ==> !spec_is_preferred_format(available_formats@[j]),
        decreases available_formats@.len() - i,
    {
        let surface_format = available_formats[i];
        if surface_format.format == FORMAT_B8G8R8A8_SRGB && surface_format.color_space
            == COLOR_SPACE_SRGB_NONLINEAR {
            return surface_format;
        }
        i = i + 1;
    }

    available_formats[0]
}

/// `r` is what the presentation-mode selection returns for the list `s`:
/// mailbox when the list offers it, else first-in-first-out.
pub open spec fn spec_is_chosen_present_mode(s: Seq<i32>, r: i32) -> bool {
    if s.contains(PRESENT_MODE_MAILBOX) {
        r == PRESENT_MODE_MAILBOX
    } else {
        r == PRESENT_MODE_FIFO
    }
}

/// Picks the mailbox presentation mode (triple buffering) when the list
/// offers it; otherwise falls back to first-in-first-out, the one mode
/// every driver must support.
pub fn choose_swap_present_mode(available_present_modes: &Vec<i32>) -> (r: i32)
    ensures
        spec_is_chosen_present_mode(available_present_modes@, r),
{
    let mut i: usize = 0;
    while i < available_present_modes.len()
        invariant
            0 <= i <= available_present_modes@.len(),
            forall|j: int| 0 <= j < i ==> available_present_modes@[j] != PRESENT_MODE_MAILBOX,
        decreases available_present_modes@.len() - i,
    {
        if available_present_modes[i] == PRESENT_MODE_MAILBOX {
            assert(available_present_modes@.contains(PRESENT_MODE_MAILBOX));
            return PRESENT_MODE_MAILBOX;
        }
        i = i + 1;
    }

    assert(!available_present_modes@.contains(PRESENT_MODE_MAILBOX));
    PRESENT_MODE_FIFO
}

/// What the extent selection returns: the surface's current extent when
/// the window system fixed it (width other than `u32::MAX`), else the
/// framebuffer size clamped into the extent range the driver accepts.
pub open spec fn spec_chosen_extent(
    capabilities: SurfaceCapabilities,
    framebuffer_width: u32,
    framebuffer_height: u32,
) -> Extent2D {
    if capabilities.current_extent.width != u32::MAX {
        capabilities.current_extent
    } else {
        Extent2D {
            width: spec_clamp(
                framebuffer_width,
                capabilities.min_image_extent.width,
                capabilities.max_image_extent.width,
            ),
            height: spec_clamp(
                framebuffer_height,
                capabilities.min_image_extent.height,
                capabilities.max_image_extent.height,
            ),
        }
    }
}

/// Resolves the swapchain image extent. When the window system already
/// fixed the surface extent, that extent is kept; otherwise the given
/// framebuffer size is clamped into the range the driver accepts.
pub fn choose_swap_extent(
    capabilities: &SurfaceCapabilities,
    framebuffer_width: u32,
    framebuffer_height: u32,
) -> (r: Extent2D)
    ensures
        r == spec_chosen_extent(*capabilities, framebuffer_width, framebuffer_height),
{
    if capabilities.current_extent.width != u32::MAX {
        return capabilities.current_extent;
    } else {
        let actual_extent = Extent2D {
            width: clamp(
                framebuffer_width,
                capabilities.min_image_extent.width,
                capabilities.max_image_extent.width,
            ),
            height: clamp(
                framebuffer_height,
                capabilities.min_image_extent.height,
                capabilities.max_image_extent.height,
            ),
        };

        actual_extent
    }
}

/// What the image-count selection returns: one more image than the
/// driver's minimum, capped by the driver's maximum when that maximum is
/// a bound (nonzero).
pub open spec fn spec_chosen_image_count(capabilities: SurfaceCapabilities) -> u32 {
    let desired = (capabilities.min_image_count + 1) as u32;
    if capabilities.max_image_count > 0 && desired > capabilities.max_image_count {
        capabilities.max_image_count
    } else {
        desired
    }
}

/// Settles how many images to request for the swapchain: one more than
/// the minimum the driver requires, unless the driver's maximum (when it
/// states one) is lower.
pub fn choose_image_count(capabilities: &SurfaceCapabilities) -> (r: u32)
    requires
        capabilities.min_image_count < u32::MAX,
    ensures
        r == spec_chosen_image_count(*capabilities),
{
    let mut image_count = capabilities.min_image_count + 1;

    if capabilities.max_image_count > 0 && image_count > capabilities.max_image_count {
        image_count = capabilities.max_image_count;
    }

    image_count
}

/// The format selection never invents a format: whatever it settles on
/// is one of the formats the driver offered.
pub proof fn lemma_chosen_format_is_available(s: Seq<SurfaceFormat>, r: SurfaceFormat)
    requires
        s.len() > 0,
        spec_is_chosen_surface_format(s, r),
    ensures
        s.contains(r),
{
    if spec_has_preferred_format(s) {
        let i = choose|i: int|
            0 <= i < s.len() && spec_is_preferred_format(s[i]) && r == s[i] && (forall|j: int|
                0 <= j < i ==> !spec_is_preferred_format(s[j]));
        assert(s[i] == r);
    } else {
        assert(s[0] == r);
    }
}

/// When the window system leaves the extent free and the driver's extent
/// range is coherent (minimum at most maximum along each axis), the
/// chosen extent lies within that range.
pub proof fn lemma_chosen_extent_in_range(
    capabilities: SurfaceCapabilities,
    framebuffer_width: u32,
    framebuffer_height: u32,
)
    requires
        capabilities.current_extent.width == u32::MAX,
        capabilities.min_image_extent.width <= capabilities.max_image_extent.width,
        capabilities.min_image_extent.height <= capabilities.max_image_extent.height,
    ensures
        ({
            let e = spec_chosen_extent(capabilities, framebuffer_width, framebuffer_height);
            &&& capabilities.min_image_extent.width <= e.width <= capabilities.max_image_extent.width
            &&& capabilities.min_image_extent.height <= e.height
                <= capabilities.max_image_extent.height
        }),
{
}

/// When the driver's image-count bounds are coherent, the chosen count
/// respects them: never below the required minimum, and never above the
/// maximum when the driver states one.
pub proof fn lemma_chosen_image_count_in_range(capabilities: SurfaceCapabilities)
    requires
        capabilities.min_image_count < u32::MAX,
        capabilities.max_image_count == 0 || capabilities.min_image_count
            <= capabilities.max_image_count,
    ensures
        spec_chosen_image_count(capabilities) >= capabilities.min_image_count,
        capabilities.max_image_count > 0 ==> spec_chosen_image_count(capabilities)
            <= capabilities.max_image_count,
{
}

/// Assembles the whole swapchain configuration from what the driver
/// reports about the surface and from the window's framebuffer size:
/// the chosen format, presentation mode, extent and image count, single
/// image layers used as color attachments, the surface's current
/// transform kept, the alpha channel ignored, and clipping enabled.
pub fn plan_swap_chain(
    details: &SwapChainSupportDetails,
    framebuffer_width: u32,
    framebuffer_height: u32,
) -> (r: SwapChainPlan)
    requires
        details.formats@.len() > 0,
        details.capabilities.min_image_count < u32::MAX,
    ensures
        spec_is_chosen_surface_format(details.formats@, r.surface_format),
        spec_is_chosen_present_mode(details.present_modes@, r.present_mode),
        r.extent == spec_chosen_extent(details.capabilities, framebuffer_width, framebuffer_height),
        r.min_image_count == spec_chosen_image_count(details.capabilities),
        r.image_array_layers == 1,
        r.image_usage == IMAGE_USAGE_COLOR_ATTACHMENT,
        r.pre_transform == details.capabilities.current_transform,
        r.composite_alpha == COMPOSITE_ALPHA_OPAQUE,
        r.clipped,
{
    let surface_format = choose_swap_surface_format(&details.formats);
    let present_mode = choose_swap_present_mode(&details.present_modes);
    let extent = choose_swap_extent(&details.capabilities, framebuffer_width, framebuffer_height);
    let image_count = choose_image_count(&details.capabilities);

    SwapChainPlan {
        surface_format,
        present_mode,
        extent,
        min_image_count: image_count,
        image_array_layers: 1,
        image_usage: IMAGE_USAGE_COLOR_ATTACHMENT,
        pre_transform: details.capabilities.current_transform,
        composite_alpha: COMPOSITE_ALPHA_OPAQUE,
        clipped: true,
    }
}

} // verus!
