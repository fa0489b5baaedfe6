//! The presentation surface's configuration: which pixel format, present
//! mode, extent and image count a new surface generation is created with,
//! chosen from what the device reports.

use vstd::prelude::*;
use crate::math::vec2::Vec2UI;

verus! {

/// The Vulkan format value of an undefined format.
pub const FORMAT_UNDEFINED: u32 = 0;

/// The preferred pixel format (the Vulkan B8G8R8A8_UNORM value).
pub const FORMAT_B8G8R8A8_UNORM: u32 = 44;

/// The preferred colour space (the Vulkan SRGB_NONLINEAR value).
pub const COLOR_SPACE_SRGB_NONLINEAR: u32 = 0;

/// The fallback present mode (the Vulkan IMMEDIATE value).
pub const PRESENT_MODE_IMMEDIATE: u32 = 0;

/// The preferred low-latency present mode (the Vulkan MAILBOX value).
pub const PRESENT_MODE_MAILBOX: u32 = 1;

/// The vsync-safe present mode (the Vulkan FIFO value).
pub const PRESENT_MODE_FIFO: u32 = 2;

#[derive(Clone, Copy, Debug, PartialEq, Eq, Structural)]
pub struct SurfaceFormat {
    pub format: u32,
    pub color_space: u32,
}

#[derive(Clone, Copy)]
pub struct SurfaceCapabilities {
    pub min_image_count: u32,
    pub max_image_count: u32,
    pub current_extent: Vec2UI,
}

#[derive(Clone, Copy)]
pub struct SwapchainProperties {
    pub format: SurfaceFormat,
    pub present_mode: u32,
    pub extent: Vec2UI,
}

/// What the device reports about the surface it would present to.
pub struct SwapchainSupportDetails {
    pub capabilities: SurfaceCapabilities,
    pub formats: Vec<SurfaceFormat>,
    pub present_modes: Vec<u32>,
    pub depth_format: Option<u32>,
}

pub open spec fn preferred_surface_format() -> SurfaceFormat {
    SurfaceFormat { format: FORMAT_B8G8R8A8_UNORM, color_space: COLOR_SPACE_SRGB_NONLINEAR }
}

/// The selection policy for the pixel format: a sole undefined entry means
/// free choice, else the preferred pair when reported, else the first entry.
pub open spec fn chosen_surface_format(formats: Seq<SurfaceFormat>) -> SurfaceFormat {
    if formats.len() == 1 && formats[0].format == FORMAT_UNDEFINED {
        preferred_surface_format()
    } else if formats.contains(preferred_surface_format()) {
        preferred_surface_format()
    } else {
        formats[0]
    }
}

/// The selection policy for the present mode: the low-latency mode when
/// offered, else the vsync-safe mode when offered, else immediate.
pub open spec fn chosen_present_mode(modes: Seq<u32>) -> u32 {
    if modes.contains(PRESENT_MODE_MAILBOX) {
        PRESENT_MODE_MAILBOX
    } else if modes.contains(PRESENT_MODE_FIFO) {
        PRESENT_MODE_FIFO
    } else {
        PRESENT_MODE_IMMEDIATE
    }
}

impl SwapchainSupportDetails {
    /// The configuration a new surface generation is created with.
    pub fn get_ideal_swapchain_properties(&self) -> (r: SwapchainProperties)
        requires
            self.formats@.len() >= 1,
        ensures
            r.format == chosen_surface_format(self.formats@),
            r.present_mode == chosen_present_mode(self.present_modes@),
            r.extent == self.capabilities.current_extent,
    {
        let format = choose_swapchain_surface_format(&self.formats);
        let present_mode = choose_swapchain_surface_present_mode(&self.present_modes);
        let extent = self.capabilities.current_extent;
        SwapchainProperties { format, present_mode, extent }
    }
}

/// How many images the surface is created with: one more than the reported
/// minimum, clamped to the reported maximum when there is one (zero means
/// unbounded).
pub fn choose_image_count(min_image_count: u32, max_image_count: u32) -> (r: u32)
    requires
        min_image_count < u32::MAX,
    ensures
        r == if max_image_count > 0 && min_image_count + 1 > max_image_count {
            max_image_count as int
        } else {
            min_image_count + 1
        },
{
    let preferred = min_image_count + 1;
    if max_image_count > 0 && preferred > max_image_count {
        max_image_count
    } else {
        preferred
    }
}

fn choose_swapchain_surface_format(formats: &Vec<SurfaceFormat>) -> (r: SurfaceFormat)
    requires
        formats@.len() >= 1,
    ensures
        r == chosen_surface_format(formats@),
{
    if formats.len() == 1 && formats[0].format == FORMAT_UNDEFINED {
        return SurfaceFormat {
            format: FORMAT_B8G8R8A8_UNORM,
            color_space: COLOR_SPACE_SRGB_NONLINEAR,
        };
    }
    let mut i: usize = 0;
    while i < formats.len()
        invariant
            i <= formats@.len(),
            forall|j: int| 0 <= j < i ==> formats@[j] != preferred_surface_format(),
        decreases formats@.len() - i,
    {
        if formats[i].format == FORMAT_B8G8R8A8_UNORM && formats[i].color_space
            == COLOR_SPACE_SRGB_NONLINEAR {
            assert(formats@[i as int] == preferred_surface_format());
            assert(formats@.contains(preferred_surface_format()));
            return formats[i];
        }
        i = i + 1;
    }
    assert(!formats@.contains(preferred_surface_format()));
    formats[0]
}

fn contains_mode(modes: &Vec<u32>, mode: u32) -> (r: bool)
    ensures
        r == modes@.contains(mode),
{
    let mut i: usize = 0;
    while i < modes.len()
        invariant
            i <= modes@.len(),
            forall|j: int| 0 <= j < i ==> modes@[j] != mode,
        decreases modes@.len() - i,
    {
        if modes[i] == mode {
            assert(modes@[i as int] == mode);
            return true;
        }
        i = i + 1;
    }
    false
}

fn choose_swapchain_surface_present_mode(modes: &Vec<u32>) -> (r: u32)
    ensures
        r == chosen_present_mode(modes@),
{
    if contains_mode(modes, PRESENT_MODE_MAILBOX) {
        PRESENT_MODE_MAILBOX
    } else if contains_mode(modes, PRESENT_MODE_FIFO) {
        PRESENT_MODE_FIFO
    } else {
        PRESENT_MODE_IMMEDIATE
    }
}

} // verus!
