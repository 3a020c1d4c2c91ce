//! Swapchain configuration: surface format, present mode, extent, image
//! count and queue sharing, resolved from what the surface reports.

use vstd::prelude::*;

use crate::device::QueueFamilyIndices;

verus! {

/// Host-API code for the 8-bit BGRA format with an sRGB transfer function.
pub const FORMAT_B8G8R8A8_SRGB: u32 = 50;

/// Host-API code for the sRGB nonlinear color space.
pub const COLOR_SPACE_SRGB_NONLINEAR: u32 = 0;

/// Host-API code for the mailbox present mode (low-latency triple buffering).
pub const PRESENT_MODE_MAILBOX: u32 = 1;

/// Host-API code for the FIFO present mode (always supported, vsync).
pub const PRESENT_MODE_FIFO: u32 = 2;

/// Sentinel width meaning the surface leaves the extent to the application.
pub const EXTENT_UNDEFINED: u32 = 0xffff_ffff;

/// A pixel format paired with a color space, as the surface reports them.
#[derive(Clone, Copy, Debug, PartialEq, Eq, Structural)]
pub struct SurfaceFormat {
    pub format: u32,
    pub color_space: u32,
}

/// A two-dimensional pixel extent.
#[derive(Clone, Copy, Debug, PartialEq, Eq, Structural)]
pub struct Extent2D {
    pub width: u32,
    pub height: u32,
}

/// Surface capabilities that constrain swapchain creation.
#[derive(Clone, Copy, Debug, PartialEq, Eq, Structural)]
pub struct SurfaceCapabilities {
    pub min_image_count: u32,
    /// Zero means the surface imposes no upper bound.
    pub max_image_count: u32,
    pub current_extent: Extent2D,
    pub min_image_extent: Extent2D,
    pub max_image_extent: Extent2D,
}

/// Everything the surface reports that swapchain creation depends on.
#[derive(Clone, Debug)]
pub struct SwapchainSupport {
    pub capabilities: SurfaceCapabilities,
    pub formats: Vec<SurfaceFormat>,
    pub present_modes: Vec<u32>,
}

/// How the swapchain images are shared between queue families.
#[derive(Clone, Copy, Debug, PartialEq, Eq, Structural)]
pub enum SharingMode {
    Exclusive,
    Concurrent,
}

/// The preferred format: 8-bit BGRA sRGB with the sRGB nonlinear color space.
pub open spec fn preferred_format(f: SurfaceFormat) -> bool {
    f.format == FORMAT_B8G8R8A8_SRGB && f.color_space == COLOR_SPACE_SRGB_NONLINEAR
}

/// The first preferred entry of `formats`, if any.
pub open spec fn spec_find_preferred(formats: Seq<SurfaceFormat>) -> Option<SurfaceFormat>
    decreases formats.len(),
{
    if formats.len() == 0 {
        None
    } else if preferred_format(formats[0]) {
        Some(formats[0])
    } else {
        spec_find_preferred(formats.drop_first())
    }
}

/// The format selection rule: the first preferred entry, else the first entry.
pub open spec fn spec_choose_format(formats: Seq<SurfaceFormat>) -> SurfaceFormat
    recommends
        formats.len() > 0,
{
    match spec_find_preferred(formats) {
        Some(f) => f,
        None => formats[0],
    }
}

/// Picks the surface format: the first reported format that is 8-bit BGRA
/// sRGB with the sRGB nonlinear color space, else the first reported format.
pub fn choose_surface_format(formats: &Vec<SurfaceFormat>) -> (r: SurfaceFormat)
    requires
        formats@.len() > 0,
    ensures
        r == spec_choose_format(formats@),
{
    let n = formats.len();
    let mut i: usize = 0;
    proof {
        assert(formats@.skip(0) =~= formats@);
    }
    while i < n
        invariant
            n == formats@.len(),
            0 < n,
            i <= n,
            spec_find_preferred(formats@) == spec_find_preferred(formats@.skip(i as int)),
        decreases n - i,
    {
        let f = formats[i];
        proof {
            assert(formats@.skip(i as int)[0] == formats@[i as int]);
            assert(formats@.skip(i as int).drop_first() =~= formats@.skip(i + 1));
        }
        if f.format == FORMAT_B8G8R8A8_SRGB && f.color_space == COLOR_SPACE_SRGB_NONLINEAR {
            return f;
        }
        i = i + 1;
    }
    proof {
        assert(formats@.skip(n as int).len() == 0);
    }
    formats[0]
}

/// The present mode rule: mailbox when offered, else FIFO.
pub open spec fn spec_choose_present_mode(modes: Seq<u32>) -> u32 {
    if modes.contains(PRESENT_MODE_MAILBOX) {
        PRESENT_MODE_MAILBOX
    } else {
        PRESENT_MODE_FIFO
    }
}

/// Picks the present mode: mailbox when the surface offers it, else FIFO,
/// which every surface supports.
pub fn choose_present_mode(modes: &Vec<u32>) -> (r: u32)
    ensures
        r == spec_choose_present_mode(modes@),
{
    let n = modes.len();
    let mut i: usize = 0;
    while i < n
        invariant
            n == modes@.len(),
            i <= n,
            forall|j: int| 0 <= j < i ==> modes@[j] != PRESENT_MODE_MAILBOX,
        decreases n - i,
    {
        if modes[i] == PRESENT_MODE_MAILBOX {
            return PRESENT_MODE_MAILBOX;
        }
        i = i + 1;
    }
    PRESENT_MODE_FIFO
}

/// Clamp of `v` into `[min, max]`, written as the implementation computes it.
pub open spec fn spec_clamp(min: u32, max: u32, v: u32) -> u32 {
    if (if v < max {
        v
    } else {
        max
    }) < min {
        min
    } else if v < max {
        v
    } else {
        max
    }
}

/// The extent rule: the surface's current extent unless its width is the
/// undefined sentinel, in which case the window size clamped into the
/// reported bounds.
pub open spec fn spec_choose_extent(caps: SurfaceCapabilities, window: Extent2D) -> Extent2D {
    if caps.current_extent.width != EXTENT_UNDEFINED {
        caps.current_extent
    } else {
        Extent2D {
            width: spec_clamp(
                caps.min_image_extent.width,
                caps.max_image_extent.width,
                window.width,
            ),
            height: spec_clamp(
                caps.min_image_extent.height,
                caps.max_image_extent.height,
                window.height,
            ),
        }
    }
}

/// Resolves the swapchain extent from the surface capabilities and the
/// window's pixel size.
pub fn choose_extent(caps: &SurfaceCapabilities, window: Extent2D) -> (r: Extent2D)
    ensures
        r == spec_choose_extent(*caps, window),
{
    if caps.current_extent.width != EXTENT_UNDEFINED {
        caps.current_extent
    } else {
        let w_hi = if window.width < caps.max_image_extent.width {
            window.width
        } else {
            caps.max_image_extent.width
        };
        let w = if w_hi < caps.min_image_extent.width {
            caps.min_image_extent.width
        } else {
            w_hi
        };
        let h_hi = if window.height < caps.max_image_extent.height {
            window.height
        } else {
            caps.max_image_extent.height
        };
        let h = if h_hi < caps.min_image_extent.height {
            caps.min_image_extent.height
        } else {
            h_hi
        };
        Extent2D { width: w, height: h }
    }
}

/// The image count rule: one more than the reported minimum, capped by the
/// reported maximum when that cap is nonzero.
pub open spec fn spec_choose_image_count(caps: SurfaceCapabilities) -> u32 {
    if caps.max_image_count != 0 && caps.min_image_count + 1 > caps.max_image_count {
        caps.max_image_count
    } else {
        (caps.min_image_count + 1) as u32
    }
}

/// Resolves how many images the swapchain asks for.
pub fn choose_image_count(caps: &SurfaceCapabilities) -> (r: u32)
    requires
        caps.min_image_count < u32::MAX,
    ensures
        r == spec_choose_image_count(*caps),
{
    let mut count = caps.min_image_count + 1;
    if caps.max_image_count != 0 && count > caps.max_image_count {
        count = caps.max_image_count;
    }
    count
}

/// The resolved parameters a swapchain is created with.
#[derive(Clone, Debug, PartialEq)]
pub struct SwapchainConfig {
    pub format: SurfaceFormat,
    pub present_mode: u32,
    pub extent: Extent2D,
    pub image_count: u32,
    pub sharing_mode: SharingMode,
    /// Queue families listed on the swapchain: both indices under concurrent
    /// sharing, none under exclusive sharing.
    pub queue_family_indices: Vec<u32>,
}

/// Resolves every swapchain creation parameter from the surface report, the
/// window size and the chosen queue families.  Images are shared
/// concurrently between the graphics and present families only when they
/// differ.
pub fn resolve_swapchain_config(
    support: &SwapchainSupport,
    window: Extent2D,
    indices: QueueFamilyIndices,
) -> (r: SwapchainConfig)
    requires
        support.formats@.len() > 0,
        support.capabilities.min_image_count < u32::MAX,
    ensures
        r.format == spec_choose_format(support.formats@),
        r.present_mode == spec_choose_present_mode(support.present_modes@),
        r.extent == spec_choose_extent(support.capabilities, window),
        r.image_count == spec_choose_image_count(support.capabilities),
        indices.graphics != indices.present ==> {
            &&& r.sharing_mode == SharingMode::Concurrent
            &&& r.queue_family_indices@ == seq![indices.graphics, indices.present]
        },
        indices.graphics == indices.present ==> {
            &&& r.sharing_mode == SharingMode::Exclusive
            &&& r.queue_family_indices@.len() == 0
        },
{
    let format = choose_surface_format(&support.formats);
    let present_mode = choose_present_mode(&support.present_modes);
    let extent = choose_extent(&support.capabilities, window);
    let image_count = choose_image_count(&support.capabilities);

    let mut queue_family_indices: Vec<u32> = Vec::new();
    let sharing_mode = if indices.graphics != indices.present {
        queue_family_indices.push(indices.graphics);
        queue_family_indices.push(indices.present);
        SharingMode::Concurrent
    } else {
        SharingMode::Exclusive
    };
    proof {
        if indices.graphics != indices.present {
            assert(queue_family_indices@ =~= seq![indices.graphics, indices.present]);
        }
    }
    SwapchainConfig {
        format,
        present_mode,
        extent,
        image_count,
        sharing_mode,
        queue_family_indices,
    }
}

/// A live swapchain's handles: images, their views, and the framebuffers
/// built on them, one of each per image.
#[derive(Clone, Debug)]
pub struct SwapchainState {
    pub config: SwapchainConfig,
    pub images: Vec<u64>,
    pub image_views: Vec<u64>,
    pub framebuffers: Vec<u64>,
}

impl SwapchainState {
    /// Image views and framebuffers pair up with the images one to one.
    pub open spec fn wf(&self) -> bool {
        &&& self.image_views@.len() == self.images@.len()
        &&& self.framebuffers@.len() == self.images@.len()
    }

    /// Assembles a swapchain state from the resolved configuration and the
    /// handles the host API returned for it.
    pub fn assemble(
        config: SwapchainConfig,
        images: Vec<u64>,
        image_views: Vec<u64>,
        framebuffers: Vec<u64>,
    ) -> (r: SwapchainState)
        requires
            image_views@.len() == images@.len(),
            framebuffers@.len() == images@.len(),
        ensures
            r.wf(),
            r.config == config,
            r.images == images,
            r.image_views == image_views,
            r.framebuffers == framebuffers,
    {
        SwapchainState { config, images, image_views, framebuffers }
    }
}

} // verus!
