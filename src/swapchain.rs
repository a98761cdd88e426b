use vstd::prelude::*;

use crate::queue::QueueFamilyIndices;

verus! {

/// Vulkan's code of the 8-bit BGRA format with normalized unsigned channels.
pub const FORMAT_B8G8R8A8_UNORM: u32 = 44;

/// Vulkan's code of the non-linear sRGB color space.
pub const COLOR_SPACE_SRGB_NONLINEAR: u32 = 0;

/// A pixel format and color space pair that a surface offers, as Vulkan codes.
#[derive(Clone, Copy, Debug, PartialEq, Eq, Structural)]
pub struct SurfaceFormat {
    pub format: u32,
    pub color_space: u32,
}

/// The presentation modes that a surface supports.
#[derive(Clone, Copy, Debug, PartialEq, Eq, Structural)]
pub struct PresentModes {
    pub immediate: bool,
    pub mailbox: bool,
    pub fifo: bool,
    pub relaxed: bool,
}

/// How presented images reach the screen.
#[derive(Clone, Copy, Debug, PartialEq, Eq, Structural)]
pub enum PresentMode {
    Immediate,
    Mailbox,
    Fifo,
    FifoRelaxed,
}

/// A width and a height in pixels.
#[derive(Clone, Copy, Debug, PartialEq, Eq, Structural)]
pub struct Extent {
    pub width: u32,
    pub height: u32,
}

/// What a surface reports about the swapchains that may be built on it.
#[derive(Clone, Debug)]
pub struct SurfaceCapabilities {
    pub min_image_count: u32,
    /// `None` when the image count has no upper bound.
    pub max_image_count: Option<u32>,
    /// `None` when the swapchain's size decides the surface's size.
    pub current_extent: Option<Extent>,
    pub min_image_extent: Extent,
    pub max_image_extent: Extent,
    pub formats: Vec<SurfaceFormat>,
    pub present_modes: PresentModes,
}

/// Whether the swapchain's images are owned by one queue family or shared by two.
#[derive(Clone, Copy, Debug, PartialEq, Eq, Structural)]
pub enum SharingMode {
    Exclusive,
    Concurrent,
}

/// Everything the renderer decides before asking the driver for a swapchain.
#[derive(Clone, Copy, Debug, PartialEq, Eq, Structural)]
pub struct SwapchainPlan {
    /// Position of the chosen pair in the surface's list of formats.
    pub format_index: usize,
    pub present_mode: PresentMode,
    pub extent: Extent,
    pub image_count: u32,
    pub sharing: SharingMode,
}

pub open spec fn is_preferred_format(f: SurfaceFormat) -> bool {
    f.format == FORMAT_B8G8R8A8_UNORM && f.color_space == COLOR_SPACE_SRGB_NONLINEAR
}

/// The first preferred pair of the list, or else the first pair.
pub open spec fn format_choice(formats: Seq<SurfaceFormat>) -> int {
    if exists|i: int| 0 <= i < formats.len() && is_preferred_format(#[trigger] formats[i]) {
        choose|i: int|
            0 <= i < formats.len() && is_preferred_format(#[trigger] formats[i]) && forall|j: int|
                0 <= j < i ==> !is_preferred_format(#[trigger] formats[j])
    } else {
        0
    }
}

pub open spec fn present_mode_choice(modes: PresentModes) -> PresentMode {
    if modes.mailbox {
        PresentMode::Mailbox
    } else if modes.immediate {
        PresentMode::Immediate
    } else {
        PresentMode::Fifo
    }
}

/// `v` brought under `hi`, then over `lo`; `lo` wins when the bounds cross.
pub open spec fn clamp_dim(v: u32, lo: u32, hi: u32) -> u32 {
    let capped = if v < hi {
        v
    } else {
        hi
    };
    if lo > capped {
        lo
    } else {
        capped
    }
}

pub open spec fn extent_choice(caps: SurfaceCapabilities, width: u32, height: u32) -> Extent {
    match caps.current_extent {
        Some(e) => e,
        None => Extent {
            width: clamp_dim(width, caps.min_image_extent.width, caps.max_image_extent.width),
            height: clamp_dim(height, caps.min_image_extent.height, caps.max_image_extent.height),
        },
    }
}

pub open spec fn image_count_choice(caps: SurfaceCapabilities) -> u32
    recommends
        caps.min_image_count < u32::MAX,
{
    let wanted = (caps.min_image_count + 1) as u32;
    match caps.max_image_count {
        Some(max) => if wanted > max {
            max
        } else {
            wanted
        },
        None => wanted,
    }
}

pub open spec fn sharing_choice(indices: QueueFamilyIndices) -> SharingMode {
    if indices.graphics_family != indices.present_family {
        SharingMode::Concurrent
    } else {
        SharingMode::Exclusive
    }
}

proof fn lemma_format_choice(formats: Seq<SurfaceFormat>, r: int)
    requires
        0 <= r < formats.len(),
        is_preferred_format(formats[r]),
        forall|j: int| 0 <= j < r ==> !is_preferred_format(#[trigger] formats[j]),
    ensures
        format_choice(formats) == r,
{
    let c = format_choice(formats);
    assert(is_preferred_format(formats[c]));
    if c < r {
        assert(!is_preferred_format(formats[c]));
    } else if c > r {
        assert(!is_preferred_format(formats[r]));
    }
}

/// Picks the surface format: the 8-bit BGRA / non-linear sRGB pair where the surface
/// offers it, the first pair it offers otherwise. Returns the pair's position.
pub fn choose_swap_surface_format(available: &Vec<SurfaceFormat>) -> (r: usize)
    requires
        available.len() > 0,
    ensures
        r < available.len(),
        r == format_choice(available@),
{
    let mut i: usize = 0;
    while i < available.len()
        invariant
            i <= available.len(),
            forall|j: int| 0 <= j < i ==> !is_preferred_format(#[trigger] available@[j]),
        decreases available.len() - i,
    {
        let f = available[i];
        if f.format == FORMAT_B8G8R8A8_UNORM && f.color_space == COLOR_SPACE_SRGB_NONLINEAR {
            proof {
                lemma_format_choice(available@, i as int);
            }
            return i;
        }
        i = i + 1;
    }
    0
}

/// Picks the present mode: mailbox, else immediate, else FIFO, which every surface supports.
pub fn choose_swap_present_mode(available: &PresentModes) -> (r: PresentMode)
    ensures
        r == present_mode_choice(*available),
{
    if available.mailbox {
        PresentMode::Mailbox
    } else if available.immediate {
        PresentMode::Immediate
    } else {
        PresentMode::Fifo
    }
}

fn clamp_between(v: u32, lo: u32, hi: u32) -> (r: u32)
    ensures
        r == clamp_dim(v, lo, hi),
{
    let capped = if v < hi {
        v
    } else {
        hi
    };
    if lo > capped {
        lo
    } else {
        capped
    }
}

/// Picks the swapchain's size: the surface's own size where it reports one, else the
/// requested size clamped into the surface's bounds.
pub fn choose_swap_extent(caps: &SurfaceCapabilities, width: u32, height: u32) -> (r: Extent)
    ensures
        r == extent_choice(*caps, width, height),
{
    match caps.current_extent {
        Some(e) => e,
        None => Extent {
            width: clamp_between(width, caps.min_image_extent.width, caps.max_image_extent.width),
            height: clamp_between(
                height,
                caps.min_image_extent.height,
                caps.max_image_extent.height,
            ),
        },
    }
}

/// One image more than the surface's minimum, held to its maximum where it has one.
pub fn choose_image_count(caps: &SurfaceCapabilities) -> (r: u32)
    requires
        caps.min_image_count < u32::MAX,
    ensures
        r == image_count_choice(*caps),
{
    let wanted = caps.min_image_count + 1;
    match caps.max_image_count {
        Some(max) => if wanted > max {
            max
        } else {
            wanted
        },
        None => wanted,
    }
}

/// Images are shared between two queue families only where drawing and presenting use
/// different ones.
pub fn choose_sharing_mode(indices: &QueueFamilyIndices) -> (r: SharingMode)
    ensures
        r == sharing_choice(*indices),
{
    if indices.graphics_family != indices.present_family {
        SharingMode::Concurrent
    } else {
        SharingMode::Exclusive
    }
}

/// Settles every choice that building a swapchain on this surface takes, for a window of
/// the given size and the given queue families.
pub fn plan_swap_chain(
    caps: &SurfaceCapabilities,
    width: u32,
    height: u32,
    indices: &QueueFamilyIndices,
) -> (r: SwapchainPlan)
    requires
        caps.formats.len() > 0,
        caps.min_image_count < u32::MAX,
    ensures
        r.format_index < caps.formats.len(),
        r.format_index == format_choice(caps.formats@),
        r.present_mode == present_mode_choice(caps.present_modes),
        r.extent == extent_choice(*caps, width, height),
        r.image_count == image_count_choice(*caps),
        r.sharing == sharing_choice(*indices),
{
    SwapchainPlan {
        format_index: choose_swap_surface_format(&caps.formats),
        present_mode: choose_swap_present_mode(&caps.present_modes),
        extent: choose_swap_extent(caps, width, height),
        image_count: choose_image_count(caps),
        sharing: choose_sharing_mode(indices),
    }
}

} // verus!
