use vstd::prelude::*;

verus! {

/// Width and height of an image, in pixels.
#[derive(Debug, Clone, Copy, PartialEq, Eq, Structural)]
pub struct Extent2D {
    pub width: u32,
    pub height: u32,
}

/// What the window surface allows for swapchain images.
#[derive(Debug, Clone, Copy, PartialEq, Eq, Structural)]
pub struct SurfaceCapabilities {
    pub min_image_count: u32,
    /// Zero when there is no limit.
    pub max_image_count: u32,
    /// `u32::MAX` wide when the swapchain decides the extent.
    pub current_extent: Extent2D,
    pub min_image_extent: Extent2D,
    pub max_image_extent: Extent2D,
}

/// A pixel format and color space the surface supports, as Vulkan enumerates them.
#[derive(Debug, Clone, Copy, PartialEq, Eq, Structural)]
pub struct SurfaceFormat {
    pub format: i32,
    pub color_space: i32,
}

/// `VK_FORMAT_R8G8B8A8_SRGB`.
pub const FORMAT_R8G8B8A8_SRGB: i32 = 43;

/// `VK_FORMAT_B8G8R8A8_SRGB`.
pub const FORMAT_B8G8R8A8_SRGB: i32 = 50;

/// `VK_COLOR_SPACE_SRGB_NONLINEAR_KHR`.
pub const COLOR_SPACE_SRGB_NONLINEAR: i32 = 0;

/// Number of swapchain images: triple buffering, or the surface's minimum if larger, but never
/// above the surface's maximum when it has one.
pub fn select_image_count(capabilities: SurfaceCapabilities) -> (res: usize)
    ensures
        ({
            let preferred = if capabilities.min_image_count >= 3 {
                capabilities.min_image_count as int
            } else {
                3
            };
            res == if capabilities.max_image_count == 0 || preferred
                <= capabilities.max_image_count {
                preferred
            } else {
                capabilities.max_image_count as int
            }
        }),
{
    let no_image_limit = capabilities.max_image_count == 0;
    let preferred_image_count: usize = if capabilities.min_image_count >= 3 {
        capabilities.min_image_count as usize
    } else {
        3
    };
    if no_image_limit {
        preferred_image_count
    } else if preferred_image_count <= capabilities.max_image_count as usize {
        preferred_image_count
    } else {
        capabilities.max_image_count as usize
    }
}

/// Whether a surface format is an sRGB format with 8-bit RGBA or BGRA channels in the sRGB
/// color space.
pub open spec fn good_format(f: SurfaceFormat) -> bool {
    f.color_space == COLOR_SPACE_SRGB_NONLINEAR && (f.format == FORMAT_R8G8B8A8_SRGB || f.format
        == FORMAT_B8G8R8A8_SRGB)
}

/// The first good surface format; `None` where the renderer stops with a panic because the
/// surface offers none.
pub fn select_format(formats: &Vec<SurfaceFormat>) -> (res: Option<SurfaceFormat>)
    ensures
        match res {
            Some(f) => exists|i: int|
                0 <= i < formats@.len() && formats@[i] == f && good_format(f) && forall|j: int|
                    0 <= j < i ==> !#[trigger] good_format(formats@[j]),
            None => forall|i: int| 0 <= i < formats@.len() ==> !#[trigger] good_format(formats@[i]),
        },
{
    let mut i: usize = 0;
    while i < formats.len()
        invariant
            i <= formats@.len(),
            forall|j: int| 0 <= j < i ==> !#[trigger] good_format(formats@[j]),
        decreases formats@.len() - i,
    {
        let format = formats[i];
        let good_color_space = format.color_space == COLOR_SPACE_SRGB_NONLINEAR;
        let good = format.format == FORMAT_R8G8B8A8_SRGB || format.format == FORMAT_B8G8R8A8_SRGB;
        if good_color_space && good {
            return Some(format);
        }
        i = i + 1;
    }
    None
}

pub open spec fn clamp(v: u32, lo: u32, hi: u32) -> u32 {
    if v < lo {
        lo
    } else if v > hi {
        hi
    } else {
        v
    }
}

/// Extent of the swapchain images: the surface's current extent when it fixes one, otherwise
/// the window size clamped to the surface's limits.
pub fn select_extent(capabilities: SurfaceCapabilities, window_size: Extent2D) -> (res: Extent2D)
    requires
        capabilities.current_extent.width == u32::MAX ==> capabilities.min_image_extent.width
            <= capabilities.max_image_extent.width && capabilities.min_image_extent.height
            <= capabilities.max_image_extent.height,
    ensures
        res == if capabilities.current_extent.width != u32::MAX {
            capabilities.current_extent
        } else {
            Extent2D {
                width: clamp(
                    window_size.width,
                    capabilities.min_image_extent.width,
                    capabilities.max_image_extent.width,
                ),
                height: clamp(
                    window_size.height,
                    capabilities.min_image_extent.height,
                    capabilities.max_image_extent.height,
                ),
            }
        },
{
    if capabilities.current_extent.width != u32::MAX {
        return capabilities.current_extent;
    }
    let w = window_size.width;
    let h = window_size.height;
    let width = if w < capabilities.min_image_extent.width {
        capabilities.min_image_extent.width
    } else if w > capabilities.max_image_extent.width {
        capabilities.max_image_extent.width
    } else {
        w
    };
    let height = if h < capabilities.min_image_extent.height {
        capabilities.min_image_extent.height
    } else if h > capabilities.max_image_extent.height {
        capabilities.max_image_extent.height
    } else {
        h
    };
    Extent2D { width, height }
}

/// Whether memory type `i` is allowed by `type_filter` and has all of `properties`.
pub open spec fn memory_type_ok(type_filter: u32, flags: u32, properties: u32, i: int) -> bool {
    type_filter & (1u32 << (i as u32)) != 0 && flags & properties == properties
}

/// Index of the first memory type allowed by `type_filter` whose property flags include
/// `properties`; `None` where the renderer stops with a panic.
pub fn find_memory_type(memory_type_flags: &Vec<u32>, type_filter: u32, properties: u32) -> (res:
    Option<u32>)
    requires
        memory_type_flags@.len() <= 32,
    ensures
        match res {
            Some(i) => i < memory_type_flags@.len() && memory_type_ok(
                type_filter,
                memory_type_flags@[i as int],
                properties,
                i as int,
            ) && forall|j: int|
                0 <= j < i ==> !#[trigger] memory_type_ok(
                    type_filter,
                    memory_type_flags@[j],
                    properties,
                    j,
                ),
            None => forall|j: int|
                0 <= j < memory_type_flags@.len() ==> !#[trigger] memory_type_ok(
                    type_filter,
                    memory_type_flags@[j],
                    properties,
                    j,
                ),
        },
{
    let count = memory_type_flags.len() as u32;
    let mut i: u32 = 0;
    while i < count
        invariant
            count == memory_type_flags@.len(),
            count <= 32,
            i <= count,
            forall|j: int|
                0 <= j < i ==> !#[trigger] memory_type_ok(
                    type_filter,
                    memory_type_flags@[j],
                    properties,
                    j,
                ),
        decreases count - i,
    {
        if type_filter & (1u32 << i) != 0 && (memory_type_flags[i as usize] & properties)
            == properties {
            return Some(i);
        }
        i = i + 1;
    }
    None
}

/// The largest multisampling sample count (of 64, 32, 16, 8, 4 and 2) that both the color and
/// the depth sample count flags allow, or one sample.
pub fn find_max_msaa_samples(color_sample_counts: u32, depth_sample_counts: u32) -> (res: u32)
    ensures
        ({
            let counts = color_sample_counts & depth_sample_counts;
            res == if counts & 64 == 64 {
                64u32
            } else if counts & 32 == 32 {
                32
            } else if counts & 16 == 16 {
                16
            } else if counts & 8 == 8 {
                8
            } else if counts & 4 == 4 {
                4
            } else if counts & 2 == 2 {
                2
            } else {
                1
            }
        }),
{
    let counts = color_sample_counts & depth_sample_counts;
    if counts & 64 == 64 {
        64
    } else if counts & 32 == 32 {
        32
    } else if counts & 16 == 16 {
        16
    } else if counts & 8 == 8 {
        8
    } else if counts & 4 == 4 {
        4
    } else if counts & 2 == 2 {
        2
    } else {
        1
    }
}

/// Index of the first queue family with graphics support that can present to the surface.
pub fn find_suitable_queue(supports_graphics: &Vec<bool>, supports_present: &Vec<bool>) -> (res:
    Option<u32>)
    requires
        supports_graphics@.len() == supports_present@.len(),
        supports_graphics@.len() <= u32::MAX,
    ensures
        match res {
            Some(i) => i < supports_graphics@.len() && supports_graphics@[i as int]
                && supports_present@[i as int] && forall|j: int|
                0 <= j < i ==> !(#[trigger] supports_graphics@[j] && supports_present@[j]),
            None => forall|j: int|
                0 <= j < supports_graphics@.len() ==> !(#[trigger] supports_graphics@[j]
                    && supports_present@[j]),
        },
{
    let mut i: usize = 0;
    while i < supports_graphics.len()
        invariant
            supports_graphics@.len() == supports_present@.len(),
            supports_graphics@.len() <= u32::MAX,
            i <= supports_graphics@.len(),
            forall|j: int|
                0 <= j < i ==> !(#[trigger] supports_graphics@[j] && supports_present@[j]),
        decreases supports_graphics@.len() - i,
    {
        if supports_graphics[i] && supports_present[i] {
            return Some(i as u32);
        }
        i = i + 1;
    }
    None
}

} // verus!
