//! Swapchain negotiation: surface format, extent and image count are chosen
//! by fixed, deterministic policies from the queried surface capabilities,
//! and recreation on staleness follows a fixed order of steps.

use vstd::prelude::*;

verus! {

/// Numeric code the graphics API assigns to the 8-bit BGRA sRGB pixel format.
pub const FORMAT_B8G8R8A8_SRGB: u32 = 50;

/// Numeric code the graphics API assigns to the non-linear sRGB color space.
pub const COLOR_SPACE_SRGB_NONLINEAR: u32 = 0;

/// A pixel format / color space pair as the surface reports it, by the
/// numeric codes of the graphics API.
#[derive(Clone, Copy, PartialEq, Eq, Structural, Debug)]
pub struct SurfaceFormat {
    /// Pixel format code.
    pub format: u32,
    /// Color space code.
    pub color_space: u32,
}

/// A width/height pair in pixels.
#[derive(Clone, Copy, PartialEq, Eq, Structural, Debug)]
pub struct Extent2d {
    /// Width in pixels.
    pub width: u32,
    /// Height in pixels.
    pub height: u32,
}

/// Surface capabilities as queried for a physical device and surface.
#[derive(Clone, Copy, PartialEq, Eq, Structural, Debug)]
pub struct SurfaceCaps {
    /// Fewest presentable images the surface supports.
    pub min_image_count: u32,
    /// Most presentable images the surface supports; 0 means uncapped.
    pub max_image_count: u32,
    /// Extent the surface currently dictates; a width of `u32::MAX` means
    /// the application chooses the extent itself.
    pub current_extent: Extent2d,
    /// Smallest extent the surface accepts.
    pub min_image_extent: Extent2d,
    /// Largest extent the surface accepts.
    pub max_image_extent: Extent2d,
}

/// The preferred format: 8-bit BGRA sRGB with non-linear sRGB color space.
pub open spec fn is_preferred_format(f: SurfaceFormat) -> bool {
    f.format == FORMAT_B8G8R8A8_SRGB && f.color_space == COLOR_SPACE_SRGB_NONLINEAR
}

/// `i` names the first preferred format of `s`.
pub open spec fn first_preferred_at(s: Seq<SurfaceFormat>, i: int) -> bool {
    &&& 0 <= i < s.len()
    &&& is_preferred_format(s[i])
    &&& forall|j: int| 0 <= j < i ==> !is_preferred_format(s[j])
}

/// Chooses the surface format: the first preferred one when the surface
/// offers any, otherwise the first supported format. A fixed policy, not a
/// negotiation; the surface always reports at least one format.
pub fn choose_surface_format(formats: &Vec<SurfaceFormat>) -> (r: SurfaceFormat)
    requires
        formats@.len() > 0,
    ensures
        (exists|i: int| first_preferred_at(formats@, i)) ==> (exists|i: int|
            first_preferred_at(formats@, i) && r == formats@[i]),
        !(exists|i: int| first_preferred_at(formats@, i)) ==> r == formats@[0],
{
    let mut k: usize = 0;
    while k < formats.len()
        invariant
            k <= formats@.len(),
            forall|j: int| 0 <= j < k ==> !is_preferred_format(formats@[j]),
        decreases formats@.len() - k,
    {
        let f = formats[k];
        if f.format == FORMAT_B8G8R8A8_SRGB && f.color_space == COLOR_SPACE_SRGB_NONLINEAR {
            proof {
                assert(first_preferred_at(formats@, k as int));
            }
            return f;
        }
        k = k + 1;
    }
    proof {
        assert forall|i: int| !first_preferred_at(formats@, i) by {}
    }
    formats[0]
}

/// `x` clamped into `[lo, hi]`.
pub open spec fn spec_clamped(x: int, lo: int, hi: int) -> int {
    if x < lo {
        lo
    } else if x > hi {
        hi
    } else {
        x
    }
}

/// Chooses the swapchain extent: when the surface dictates a defined current
/// extent it is taken verbatim; otherwise the requested size is clamped
/// componentwise into the surface's minimum and maximum extents. The surface
/// reports componentwise ordered bounds.
pub fn choose_extent(caps: &SurfaceCaps, requested: Extent2d) -> (r: Extent2d)
    requires
        caps.min_image_extent.width <= caps.max_image_extent.width,
        caps.min_image_extent.height <= caps.max_image_extent.height,
    ensures
        caps.current_extent.width != u32::MAX ==> r == caps.current_extent,
        caps.current_extent.width == u32::MAX ==> {
            &&& r.width == spec_clamped(
                requested.width as int,
                caps.min_image_extent.width as int,
                caps.max_image_extent.width as int,
            )
            &&& r.height == spec_clamped(
                requested.height as int,
                caps.min_image_extent.height as int,
                caps.max_image_extent.height as int,
            )
        },
{
    if caps.current_extent.width != u32::MAX {
        caps.current_extent
    } else {
        Extent2d {
            width: clamp_u32(
                requested.width,
                caps.min_image_extent.width,
                caps.max_image_extent.width,
            ),
            height: clamp_u32(
                requested.height,
                caps.min_image_extent.height,
                caps.max_image_extent.height,
            ),
        }
    }
}

/// `x` clamped into `[lo, hi]`, for ordered bounds.
pub fn clamp_u32(x: u32, lo: u32, hi: u32) -> (r: u32)
    requires
        lo <= hi,
    ensures
        r == spec_clamped(x as int, lo as int, hi as int),
{
    if x < lo {
        lo
    } else if x > hi {
        hi
    } else {
        x
    }
}

/// Chooses the number of swapchain images: one more than the surface's
/// minimum, capped at the surface's maximum when the surface declares a
/// nonzero cap (0 means uncapped).
pub fn choose_image_count(caps: &SurfaceCaps) -> (r: u32)
    requires
        caps.min_image_count < u32::MAX,
    ensures
        caps.max_image_count == 0 ==> r == caps.min_image_count + 1,
        caps.max_image_count != 0 ==> {
            &&& caps.min_image_count + 1 <= caps.max_image_count ==> r == caps.min_image_count
                + 1
            &&& caps.min_image_count + 1 > caps.max_image_count ==> r == caps.max_image_count
        },
{
    let desired = caps.min_image_count + 1;
    if caps.max_image_count != 0 && desired > caps.max_image_count {
        caps.max_image_count
    } else {
        desired
    }
}

/// Numeric code the graphics API assigns to the FIFO (vsync-equivalent)
/// present mode.
pub const PRESENT_MODE_FIFO: u32 = 2;

/// Chooses the present mode: always FIFO — no tearing and bounded latency
/// variance, a deliberate simplicity choice over adaptive modes, whatever
/// other modes the surface supports.
pub fn choose_present_mode() -> (r: u32)
    ensures
        r == PRESENT_MODE_FIFO,
{
    PRESENT_MODE_FIFO
}

/// Numeric code the graphics API assigns to the two-dimensional image view
/// type.
pub const IMAGE_VIEW_TYPE_2D: u32 = 1;

/// Numeric code the graphics API assigns to the identity component swizzle.
pub const COMPONENT_SWIZZLE_IDENTITY: u32 = 0;

/// Numeric code the graphics API assigns to the color image aspect.
pub const IMAGE_ASPECT_COLOR: u32 = 1;

/// The fixed configuration of one swapchain image view, by the numeric
/// codes of the graphics API.
#[derive(Clone, Copy, PartialEq, Eq, Structural, Debug)]
pub struct ImageViewConfig {
    /// Pixel format code: that of the swapchain images.
    pub format: u32,
    /// View type code.
    pub view_type: u32,
    /// Swizzle code of the red channel.
    pub swizzle_r: u32,
    /// Swizzle code of the green channel.
    pub swizzle_g: u32,
    /// Swizzle code of the blue channel.
    pub swizzle_b: u32,
    /// Swizzle code of the alpha channel.
    pub swizzle_a: u32,
    /// Aspect mask code.
    pub aspect: u32,
    /// First mip level.
    pub base_mip_level: u32,
    /// Number of mip levels.
    pub mip_level_count: u32,
    /// First array layer.
    pub base_array_layer: u32,
    /// Number of array layers.
    pub array_layer_count: u32,
}

/// The configuration of every swapchain image view: a 2D view of the given
/// format with identity channel mapping, color aspect, a single mip level
/// and a single array layer.
pub fn image_view_config(format: u32) -> (r: ImageViewConfig)
    ensures
        r == (ImageViewConfig {
            format,
            view_type: IMAGE_VIEW_TYPE_2D,
            swizzle_r: COMPONENT_SWIZZLE_IDENTITY,
            swizzle_g: COMPONENT_SWIZZLE_IDENTITY,
            swizzle_b: COMPONENT_SWIZZLE_IDENTITY,
            swizzle_a: COMPONENT_SWIZZLE_IDENTITY,
            aspect: IMAGE_ASPECT_COLOR,
            base_mip_level: 0,
            mip_level_count: 1,
            base_array_layer: 0,
            array_layer_count: 1,
        }),
{
    ImageViewConfig {
        format,
        view_type: IMAGE_VIEW_TYPE_2D,
        swizzle_r: COMPONENT_SWIZZLE_IDENTITY,
        swizzle_g: COMPONENT_SWIZZLE_IDENTITY,
        swizzle_b: COMPONENT_SWIZZLE_IDENTITY,
        swizzle_a: COMPONENT_SWIZZLE_IDENTITY,
        aspect: IMAGE_ASPECT_COLOR,
        base_mip_level: 0,
        mip_level_count: 1,
        base_array_layer: 0,
        array_layer_count: 1,
    }
}

/// One step of the swapchain recreation cycle.
#[derive(Clone, Copy, PartialEq, Eq, Structural, Debug)]
pub enum RecreateStep {
    /// Block until the device has finished all outstanding work.
    WaitDeviceIdle,
    /// Destroy the framebuffers bound to the old extent.
    DestroyFramebuffers,
    /// Destroy the old swapchain's image views.
    DestroyImageViews,
    /// Destroy the old swapchain.
    DestroySwapchain,
    /// Create the new swapchain from the current surface capabilities.
    CreateSwapchain,
    /// Create one image view per new swapchain image.
    CreateImageViews,
    /// Create one framebuffer per new image view, at the new extent.
    CreateFramebuffers,
}

/// The fixed order of a recreation cycle: wait for device idle, destroy the
/// extent-dependent objects (framebuffers, image views, swapchain), then
/// create them anew. The render pass and pipeline depend on the format only
/// and are never recreated.
pub open spec fn spec_recreation_order() -> Seq<RecreateStep> {
    seq![
        RecreateStep::WaitDeviceIdle,
        RecreateStep::DestroyFramebuffers,
        RecreateStep::DestroyImageViews,
        RecreateStep::DestroySwapchain,
        RecreateStep::CreateSwapchain,
        RecreateStep::CreateImageViews,
        RecreateStep::CreateFramebuffers,
    ]
}

/// The steps of one recreation cycle, in the order they must run.
pub fn recreation_steps() -> (r: Vec<RecreateStep>)
    ensures
        r@ == spec_recreation_order(),
{
    let mut v: Vec<RecreateStep> = Vec::new();
    v.push(RecreateStep::WaitDeviceIdle);
    v.push(RecreateStep::DestroyFramebuffers);
    v.push(RecreateStep::DestroyImageViews);
    v.push(RecreateStep::DestroySwapchain);
    v.push(RecreateStep::CreateSwapchain);
    v.push(RecreateStep::CreateImageViews);
    v.push(RecreateStep::CreateFramebuffers);
    proof {
        assert(v@ =~= spec_recreation_order());
    }
    v
}

/// Nothing is destroyed or created during a recreation cycle before the
/// device-idle wait: the wait is the first step and occurs exactly once.
pub proof fn lemma_recreation_waits_first()
    ensures
        spec_recreation_order()[0] == RecreateStep::WaitDeviceIdle,
        forall|i: int|
            0 < i < spec_recreation_order().len() ==> spec_recreation_order()[i]
                != RecreateStep::WaitDeviceIdle,
{
}

} // verus!
