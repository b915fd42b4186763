//! The render output: the swapchain tied to a window surface, and its images.

use crate::render_device::RenderDevice;
use crate::render_system::RenderSystem;
use vstd::prelude::*;

verus! {

/// Width and height of a drawable area, in pixels.
#[derive(Clone, Copy, Debug, PartialEq, Eq, Structural)]
pub struct Extent {
    pub width: u32,
    pub height: u32,
}

impl Extent {
    /// The area holds no pixel, as that of a minimized window.
    pub open spec fn empty(self) -> bool {
        self.width == 0 || self.height == 0
    }

    pub fn is_empty(&self) -> (r: bool)
        ensures
            r == self.empty(),
    {
        self.width == 0 || self.height == 0
    }
}

/// A pixel format, by its Vulkan number.
#[derive(Clone, Copy, Debug, PartialEq, Eq, Structural)]
pub struct Format {
    pub raw: i32,
}

/// A color space, by its Vulkan number.
#[derive(Clone, Copy, Debug, PartialEq, Eq, Structural)]
pub struct ColorSpace {
    pub raw: i32,
}

/// How the alpha values of the window's pixels are treated.
#[derive(Clone, Copy, Debug, PartialEq, Eq, Structural)]
pub enum CompositeAlpha {
    Opaque,
    PreMultiplied,
    PostMultiplied,
    Inherit,
}

/// The composite alpha modes that a surface supports.
#[derive(Clone, Copy, Debug, PartialEq, Eq, Structural)]
pub struct SupportedCompositeAlpha {
    pub opaque: bool,
    pub pre_multiplied: bool,
    pub post_multiplied: bool,
    pub inherit: bool,
}

impl SupportedCompositeAlpha {
    /// The first supported mode, in the order opaque, pre-multiplied,
    /// post-multiplied, inherit.
    pub open spec fn first(self) -> Option<CompositeAlpha> {
        if self.opaque {
            Some(CompositeAlpha::Opaque)
        } else if self.pre_multiplied {
            Some(CompositeAlpha::PreMultiplied)
        } else if self.post_multiplied {
            Some(CompositeAlpha::PostMultiplied)
        } else if self.inherit {
            Some(CompositeAlpha::Inherit)
        } else {
            None
        }
    }
}

/// What the images of a swapchain may be used for.
#[derive(Clone, Copy, Debug, PartialEq, Eq, Structural)]
pub struct ImageUsage {
    pub transfer_src: bool,
    pub transfer_dst: bool,
    pub sampled: bool,
    pub storage: bool,
    pub color_attachment: bool,
    pub depth_stencil_attachment: bool,
    pub transient_attachment: bool,
    pub input_attachment: bool,
}

impl ImageUsage {
    /// Use as a color attachment, and nothing else.
    pub open spec fn color_attachment_only() -> ImageUsage {
        ImageUsage {
            transfer_src: false,
            transfer_dst: false,
            sampled: false,
            storage: false,
            color_attachment: true,
            depth_stencil_attachment: false,
            transient_attachment: false,
            input_attachment: false,
        }
    }
}

/// What a surface reports of itself to a device.
#[derive(Clone, Copy, Debug, PartialEq, Eq, Structural)]
pub struct SurfaceCapabilities {
    pub min_image_count: u32,
    pub supported_composite_alpha: SupportedCompositeAlpha,
}

/// A window surface as the chosen device sees it.
#[derive(Clone, Debug, PartialEq, Eq)]
pub struct Surface {
    pub capabilities: SurfaceCapabilities,
    /// The supported formats, in the order the device reports them.
    pub formats: Vec<(Format, ColorSpace)>,
    /// The inner size of the window behind the surface.
    pub window_inner_size: Extent,
}

/// The parameters that a swapchain is created with.
#[derive(Clone, Copy, Debug, PartialEq, Eq, Structural)]
pub struct SwapchainCreateInfo {
    pub min_image_count: u32,
    pub image_format: Format,
    pub image_extent: Extent,
    pub image_usage: ImageUsage,
    pub composite_alpha: CompositeAlpha,
}

impl SwapchainCreateInfo {
    /// The same parameters with another extent.
    pub open spec fn with_extent(self, image_extent: Extent) -> SwapchainCreateInfo {
        SwapchainCreateInfo { image_extent, ..self }
    }
}

/// Why no swapchain came to be.
#[derive(Clone, Copy, Debug, PartialEq, Eq, Structural)]
pub enum SwapchainError {
    /// The surface reports no format.
    NoSurfaceFormat,
    /// The surface supports no composite alpha mode.
    NoCompositeAlpha,
    /// The presentation engine handed out no image.
    NoImages,
    /// The surface does not support the requested extent right now.
    ImageExtentNotSupported,
    /// The presentation engine refused for another reason.
    Rejected,
}

impl SwapchainError {
    /// The failure passes by itself: the caller keeps what it has and tries
    /// again on a later tick.
    pub open spec fn recoverable(self) -> bool {
        self is ImageExtentNotSupported
    }

    pub fn is_recoverable(&self) -> (r: bool)
        ensures
            r == self.recoverable(),
    {
        match self {
            SwapchainError::ImageExtentNotSupported => true,
            _ => false,
        }
    }
}

/// A swapchain: its identity and the parameters it was created with, fixed
/// for its lifetime.
#[derive(Clone, Copy, Debug, PartialEq, Eq, Structural)]
pub struct Swapchain {
    pub id: u64,
    pub create_info: SwapchainCreateInfo,
}

impl Swapchain {
    /// The swapchain that replaces `self`, and its image count, when the window's size is `new_extent` and the
    /// presentation engine answers `reply` to the request: the image count
    /// of the new swapchain, or its refusal.
    pub open spec fn recreated(
        self,
        new_extent: Extent,
        reply: Result<u32, SwapchainError>,
    ) -> Result<(Swapchain, u32), SwapchainError> {
        if new_extent.empty() {
            Err(SwapchainError::ImageExtentNotSupported)
        } else {
            match reply {
                Err(error) => Err(error),
                Ok(image_count) => if image_count == 0 {
                    Err(SwapchainError::NoImages)
                } else {
                    Ok(
                        (
                            Swapchain {
                                id: next_swapchain_id(self.id),
                                create_info: self.create_info.with_extent(new_extent),
                            },
                            image_count,
                        ),
                    )
                },
            }
        }
    }
}

/// One presentable image of a swapchain.
#[derive(Clone, Copy, Debug, PartialEq, Eq, Structural)]
pub struct SwapchainImage {
    /// The swapchain that owns the image.
    pub swapchain: u64,
    /// Position of the image among the swapchain's images.
    pub index: u32,
    pub extent: Extent,
}

/// The identity of the swapchain that replaces swapchain `id`.
pub open spec fn next_swapchain_id(id: u64) -> u64 {
    if id == u64::MAX {
        0
    } else {
        (id + 1) as u64
    }
}

/// Image `index` of `swapchain`.
pub open spec fn image_of(swapchain: Swapchain, index: int) -> SwapchainImage {
    SwapchainImage {
        swapchain: swapchain.id,
        index: index as u32,
        extent: swapchain.create_info.image_extent,
    }
}

/// The parameters of the first swapchain on `surface`: the first reported
/// format, the first supported composite alpha mode, the surface's minimum
/// image count, the window's size, and use as a color attachment only.
pub open spec fn initial_create_info(surface: Surface) -> Result<SwapchainCreateInfo, SwapchainError> {
    if surface.formats@.len() == 0 {
        Err(SwapchainError::NoSurfaceFormat)
    } else {
        match surface.capabilities.supported_composite_alpha.first() {
            None => Err(SwapchainError::NoCompositeAlpha),
            Some(composite_alpha) => Ok(
                SwapchainCreateInfo {
                    min_image_count: surface.capabilities.min_image_count,
                    image_format: surface.formats@[0].0,
                    image_extent: surface.window_inner_size,
                    image_usage: ImageUsage::color_attachment_only(),
                    composite_alpha,
                },
            ),
        }
    }
}

/// The first item of `vulkano::swapchain::SupportedCompositeAlpha::iter`,
/// which walks the modes in the order opaque, pre-multiplied,
/// post-multiplied, inherit and keeps the supported ones.
#[verifier::external_body]
fn first_composite_alpha(supported: SupportedCompositeAlpha) -> (r: Option<CompositeAlpha>)
    ensures
        r == supported.first(),
{
    let flags = vulkano::swapchain::SupportedCompositeAlpha {
        opaque: supported.opaque,
        pre_multiplied: supported.pre_multiplied,
        post_multiplied: supported.post_multiplied,
        inherit: supported.inherit,
        ..vulkano::swapchain::SupportedCompositeAlpha::empty()
    };
    match flags.iter().next() {
        Some(vulkano::swapchain::CompositeAlpha::Opaque) => Some(CompositeAlpha::Opaque),
        Some(vulkano::swapchain::CompositeAlpha::PreMultiplied) => Some(CompositeAlpha::PreMultiplied),
        Some(vulkano::swapchain::CompositeAlpha::PostMultiplied) => Some(CompositeAlpha::PostMultiplied),
        Some(vulkano::swapchain::CompositeAlpha::Inherit) => Some(CompositeAlpha::Inherit),
        _ => None,
    }
}

/// The images of `swapchain`, `count` of them, in index order.
fn swapchain_images(swapchain: Swapchain, count: u32) -> (images: Vec<SwapchainImage>)
    ensures
        images@.len() == count,
        forall|i: int| 0 <= i < count ==> #[trigger] images@[i] == image_of(swapchain, i),
{
    let mut images: Vec<SwapchainImage> = Vec::new();
    let mut index: u32 = 0;
    while index < count
        invariant
            index <= count,
            images@.len() == index,
            forall|i: int| 0 <= i < index ==> #[trigger] images@[i] == image_of(swapchain, i),
        decreases count - index,
    {
        images.push(
            SwapchainImage {
                swapchain: swapchain.id,
                index,
                extent: swapchain.create_info.image_extent,
            },
        );
        index += 1;
    }
    images
}

/// The swapchain in use and its presentable images.
#[derive(Clone, Debug, PartialEq, Eq)]
pub struct RenderOutput {
    pub swapchain: Swapchain,
    pub images: Vec<SwapchainImage>,
}

impl RenderOutput {
    /// There is at least one image, and the images are those of the
    /// swapchain, in index order.
    pub open spec fn wf(self) -> bool {
        &&& 1 <= self.images@.len() <= u32::MAX
        &&& forall|i: int|
            0 <= i < self.images@.len() ==> #[trigger] self.images@[i] == image_of(self.swapchain, i)
    }

    /// This output is `swapchain` with `image_count` images.
    pub open spec fn holds(self, swapchain: Swapchain, image_count: u32) -> bool {
        &&& self.wf()
        &&& self.swapchain == swapchain
        &&& self.images@.len() == image_count
    }

    /// Plans the first swapchain on `surface`.
    pub fn create_info(surface: &Surface) -> (r: Result<SwapchainCreateInfo, SwapchainError>)
        ensures
            r == initial_create_info(*surface),
    {
        if surface.formats.len() == 0 {
            return Err(SwapchainError::NoSurfaceFormat);
        }
        let image_format = surface.formats[0].0;
        match first_composite_alpha(surface.capabilities.supported_composite_alpha) {
            None => Err(SwapchainError::NoCompositeAlpha),
            Some(composite_alpha) => Ok(
                SwapchainCreateInfo {
                    min_image_count: surface.capabilities.min_image_count,
                    image_format,
                    image_extent: surface.window_inner_size,
                    image_usage: ImageUsage {
                        transfer_src: false,
                        transfer_dst: false,
                        sampled: false,
                        storage: false,
                        color_attachment: true,
                        depth_stencil_attachment: false,
                        transient_attachment: false,
                        input_attachment: false,
                    },
                    composite_alpha,
                },
            ),
        }
    }

    /// The first swapchain on `surface`, of which the presentation engine
    /// handed out `image_count` images.
    pub fn new(
        _render_system: &RenderSystem,
        _render_device: &RenderDevice,
        surface: &Surface,
        image_count: u32,
    ) -> (r: Result<RenderOutput, SwapchainError>)
        ensures
            match initial_create_info(*surface) {
                Err(error) => r == Err::<RenderOutput, SwapchainError>(error),
                Ok(create_info) => if image_count == 0 {
                    r == Err::<RenderOutput, SwapchainError>(SwapchainError::NoImages)
                } else {
                    r matches Ok(output) && output.holds(Swapchain { id: 0, create_info }, image_count)
                },
            },
    {
        match RenderOutput::create_info(surface) {
            Err(error) => Err(error),
            Ok(create_info) => {
                if image_count == 0 {
                    return Err(SwapchainError::NoImages);
                }
                let swapchain = Swapchain { id: 0, create_info };
                Ok(RenderOutput { swapchain, images: swapchain_images(swapchain, image_count) })
            },
        }
    }

    /// The parameters to recreate the swapchain with when the window's size
    /// has become `new_extent`: those of the swapchain in use, but for the
    /// extent. An empty extent is not asked for.
    pub fn recreate_info(&self, new_extent: Extent) -> (r: Result<SwapchainCreateInfo, SwapchainError>)
        ensures
            r == if new_extent.empty() {
                Err::<SwapchainCreateInfo, SwapchainError>(SwapchainError::ImageExtentNotSupported)
            } else {
                Ok(self.swapchain.create_info.with_extent(new_extent))
            },
    {
        if new_extent.is_empty() {
            return Err(SwapchainError::ImageExtentNotSupported);
        }
        let old = self.swapchain.create_info;
        Ok(
            SwapchainCreateInfo {
                min_image_count: old.min_image_count,
                image_format: old.image_format,
                image_extent: new_extent,
                image_usage: old.image_usage,
                composite_alpha: old.composite_alpha,
            },
        )
    }

    /// The output that replaces this one. `reply` is the presentation
    /// engine's answer to the request of `recreate_info`: the number of
    /// images of the new swapchain, or its refusal. The old output is left as
    /// it is, whatever the answer.
    pub fn recreate(&self, new_extent: Extent, reply: Result<u32, SwapchainError>) -> (r: Result<
        RenderOutput,
        SwapchainError,
    >)
        ensures
            match self.swapchain.recreated(new_extent, reply) {
                Err(error) => r == Err::<RenderOutput, SwapchainError>(error),
                Ok((swapchain, image_count)) => r matches Ok(output) && output.holds(
                    swapchain,
                    image_count,
                ),
            },
    {
        match self.recreate_info(new_extent) {
            Err(error) => Err(error),
            Ok(create_info) => match reply {
                Err(error) => Err(error),
                Ok(image_count) => {
                    if image_count == 0 {
                        return Err(SwapchainError::NoImages);
                    }
                    let swapchain = Swapchain {
                        id: self.swapchain.id.wrapping_add(1),
                        create_info,
                    };
                    Ok(RenderOutput { swapchain, images: swapchain_images(swapchain, image_count) })
                },
            },
        }
    }
}

} // verus!
