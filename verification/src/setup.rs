//! One-time choices made while the renderer starts up, and the framebuffer
//! setup that is redone whenever the swapchain changes.

use vstd::prelude::*;

verus! {

/// A two-dimensional size in physical pixels.
#[derive(Clone, Copy, Debug, PartialEq, Eq)]
pub struct Extent {
    pub width: u32,
    pub height: u32,
}

/// The single dynamic viewport of the pipeline. Its origin is the top-left
/// corner of the image and its depth range is `0.0..1.0`; only its size varies.
#[derive(Clone, Copy, Debug, PartialEq, Eq)]
pub struct Viewport {
    pub extent: Extent,
}

/// What the window-size-dependent setup produces: one framebuffer for each
/// swapchain image, and a viewport that covers the first image.
#[derive(Clone, Copy, Debug, PartialEq, Eq)]
pub struct FramebufferSetup {
    /// How many framebuffers are built; framebuffer `i` wraps swapchain image `i`.
    pub framebuffer_count: usize,
    pub viewport: Viewport,
}

/// Sets up what depends on the window's size, from the sizes of the
/// swapchain's images: one framebuffer per image, in the images' order, and a
/// viewport the size of the first image. There must be at least one image.
pub fn window_size_dependent_setup(images: &Vec<Extent>) -> (setup: FramebufferSetup)
    requires
        images@.len() > 0,
    ensures
        setup.framebuffer_count == images@.len(),
        setup.viewport == (Viewport { extent: images@[0] }),
{
    let dimensions = images[0];
    FramebufferSetup { framebuffer_count: images.len(), viewport: Viewport { extent: dimensions } }
}

/// The physical device to use, among `device_count` enumerated devices: the
/// first one, if there is any.
pub fn select_physical_device(device_count: usize) -> (index: Option<usize>)
    ensures
        index == (if device_count > 0 { Some(0usize) } else { None::<usize> }),
{
    if device_count > 0 {
        Some(0)
    } else {
        None
    }
}

/// What the device selection needs to know of one queue family.
#[derive(Clone, Copy, Debug, PartialEq, Eq)]
pub struct QueueFamilyInfo {
    /// The family can run graphics commands.
    pub supports_graphics: bool,
    /// Whether the family can present to the window's surface; `None` when
    /// that query failed, which counts as no support. The query need not be
    /// made for a family without graphics support.
    pub surface_supported: Option<bool>,
}

impl QueueFamilyInfo {
    /// The family can both draw and present to the window.
    pub open spec fn spec_usable(self) -> bool {
        self.supports_graphics && self.surface_supported == Some(true)
    }

    /// Whether the family can both draw and present to the window; a failed
    /// surface query counts as `false`.
    pub fn usable(&self) -> (r: bool)
        ensures
            r == self.spec_usable(),
            r == (self.supports_graphics && self.surface_supported == Some(true)),
    {
        self.supports_graphics && match self.surface_supported {
            Some(b) => b,
            None => false,
        }
    }
}

/// The queue family to create the device with: the first family that both
/// supports graphics and can present to the window, or `None` if there is none.
pub fn select_queue_family(families: &Vec<QueueFamilyInfo>) -> (index: Option<usize>)
    ensures
        match index {
            Some(i) => {
                &&& i < families@.len()
                &&& families@[i as int].spec_usable()
                &&& forall|j: int| 0 <= j < i ==> !#[trigger] families@[j].spec_usable()
            },
            None => forall|j: int| 0 <= j < families@.len() ==> !#[trigger] families@[j].spec_usable(),
        },
        index matches Some(i) ==> (families@[i as int].supports_graphics
            && families@[i as int].surface_supported == Some(true)),
        forall|j: int|
            #![trigger families@[j]]
            0 <= j < families@.len() && families@[j].supports_graphics && families@[j].surface_supported
                == Some(true) ==> (index matches Some(i) && i <= j),
{
    let n = families.len();
    for i in 0..n
        invariant
            n == families@.len(),
            forall|j: int| #![trigger families@[j]] 0 <= j < i ==> !families@[j].spec_usable(),
    {
        if families[i].usable() {
            return Some(i);
        }
    }
    None
}

/// How the window's contents are blended with what lies behind it.
#[derive(Clone, Copy, Debug, PartialEq, Eq)]
pub enum CompositeAlpha {
    Opaque,
    PreMultiplied,
    PostMultiplied,
    Inherit,
}

/// The composite-alpha modes that a surface supports.
#[derive(Clone, Copy, Debug, PartialEq, Eq)]
pub struct SupportedCompositeAlpha {
    pub opaque: bool,
    pub pre_multiplied: bool,
    pub post_multiplied: bool,
    pub inherit: bool,
}

/// Position of a composite-alpha mode in the order in which supported modes
/// are listed: opaque, pre-multiplied, post-multiplied, inherit.
pub open spec fn alpha_rank(mode: CompositeAlpha) -> int {
    match mode {
        CompositeAlpha::Opaque => 0,
        CompositeAlpha::PreMultiplied => 1,
        CompositeAlpha::PostMultiplied => 2,
        CompositeAlpha::Inherit => 3,
    }
}

impl SupportedCompositeAlpha {
    /// The surface supports `mode`.
    pub open spec fn supports(self, mode: CompositeAlpha) -> bool {
        match mode {
            CompositeAlpha::Opaque => self.opaque,
            CompositeAlpha::PreMultiplied => self.pre_multiplied,
            CompositeAlpha::PostMultiplied => self.post_multiplied,
            CompositeAlpha::Inherit => self.inherit,
        }
    }

    /// The first supported mode in the order opaque, pre-multiplied,
    /// post-multiplied, inherit.
    pub open spec fn spec_first(self) -> Option<CompositeAlpha> {
        if self.opaque {
            Some(CompositeAlpha::Opaque)
        } else if self.pre_multiplied {
            Some(CompositeAlpha::PreMultiplied)
        } else if self.post_multiplied {
            Some(CompositeAlpha::PostMultiplied)
        } else if self.inherit {
            Some(CompositeAlpha::Inherit)
        } else {
            None
        }
    }

    /// The first supported mode, in the order in which the supported modes are
    /// listed: opaque, pre-multiplied, post-multiplied, inherit.
    pub fn first(&self) -> (mode: Option<CompositeAlpha>)
        ensures
            mode == self.spec_first(),
            mode matches Some(m) ==> self.supports(m),
            mode matches Some(m) ==> forall|e: CompositeAlpha|
                alpha_rank(e) < alpha_rank(m) ==> !#[trigger] self.supports(e),
            mode is None ==> forall|e: CompositeAlpha| !#[trigger] self.supports(e),
            self.opaque ==> mode == Some(CompositeAlpha::Opaque),
    {
        if self.opaque {
            Some(CompositeAlpha::Opaque)
        } else if self.pre_multiplied {
            Some(CompositeAlpha::PreMultiplied)
        } else if self.post_multiplied {
            Some(CompositeAlpha::PostMultiplied)
        } else if self.inherit {
            Some(CompositeAlpha::Inherit)
        } else {
            None
        }
    }
}

/// What the swapchain choice reads of a surface's capabilities.
#[derive(Clone, Copy, Debug, PartialEq, Eq)]
pub struct SurfaceCapabilities {
    /// The smallest number of images a swapchain on this surface may have.
    pub min_image_count: u32,
    /// How many image formats the surface supports; the formats themselves
    /// stay with the caller, who refers to them by position.
    pub supported_format_count: usize,
    pub supported_composite_alpha: SupportedCompositeAlpha,
}

/// The transform applied to swapchain images before they are presented.
#[derive(Clone, Copy, Debug, PartialEq, Eq)]
pub enum SurfaceTransform {
    Identity,
    Rotate90,
    Rotate180,
    Rotate270,
    HorizontalMirror,
    HorizontalMirrorRotate90,
    HorizontalMirrorRotate180,
    HorizontalMirrorRotate270,
    Inherit,
}

/// How presented images reach the screen.
#[derive(Clone, Copy, Debug, PartialEq, Eq)]
pub enum PresentMode {
    Immediate,
    Mailbox,
    Fifo,
    Relaxed,
}

/// The settings a swapchain is created with. Its image usage is the full set
/// of usages that the surface supports, and it is owned by the one graphics
/// queue; the caller passes those through unchanged.
#[derive(Clone, Copy, Debug, PartialEq, Eq)]
pub struct SwapchainConfig {
    pub num_images: u32,
    /// Position of the chosen format among the surface's supported formats.
    pub format_index: usize,
    pub dimensions: Extent,
    pub layers: u32,
    pub transform: SurfaceTransform,
    pub composite_alpha: CompositeAlpha,
    pub present_mode: PresentMode,
    pub clipped: bool,
}

/// The surface can host the renderer's swapchain: it offers a format and a
/// composite-alpha mode, and the window still exists.
pub open spec fn swapchain_possible(caps: SurfaceCapabilities, window: Option<Extent>) -> bool {
    &&& caps.supported_format_count > 0
    &&& caps.supported_composite_alpha.spec_first() is Some
    &&& window is Some
}

/// The swapchain settings for a surface with capabilities `caps` on a window
/// whose inner size in physical pixels is `window`: the minimum number of
/// images, the first supported format, the window's size, one layer, no
/// transform, the first supported composite-alpha mode, first-in-first-out
/// presentation, and clipping of hidden pixels.
pub fn swapchain_config(caps: &SurfaceCapabilities, window: Option<Extent>) -> (config:
    SwapchainConfig)
    requires
        swapchain_possible(*caps, window),
    ensures
        config == (SwapchainConfig {
            num_images: caps.min_image_count,
            format_index: 0,
            dimensions: window.unwrap(),
            layers: 1,
            transform: SurfaceTransform::Identity,
            composite_alpha: caps.supported_composite_alpha.spec_first().unwrap(),
            present_mode: PresentMode::Fifo,
            clipped: true,
        }),
        caps.supported_composite_alpha.supports(config.composite_alpha),
        forall|e: CompositeAlpha|
            alpha_rank(e) < alpha_rank(config.composite_alpha) ==> !#[trigger] caps.supported_composite_alpha.supports(e),
{
    let alpha = match caps.supported_composite_alpha.first() {
        Some(a) => a,
        None => CompositeAlpha::Opaque,
    };
    let dimensions = match window {
        Some(d) => d,
        None => Extent { width: 0, height: 0 },
    };
    SwapchainConfig {
        num_images: caps.min_image_count,
        format_index: 0,
        dimensions,
        layers: 1,
        transform: SurfaceTransform::Identity,
        composite_alpha: alpha,
        present_mode: PresentMode::Fifo,
        clipped: true,
    }
}

} // verus!
