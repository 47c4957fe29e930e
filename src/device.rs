use vstd::prelude::*;
use crate::geometry::Extent;

verus! {

/// Why the graphics context or the first swapchain cannot be set up.
#[derive(Clone, Copy, Debug, PartialEq, Eq, Structural)]
pub enum SetupError {
    /// No physical device was enumerated.
    NoDevice,
    /// No queue family can both draw and present to the surface.
    NoSuitableQueueFamily,
    /// The surface reports no image format.
    NoSurfaceFormat,
    /// The surface reports no composite alpha mode.
    NoCompositeAlpha,
}

/// What a queue family of the device can do.
#[derive(Clone, Copy, Debug, PartialEq, Eq, Structural)]
pub struct QueueFamilyCaps {
    pub graphics: bool,
    /// Whether it can present to the window's surface.
    pub present: bool,
}

pub open spec fn suitable(f: QueueFamilyCaps) -> bool {
    f.graphics && f.present
}

/// The first family, in the order the device lists them, that can both draw
/// and present.
pub fn select_queue_family(families: &Vec<QueueFamilyCaps>) -> (r: Result<usize, SetupError>)
    ensures
        r matches Ok(i) ==> i < families@.len() && suitable(families@[i as int])
            && forall|j: int| 0 <= j < i ==> !suitable(#[trigger] families@[j]),
        r is Err <==> forall|j: int| 0 <= j < families@.len() ==> !suitable(#[trigger] families@[j]),
        r matches Err(e) ==> e == SetupError::NoSuitableQueueFamily,
{
    let mut k: usize = 0;
    while k < families.len()
        invariant
            k <= families@.len(),
            forall|j: int| 0 <= j < k ==> !suitable(#[trigger] families@[j]),
        decreases families@.len() - k,
    {
        if families[k].graphics && families[k].present {
            return Ok(k);
        }
        k = k + 1;
    }
    Err(SetupError::NoSuitableQueueFamily)
}

/// The first physical device enumerated; no ranking between devices.
pub fn select_physical_device(device_count: usize) -> (r: Result<usize, SetupError>)
    ensures
        device_count > 0 ==> r == Ok::<usize, SetupError>(0),
        device_count == 0 ==> r == Err::<usize, SetupError>(SetupError::NoDevice),
{
    if device_count == 0 {
        Err(SetupError::NoDevice)
    } else {
        Ok(0)
    }
}

/// How presented images are paced.
#[derive(Clone, Copy, Debug, PartialEq, Eq, Structural)]
pub enum PresentMode {
    Immediate,
    Mailbox,
    Fifo,
    FifoRelaxed,
}

/// What the surface supports, as far as the swapchain's choices go.
pub struct SurfaceCaps {
    pub min_image_count: u32,
    /// Number of image formats the surface lists.
    pub format_count: usize,
    /// For each composite alpha mode, in the order the platform lists them,
    /// whether the surface supports it.
    pub composite_alpha: Vec<bool>,
}

/// The parameters a swapchain is built with.
#[derive(Clone, Copy, Debug, PartialEq, Eq, Structural)]
pub struct SwapchainConfig {
    pub image_count: u32,
    /// Position of the chosen format in the surface's list.
    pub format_index: usize,
    /// Position of the chosen composite alpha mode in the platform's list.
    pub alpha_index: usize,
    pub present_mode: PresentMode,
    pub extent: Extent,
}

/// Whether position `i` holds the first set flag.
pub open spec fn first_supported(flags: Seq<bool>, i: int) -> bool {
    0 <= i < flags.len() && flags[i] && forall|j: int| 0 <= j < i ==> !flags[j]
}

/// The swapchain for a window of size `window`: the surface's minimum image
/// count, its first format, its first supported alpha mode, vsync-paced
/// presentation, and the window's size.
pub fn choose_swapchain_config(caps: &SurfaceCaps, window: Extent) -> (r: Result<SwapchainConfig, SetupError>)
    ensures
        caps.format_count == 0 ==> r == Err::<SwapchainConfig, SetupError>(SetupError::NoSurfaceFormat),
        caps.format_count > 0 && (forall|j: int| 0 <= j < caps.composite_alpha@.len() ==> !caps.composite_alpha@[j])
            ==> r == Err::<SwapchainConfig, SetupError>(SetupError::NoCompositeAlpha),
        caps.format_count > 0 && (exists|j: int| 0 <= j < caps.composite_alpha@.len() && caps.composite_alpha@[j])
            ==> r is Ok,
        r matches Ok(c) ==> {
            &&& caps.format_count > 0
            &&& c.image_count == caps.min_image_count
            &&& c.format_index == 0
            &&& first_supported(caps.composite_alpha@, c.alpha_index as int)
            &&& c.present_mode == PresentMode::Fifo
            &&& c.extent == window
        },
{
    if caps.format_count == 0 {
        return Err(SetupError::NoSurfaceFormat);
    }
    let mut k: usize = 0;
    while k < caps.composite_alpha.len()
        invariant
            caps.format_count > 0,
            k <= caps.composite_alpha@.len(),
            forall|j: int| 0 <= j < k ==> !caps.composite_alpha@[j],
        decreases caps.composite_alpha@.len() - k,
    {
        if caps.composite_alpha[k] {
            return Ok(SwapchainConfig {
                image_count: caps.min_image_count,
                format_index: 0,
                alpha_index: k,
                present_mode: PresentMode::Fifo,
                extent: window,
            });
        }
        k = k + 1;
    }
    Err(SetupError::NoCompositeAlpha)
}

} // verus!
