//! What the surface reports and the choices the engine makes from it:
//! the extent a swapchain is created at, how many images it holds, which
//! surface format and presentation mode are used.

use vstd::prelude::*;

verus! {

/// Width and height of a drawable area, in pixels.
#[derive(Clone, Copy, PartialEq, Eq, Structural, Debug)]
pub struct Extent2d {
    pub width: u32,
    pub height: u32,
}

/// The presentation modes a surface can offer.  The engine only ever
/// selects `Fifo`: it is guaranteed to be available, tears never, and
/// bounds latency.
#[derive(Clone, Copy, PartialEq, Eq, Structural, Debug)]
pub enum PresentMode {
    Immediate,
    Mailbox,
    Fifo,
    FifoRelaxed,
}

/// A snapshot of the surface capability query: the bounds the driver
/// places on swapchains created for this surface, and the surface formats
/// it supports, in the driver's preference order (format codes are the
/// graphics API's numeric format identifiers).
///
/// `max_image_count == 0` means the driver states no upper bound.
#[derive(Clone, Debug)]
pub struct SurfaceCapabilities {
    pub min_image_count: u32,
    pub max_image_count: u32,
    pub min_extent: Extent2d,
    pub max_extent: Extent2d,
    pub formats: Vec<u32>,
}

impl SurfaceCapabilities {
    /// A capability report the engine can work from: coherent extent
    /// bounds, at least one image allowed, and at least one supported
    /// format.  A surface reporting none of its formats has no
    /// displayable configuration and is rejected before any swapchain is
    /// attempted.
    pub open spec fn wf(self) -> bool {
        &&& self.min_extent.width <= self.max_extent.width
        &&& self.min_extent.height <= self.max_extent.height
        &&& 1 <= self.min_image_count
        &&& self.max_image_count == 0 || self.min_image_count <= self.max_image_count
        &&& self.formats.len() > 0
    }
}

/// What one queue family of a device offers, as far as the engine
/// cares: whether it has queues at all, draws, and can present to the
/// engine's surface.
#[derive(Clone, Copy, PartialEq, Eq, Structural, Debug)]
pub struct QueueFamily {
    pub queue_count: u32,
    pub supports_graphics: bool,
    pub supports_present: bool,
}

impl QueueFamily {
    /// A family the engine can run on: at least one queue, both graphics
    /// and presentation.
    pub open spec fn usable(self) -> bool {
        &&& self.queue_count > 0
        &&& self.supports_graphics
        &&& self.supports_present
    }
}

/// One dimension forced into the closed interval `[lo, hi]`.
pub open spec fn clamp_dim(x: u32, lo: u32, hi: u32) -> u32 {
    if x < lo {
        lo
    } else if x > hi {
        hi
    } else {
        x
    }
}

/// The extent a swapchain is actually created at: the requested extent,
/// each dimension forced into the surface's reported bounds.
pub open spec fn clamped_extent(requested: Extent2d, caps: SurfaceCapabilities) -> Extent2d {
    Extent2d {
        width: clamp_dim(requested.width, caps.min_extent.width, caps.max_extent.width),
        height: clamp_dim(requested.height, caps.min_extent.height, caps.max_extent.height),
    }
}

/// The image count the engine asks the driver for: the reported minimum,
/// but never fewer than two, so one image can be presented while another
/// is rendered into.
pub open spec fn chosen_image_count(caps: SurfaceCapabilities) -> u32 {
    if caps.min_image_count < 2 {
        2
    } else {
        caps.min_image_count
    }
}

/// The surface format the engine uses: the first one the surface
/// supports.
pub open spec fn chosen_format(caps: SurfaceCapabilities) -> u32 {
    caps.formats[0]
}

/// Clamps a requested extent to the surface's reported bounds.
pub fn clamp_extent(requested: Extent2d, caps: &SurfaceCapabilities) -> (r: Extent2d)
    requires
        caps.wf(),
    ensures
        r == clamped_extent(requested, *caps),
        caps.min_extent.width <= r.width <= caps.max_extent.width,
        caps.min_extent.height <= r.height <= caps.max_extent.height,
        caps.min_extent.width <= requested.width <= caps.max_extent.width
            && caps.min_extent.height <= requested.height <= caps.max_extent.height
            ==> r == requested,
{
    let width = if requested.width < caps.min_extent.width {
        caps.min_extent.width
    } else if requested.width > caps.max_extent.width {
        caps.max_extent.width
    } else {
        requested.width
    };
    let height = if requested.height < caps.min_extent.height {
        caps.min_extent.height
    } else if requested.height > caps.max_extent.height {
        caps.max_extent.height
    } else {
        requested.height
    };
    Extent2d { width, height }
}

/// Picks the image count to request from the driver.
pub fn select_image_count(caps: &SurfaceCapabilities) -> (n: u32)
    requires
        caps.wf(),
    ensures
        n == chosen_image_count(*caps),
        n >= 2,
        n >= caps.min_image_count,
{
    if caps.min_image_count < 2 {
        2
    } else {
        caps.min_image_count
    }
}

/// Picks the surface format: the first supported one.
pub fn select_format(caps: &SurfaceCapabilities) -> (f: u32)
    requires
        caps.wf(),
    ensures
        f == chosen_format(*caps),
        f == caps.formats@[0],
{
    caps.formats[0]
}

/// Picks the queue family the device is opened with: the first one that
/// has a queue, draws, and presents.  `None` exactly when the device
/// offers no such family, in which case the device is unusable here.
pub fn select_queue_family(families: &Vec<QueueFamily>) -> (r: Option<u32>)
    requires
        families.len() <= u32::MAX,
    ensures
        match r {
            Some(index) => {
                &&& index < families.len()
                &&& families[index as int].usable()
                &&& forall|j: int| 0 <= j < index ==> !families[j].usable()
            },
            None => forall|j: int| 0 <= j < families.len() ==> !families[j].usable(),
        },
{
    let mut k: usize = 0;
    while k < families.len()
        invariant
            0 <= k <= families.len(),
            families.len() <= u32::MAX,
            forall|j: int| 0 <= j < k ==> !families[j].usable(),
        decreases families.len() - k,
    {
        let family = families[k];
        if family.queue_count > 0 && family.supports_graphics && family.supports_present {
            return Some(k as u32);
        }
        k = k + 1;
    }
    None
}

/// Picks the presentation mode.  The engine always presents in first-in
/// first-out order, the one mode every surface supports: no tearing,
/// bounded latency.
pub fn select_present_mode() -> (m: PresentMode)
    ensures
        m == PresentMode::Fifo,
{
    PresentMode::Fifo
}

} // verus!
