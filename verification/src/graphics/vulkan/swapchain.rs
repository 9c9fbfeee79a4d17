//! Swapchain parameter planning.
//!
//! The swapchain is sized and configured from the surface capabilities the
//! platform reports, the window's current pixel size, and the resolved
//! queues. The policy is fixed: at least two images for double buffering,
//! the first reported format, the surface's current extent where it has
//! one and otherwise the window size, and exclusive sharing exactly when
//! one queue both draws and presents.

use vstd::prelude::*;
use crate::graphics::PixelSize;
use crate::graphics::vulkan::device::Queues;

verus! {

/// What the platform reports about a surface, as far as the plan needs
/// it: the minimum image count, the current extent where the platform
/// fixes one, and how many (format, color space) pairs it supports.
#[derive(Copy, Clone, Debug, PartialEq, Eq, Structural)]
pub struct SurfaceCapabilitiesInfo {
    pub min_image_count: u32,
    pub current_extent: Option<PixelSize>,
    pub format_count: usize,
}

/// How the swapchain images are shared between queues.
#[derive(Copy, Clone, Debug, PartialEq, Eq, Structural)]
pub enum SharingMode {
    /// One queue owns the images: graphics and present are the same queue.
    Exclusive,
    /// The graphics and present queues share the images concurrently.
    Concurrent,
}

/// The parameters a swapchain is created with.
#[derive(Copy, Clone, Debug, PartialEq, Eq, Structural)]
pub struct SwapchainPlan {
    /// The number of images to request: never less than two.
    pub num_images: u32,
    /// The index of the chosen format in the platform's reported list.
    pub format_index: usize,
    pub dimensions: PixelSize,
    pub sharing: SharingMode,
}

/// The platform reported no supported surface format: a fatal condition.
#[derive(Copy, Clone, Debug, PartialEq, Eq, Structural)]
pub struct NoSurfaceFormat;

/// The image count to request: the platform minimum, raised to two so
/// that double buffering is always possible.
pub open spec fn spec_num_images(min_image_count: u32) -> u32 {
    if min_image_count >= 2 {
        min_image_count
    } else {
        2
    }
}

/// The swapchain plan for the given capabilities, window size and queues.
pub open spec fn spec_swapchain_plan(
    caps: SurfaceCapabilitiesInfo,
    window_size: PixelSize,
    queues: Queues,
) -> SwapchainPlan {
    SwapchainPlan {
        num_images: spec_num_images(caps.min_image_count),
        format_index: 0,
        dimensions: match caps.current_extent {
            Some(extent) => extent,
            None => window_size,
        },
        sharing: if queues.graphics_queue == queues.present_queue {
            SharingMode::Exclusive
        } else {
            SharingMode::Concurrent
        },
    }
}

/// Plan the swapchain. Succeeds exactly when the platform reports at
/// least one supported format; the chosen image count is always at least
/// two, double buffering regardless of the platform minimum.
pub fn plan_swapchain(
    caps: &SurfaceCapabilitiesInfo,
    window_size: PixelSize,
    queues: &Queues,
) -> (r: Result<SwapchainPlan, NoSurfaceFormat>)
    ensures
        caps.format_count > 0 <==> r is Ok,
        r matches Ok(plan) ==> plan == spec_swapchain_plan(*caps, window_size, *queues),
        r matches Ok(plan) ==> plan.num_images >= 2 && plan.format_index < caps.format_count,
{
    if caps.format_count == 0 {
        return Err(NoSurfaceFormat);
    }
    let num_images = if caps.min_image_count >= 2 {
        caps.min_image_count
    } else {
        2
    };
    let dimensions = match caps.current_extent {
        Some(extent) => extent,
        None => window_size,
    };
    let sharing = if queues.graphics_queue == queues.present_queue {
        SharingMode::Exclusive
    } else {
        SharingMode::Concurrent
    };
    Ok(SwapchainPlan { num_images, format_index: 0, dimensions, sharing })
}

/// The planned image count never falls below two, whatever minimum the
/// platform reports.
pub proof fn lemma_double_buffered(min_image_count: u32)
    ensures
        spec_num_images(min_image_count) >= 2,
{
}

} // verus!
