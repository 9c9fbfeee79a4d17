//! Graphics configuration shared across the windowing and Vulkan layers.

use vstd::prelude::*;

pub mod vulkan;
pub mod window;

use vulkan::VulkanConfig;
use vulkan::device::DeviceSelection;
use vulkan::InstanceConfig;
use window::{WindowConfig, WindowConfigV, spec_window_config_default};

verus! {

/// The graphics section of the configuration.
#[derive(Clone, Debug)]
pub struct GraphicsConfig {
    pub window: WindowConfig,
    pub vulkan: VulkanConfig,
}

/// The mathematical value of the graphics configuration.
pub struct GraphicsConfigV {
    pub window: WindowConfigV,
    pub vulkan: VulkanConfig,
}

impl DeepView for GraphicsConfig {
    type V = GraphicsConfigV;

    open spec fn deep_view(&self) -> GraphicsConfigV {
        GraphicsConfigV { window: self.window.deep_view(), vulkan: self.vulkan }
    }
}

/// The graphics configuration every missing section falls back to.
pub open spec fn spec_graphics_config_default() -> GraphicsConfigV {
    GraphicsConfigV {
        window: spec_window_config_default(),
        vulkan: VulkanConfig {
            device: DeviceSelection::Best,
            instance: InstanceConfig::spec_default(),
        },
    }
}

impl Default for GraphicsConfig {
    fn default() -> (r: Self)
        ensures
            r.deep_view() == spec_graphics_config_default(),
    {
        let r = GraphicsConfig { window: WindowConfig::default(), vulkan: VulkanConfig::default() };
        proof {
            assert(r.deep_view().window.monitors =~= spec_window_config_default().monitors);
        }
        r
    }
}

/// A size in physical pixels, as the window system reports it.
#[derive(Copy, Clone, Debug, PartialEq, Eq, Structural)]
pub struct PixelSize {
    pub width: u32,
    pub height: u32,
}

impl PixelSize {
    pub fn new(width: u32, height: u32) -> (r: PixelSize)
        ensures
            r.width == width,
            r.height == height,
    {
        PixelSize { width, height }
    }
}

} // verus!
