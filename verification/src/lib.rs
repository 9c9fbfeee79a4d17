//! Bring-up core for a small 3D game: it negotiates Vulkan instance
//! features, enumerates and selects a physical device, plans the logical
//! device and its queues, sizes the swapchain, and drives the
//! double-buffered frame-present loop. The platform-facing calls live in
//! a thin surrounding layer; this crate holds the decisions and proves
//! their contracts.

use vstd::prelude::*;

pub mod audio;
pub mod config;
pub mod graphics;
pub mod search;
pub mod text;
pub mod yaml;

use audio::{AudioConfig, AudioConfigV, spec_audio_config_default};
use graphics::{GraphicsConfig, GraphicsConfigV, spec_graphics_config_default};

verus! {

/// The whole configuration.
#[derive(Clone, Debug)]
pub struct Config {
    pub audio: AudioConfig,
    pub graphics: GraphicsConfig,
}

/// The mathematical value of the whole configuration.
pub struct ConfigV {
    pub audio: AudioConfigV,
    pub graphics: GraphicsConfigV,
}

impl DeepView for Config {
    type V = ConfigV;

    open spec fn deep_view(&self) -> ConfigV {
        ConfigV { audio: self.audio.deep_view(), graphics: self.graphics.deep_view() }
    }
}

/// The configuration used when no configuration file can be read.
pub open spec fn spec_config_default() -> ConfigV {
    ConfigV { audio: spec_audio_config_default(), graphics: spec_graphics_config_default() }
}

impl Default for Config {
    fn default() -> (r: Self)
        ensures
            r.deep_view() == spec_config_default(),
    {
        let r = Config { audio: AudioConfig::default(), graphics: GraphicsConfig::default() };
        proof {
            assert(r.deep_view().audio.hosts =~= spec_config_default().audio.hosts);
        }
        r
    }
}

} // verus!
