//! The Vulkan bring-up core: instance-feature negotiation, physical-device
//! enumeration and selection, logical-device and queue planning, swapchain
//! sizing, and the frame-present state machine.

use vstd::prelude::*;

pub mod device;
pub mod frame;
pub mod instance;
pub mod swapchain;

use device::DeviceSelection;
use instance::{InstanceFeatures, InstanceLayers, Unbuildable};

verus! {

/// The Vulkan section of the configuration.
#[derive(Copy, Clone, Debug, PartialEq, Eq, Structural)]
pub struct VulkanConfig {
    pub device: DeviceSelection,
    pub instance: InstanceConfig,
}

impl Default for VulkanConfig {
    fn default() -> (r: Self)
        ensures
            r.device == DeviceSelection::Best,
            r.instance == InstanceConfig::spec_default(),
    {
        Self { device: DeviceSelection::default(), instance: InstanceConfig::default() }
    }
}

/// The instance subsection of the Vulkan configuration.
#[derive(Copy, Clone, Debug, PartialEq, Eq, Structural)]
pub struct InstanceConfig {
    pub layers: LayersConfig,
}

impl InstanceConfig {
    pub open spec fn spec_default() -> InstanceConfig {
        InstanceConfig { layers: LayersConfig::spec_default() }
    }

    /// The instance features this configuration requests: the configured
    /// layers, and no extensions beyond what negotiation will require.
    pub fn into_instance_features(&self) -> (r: InstanceFeatures)
        ensures
            r.layers == self.layers.spec_into_instance_layers(),
            r.extensions == instance::InstanceExtensions::spec_none(),
    {
        InstanceFeatures {
            layers: self.layers.into_instance_layers(),
            ..InstanceFeatures::none()
        }
    }
}

impl Default for InstanceConfig {
    fn default() -> (r: Self)
        ensures
            r == InstanceConfig::spec_default(),
    {
        Self { layers: LayersConfig::default() }
    }
}

/// Which optional instance layers the configuration asks for.
#[derive(Copy, Clone, Debug, PartialEq, Eq, Structural)]
pub struct LayersConfig {
    pub mesa_device_select: bool,
    pub mesa_overlay: bool,
    pub khronos_validation: bool,
}

impl LayersConfig {
    /// The default layer choices: device selection and validation on,
    /// the overlay off.
    pub open spec fn spec_default() -> LayersConfig {
        LayersConfig { mesa_device_select: true, mesa_overlay: false, khronos_validation: true }
    }

    pub open spec fn spec_into_instance_layers(self) -> InstanceLayers {
        InstanceLayers {
            mesa_device_select: self.mesa_device_select,
            mesa_overlay: self.mesa_overlay,
            khronos_validation: self.khronos_validation,
            _unbuildable: Unbuildable(false),
        }
    }

    /// The layer set this configuration requests.
    pub fn into_instance_layers(&self) -> (r: InstanceLayers)
        ensures
            r == self.spec_into_instance_layers(),
    {
        InstanceLayers {
            mesa_device_select: self.mesa_device_select,
            mesa_overlay: self.mesa_overlay,
            khronos_validation: self.khronos_validation,
            ..InstanceLayers::none()
        }
    }
}

impl Default for LayersConfig {
    fn default() -> (r: Self)
        ensures
            r == LayersConfig::spec_default(),
    {
        Self { mesa_device_select: true, mesa_overlay: false, khronos_validation: true }
    }
}

} // verus!
