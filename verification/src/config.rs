//! The configuration file's verified parser.
//!
//! The YAML text is loaded into a `YamlNode` tree; everything after that
//! is verified parsing. A missing section or option falls back to its
//! stated default — a recoverable miss, worth a warning in the platform
//! layer — while a malformed value is an error that aborts the program.

use vstd::prelude::*;
use crate::Config;
use crate::ConfigV;
use crate::audio::{
    AudioConfig,
    AudioConfigV,
    AudioHostConfig,
    AudioHostConfigV,
    HostEntry,
    HostEntryV,
    spec_audio_config_default,
};
use crate::graphics::{GraphicsConfig, GraphicsConfigV, PixelSize, spec_graphics_config_default};
use crate::graphics::vulkan::{InstanceConfig, LayersConfig, VulkanConfig};
use crate::graphics::vulkan::device::DeviceSelection;
use crate::graphics::window::{
    MonitorConfig,
    MonitorEntry,
    MonitorEntryV,
    ScaleFactor,
    VideoModeConfig,
    WindowConfig,
    WindowConfigV,
    WindowMode,
    WindowedConfig,
    spec_window_config_default,
};
use crate::text;
use crate::yaml::{YamlEntry, YamlNode, load_yaml_doc, spec_yaml_get, yaml_doc_of, yaml_get};

verus! {

/// Why the configuration is malformed beyond repair. A missing key is
/// never an error — it has a default — but a value of the wrong shape
/// aborts the program.
#[derive(Copy, Clone, Debug, PartialEq, Eq, Structural)]
pub enum ConfigError {
    /// A section is not a mapping.
    NotAMapping,
    /// An option value is not a scalar string.
    NotAString,
    /// A boolean option is neither `true` nor `false`.
    InvalidBool,
    /// A numeric option does not parse or does not fit.
    InvalidNumber,
    /// A device selection is neither `auto`, `best` nor a UUID.
    InvalidUuid,
    /// A scale factor is not a plain decimal number.
    InvalidScaleFactor,
    /// A window mode is none of `windowed`, `borderless`, `exclusive`.
    UnknownWindowMode,
    /// A monitor section has no video mode, which has no default.
    MissingVideoMode,
    /// A video mode leaves out one of its four fields, which have no
    /// defaults.
    MissingVideoModeField,
    /// A mapping that names hosts or monitors has a non-string key.
    NonStringKey,
    /// The configuration text is not a YAML document.
    InvalidYaml,
}

/// The 128-bit value of the UUID a string denotes, or nothing where the
/// string is not a UUID. The UUID grammar is a function of the string
/// alone.
pub uninterp spec fn uuid_of(s: Seq<char>) -> Option<u128>;

/// Relies on Uuid::parse_str and Uuid::as_u128: whether a string is a
/// UUID, and which 128-bit value it denotes, depend on the string alone.
#[verifier::external_body]
fn parse_uuid(s: &str) -> (r: Option<u128>)
    ensures
        r == uuid_of(s@),
{
    match uuid::Uuid::parse_str(s) {
        Ok(u) => Some(u.as_u128()),
        Err(_) => None,
    }
}

/// An optional string option: a missing key or the value `auto` means
/// nothing chosen; any other scalar is the choice itself.
pub open spec fn spec_parse_auto_str(entries: Seq<YamlEntry>, name: Seq<char>) -> Result<
    Option<Seq<char>>,
    ConfigError,
> {
    match spec_yaml_get(entries, name) {
        None => Ok(None),
        Some(node) => match node {
            YamlNode::Str(s) => if s@ == "auto"@ {
                Ok(None)
            } else {
                Ok(Some(s@))
            },
            _ => Err(ConfigError::NotAString),
        },
    }
}

fn parse_auto_string(entries: &Vec<YamlEntry>, name: &str) -> (r: Result<
    Option<String>,
    ConfigError,
>)
    ensures
        spec_parse_auto_str(entries@, name@) matches Ok(v) ==> (r matches Ok(o) && o.deep_view()
            == v),
        spec_parse_auto_str(entries@, name@) matches Err(e) ==> (r matches Err(e2) && e2 == e),
{
    match yaml_get(entries, name) {
        None => Ok(None),
        Some(node) => match node {
            YamlNode::Str(s) => if text::str_eq(s.as_str(), "auto") {
                Ok(None)
            } else {
                Ok(Some(s.clone()))
            },
            _ => Err(ConfigError::NotAString),
        },
    }
}

/// A boolean option with a default for a missing key.
pub open spec fn spec_parse_bool_opt(
    entries: Seq<YamlEntry>,
    name: Seq<char>,
    default: bool,
) -> Result<bool, ConfigError> {
    match spec_yaml_get(entries, name) {
        None => Ok(default),
        Some(node) => match node {
            YamlNode::Str(s) => match text::spec_parse_bool(s@) {
                Some(b) => Ok(b),
                None => Err(ConfigError::InvalidBool),
            },
            _ => Err(ConfigError::NotAString),
        },
    }
}

fn parse_bool_opt(entries: &Vec<YamlEntry>, name: &str, default: bool) -> (r: Result<
    bool,
    ConfigError,
>)
    ensures
        r == spec_parse_bool_opt(entries@, name@, default),
{
    match yaml_get(entries, name) {
        None => Ok(default),
        Some(node) => match node {
            YamlNode::Str(s) => match text::parse_bool(s.as_str()) {
                Some(b) => Ok(b),
                None => Err(ConfigError::InvalidBool),
            },
            _ => Err(ConfigError::NotAString),
        },
    }
}

/// A `u32` option with a default for a missing key.
pub open spec fn spec_parse_u32_opt(
    entries: Seq<YamlEntry>,
    name: Seq<char>,
    default: u32,
) -> Result<u32, ConfigError> {
    match spec_yaml_get(entries, name) {
        None => Ok(default),
        Some(node) => match node {
            YamlNode::Str(s) => match text::spec_parse_unsigned(s@, u32::MAX as int) {
                Some(v) => Ok(v as u32),
                None => Err(ConfigError::InvalidNumber),
            },
            _ => Err(ConfigError::NotAString),
        },
    }
}

fn parse_u32_opt(entries: &Vec<YamlEntry>, name: &str, default: u32) -> (r: Result<
    u32,
    ConfigError,
>)
    ensures
        r == spec_parse_u32_opt(entries@, name@, default),
{
    match yaml_get(entries, name) {
        None => Ok(default),
        Some(node) => match node {
            YamlNode::Str(s) => match text::parse_u32(s.as_str()) {
                Some(v) => Ok(v),
                None => Err(ConfigError::InvalidNumber),
            },
            _ => Err(ConfigError::NotAString),
        },
    }
}

/// A required `u32` option: a video mode field has no default, and `auto`
/// is not a value for it.
pub open spec fn spec_parse_required_u32(entries: Seq<YamlEntry>, name: Seq<char>) -> Result<
    u32,
    ConfigError,
> {
    match spec_yaml_get(entries, name) {
        None => Err(ConfigError::MissingVideoModeField),
        Some(node) => match node {
            YamlNode::Str(s) => if s@ == "auto"@ {
                Err(ConfigError::MissingVideoModeField)
            } else {
                match text::spec_parse_unsigned(s@, u32::MAX as int) {
                    Some(v) => Ok(v as u32),
                    None => Err(ConfigError::InvalidNumber),
                }
            },
            _ => Err(ConfigError::NotAString),
        },
    }
}

fn parse_required_u32(entries: &Vec<YamlEntry>, name: &str) -> (r: Result<u32, ConfigError>)
    ensures
        r == spec_parse_required_u32(entries@, name@),
{
    match yaml_get(entries, name) {
        None => Err(ConfigError::MissingVideoModeField),
        Some(node) => match node {
            YamlNode::Str(s) => if text::str_eq(s.as_str(), "auto") {
                Err(ConfigError::MissingVideoModeField)
            } else {
                match text::parse_u32(s.as_str()) {
                    Some(v) => Ok(v),
                    None => Err(ConfigError::InvalidNumber),
                }
            },
            _ => Err(ConfigError::NotAString),
        },
    }
}

/// A required `u16` option, as a required `u32` one.
pub open spec fn spec_parse_required_u16(entries: Seq<YamlEntry>, name: Seq<char>) -> Result<
    u16,
    ConfigError,
> {
    match spec_yaml_get(entries, name) {
        None => Err(ConfigError::MissingVideoModeField),
        Some(node) => match node {
            YamlNode::Str(s) => if s@ == "auto"@ {
                Err(ConfigError::MissingVideoModeField)
            } else {
                match text::spec_parse_unsigned(s@, u16::MAX as int) {
                    Some(v) => Ok(v as u16),
                    None => Err(ConfigError::InvalidNumber),
                }
            },
            _ => Err(ConfigError::NotAString),
        },
    }
}

fn parse_required_u16(entries: &Vec<YamlEntry>, name: &str) -> (r: Result<u16, ConfigError>)
    ensures
        r == spec_parse_required_u16(entries@, name@),
{
    match yaml_get(entries, name) {
        None => Err(ConfigError::MissingVideoModeField),
        Some(node) => match node {
            YamlNode::Str(s) => if text::str_eq(s.as_str(), "auto") {
                Err(ConfigError::MissingVideoModeField)
            } else {
                match text::parse_u16(s.as_str()) {
                    Some(v) => Ok(v),
                    None => Err(ConfigError::InvalidNumber),
                }
            },
            _ => Err(ConfigError::NotAString),
        },
    }
}

/// An optional scale factor: a missing key or `auto` means none.
pub open spec fn spec_parse_scale_opt(entries: Seq<YamlEntry>, name: Seq<char>) -> Result<
    Option<ScaleFactor>,
    ConfigError,
> {
    match spec_yaml_get(entries, name) {
        None => Ok(None),
        Some(node) => match node {
            YamlNode::Str(s) => if s@ == "auto"@ {
                Ok(None)
            } else {
                match text::spec_parse_scale_millis(s@) {
                    Some(v) => Ok(Some(ScaleFactor { millis: v as u32 })),
                    None => Err(ConfigError::InvalidScaleFactor),
                }
            },
            _ => Err(ConfigError::NotAString),
        },
    }
}

fn parse_scale_opt(entries: &Vec<YamlEntry>, name: &str) -> (r: Result<
    Option<ScaleFactor>,
    ConfigError,
>)
    ensures
        r == spec_parse_scale_opt(entries@, name@),
{
    match yaml_get(entries, name) {
        None => Ok(None),
        Some(node) => match node {
            YamlNode::Str(s) => if text::str_eq(s.as_str(), "auto") {
                Ok(None)
            } else {
                match text::parse_scale_millis(s.as_str()) {
                    Some(v) => Ok(Some(ScaleFactor { millis: v })),
                    None => Err(ConfigError::InvalidScaleFactor),
                }
            },
            _ => Err(ConfigError::NotAString),
        },
    }
}

/// The device-selection policy a configured value denotes: `auto`,
/// `best`, or an explicit device UUID; anything else is malformed.
pub open spec fn spec_parse_device_selection(node: YamlNode) -> Result<
    DeviceSelection,
    ConfigError,
> {
    match node {
        YamlNode::Str(s) => if s@ == "auto"@ {
            Ok(DeviceSelection::Auto)
        } else if s@ == "best"@ {
            Ok(DeviceSelection::Best)
        } else {
            match uuid_of(s@) {
                Some(u) => Ok(DeviceSelection::Uuid(u)),
                None => Err(ConfigError::InvalidUuid),
            }
        },
        _ => Err(ConfigError::NotAString),
    }
}

pub fn parse_device_selection(node: &YamlNode) -> (r: Result<DeviceSelection, ConfigError>)
    ensures
        r == spec_parse_device_selection(*node),
{
    match node {
        YamlNode::Str(s) => if text::str_eq(s.as_str(), "auto") {
            Ok(DeviceSelection::Auto)
        } else if text::str_eq(s.as_str(), "best") {
            Ok(DeviceSelection::Best)
        } else {
            match parse_uuid(s.as_str()) {
                Some(u) => Ok(DeviceSelection::Uuid(u)),
                None => Err(ConfigError::InvalidUuid),
            }
        },
        _ => Err(ConfigError::NotAString),
    }
}

/// The layer choices a `layers` section denotes: each layer defaults to
/// off when its key is missing.
pub open spec fn spec_parse_layers_config(node: YamlNode) -> Result<LayersConfig, ConfigError> {
    match node {
        YamlNode::Mapping(entries) => match spec_parse_bool_opt(
            entries@,
            "mesa_device_select"@,
            false,
        ) {
            Err(e) => Err(e),
            Ok(mesa_device_select) => match spec_parse_bool_opt(entries@, "mesa_overlay"@, false) {
                Err(e) => Err(e),
                Ok(mesa_overlay) => match spec_parse_bool_opt(
                    entries@,
                    "khronos_validation"@,
                    false,
                ) {
                    Err(e) => Err(e),
                    Ok(khronos_validation) => Ok(
                        LayersConfig { mesa_device_select, mesa_overlay, khronos_validation },
                    ),
                },
            },
        },
        _ => Err(ConfigError::NotAMapping),
    }
}

pub fn parse_layers_config(node: &YamlNode) -> (r: Result<LayersConfig, ConfigError>)
    ensures
        r == spec_parse_layers_config(*node),
{
    match node {
        YamlNode::Mapping(entries) => {
            let mesa_device_select = match parse_bool_opt(entries, "mesa_device_select", false) {
                Ok(b) => b,
                Err(e) => {
                    return Err(e);
                },
            };
            let mesa_overlay = match parse_bool_opt(entries, "mesa_overlay", false) {
                Ok(b) => b,
                Err(e) => {
                    return Err(e);
                },
            };
            let khronos_validation = match parse_bool_opt(entries, "khronos_validation", false) {
                Ok(b) => b,
                Err(e) => {
                    return Err(e);
                },
            };
            Ok(LayersConfig { mesa_device_select, mesa_overlay, khronos_validation })
        },
        _ => Err(ConfigError::NotAMapping),
    }
}

/// The instance configuration an `instance` section denotes: a missing
/// `layers` section falls back to the default layer choices.
pub open spec fn spec_parse_instance_config(node: YamlNode) -> Result<InstanceConfig, ConfigError> {
    match node {
        YamlNode::Mapping(entries) => match spec_yaml_get(entries@, "layers"@) {
            None => Ok(InstanceConfig { layers: LayersConfig::spec_default() }),
            Some(layers_node) => match spec_parse_layers_config(layers_node) {
                Ok(layers) => Ok(InstanceConfig { layers }),
                Err(e) => Err(e),
            },
        },
        _ => Err(ConfigError::NotAMapping),
    }
}

pub fn parse_instance_config(node: &YamlNode) -> (r: Result<InstanceConfig, ConfigError>)
    ensures
        r == spec_parse_instance_config(*node),
{
    match node {
        YamlNode::Mapping(entries) => match yaml_get(entries, "layers") {
            None => Ok(InstanceConfig { layers: LayersConfig::default() }),
            Some(layers_node) => match parse_layers_config(layers_node) {
                Ok(layers) => Ok(InstanceConfig { layers }),
                Err(e) => Err(e),
            },
        },
        _ => Err(ConfigError::NotAMapping),
    }
}

/// The window mode a `mode` value denotes; a missing key means windowed.
pub open spec fn spec_parse_window_mode(entries: Seq<YamlEntry>) -> Result<
    WindowMode,
    ConfigError,
> {
    match spec_yaml_get(entries, "mode"@) {
        None => Ok(WindowMode::Windowed),
        Some(node) => match node {
            YamlNode::Str(s) => if s@ == "borderless"@ {
                Ok(WindowMode::BorderlessFullscreen)
            } else if s@ == "exclusive"@ {
                Ok(WindowMode::ExclusiveFullscreen)
            } else if s@ == "windowed"@ {
                Ok(WindowMode::Windowed)
            } else {
                Err(ConfigError::UnknownWindowMode)
            },
            _ => Err(ConfigError::NotAString),
        },
    }
}

pub fn parse_window_mode(entries: &Vec<YamlEntry>) -> (r: Result<WindowMode, ConfigError>)
    ensures
        r == spec_parse_window_mode(entries@),
{
    match yaml_get(entries, "mode") {
        None => Ok(WindowMode::Windowed),
        Some(node) => match node {
            YamlNode::Str(s) => if text::str_eq(s.as_str(), "borderless") {
                Ok(WindowMode::BorderlessFullscreen)
            } else if text::str_eq(s.as_str(), "exclusive") {
                Ok(WindowMode::ExclusiveFullscreen)
            } else if text::str_eq(s.as_str(), "windowed") {
                Ok(WindowMode::Windowed)
            } else {
                Err(ConfigError::UnknownWindowMode)
            },
            _ => Err(ConfigError::NotAString),
        },
    }
}

/// The video mode a `video_mode` section denotes: all four fields are
/// required, having no defaults.
pub open spec fn spec_parse_video_mode_config(node: YamlNode) -> Result<
    VideoModeConfig,
    ConfigError,
> {
    match node {
        YamlNode::Mapping(entries) => match spec_parse_required_u32(entries@, "width"@) {
            Err(e) => Err(e),
            Ok(width) => match spec_parse_required_u32(entries@, "height"@) {
                Err(e) => Err(e),
                Ok(height) => match spec_parse_required_u16(entries@, "bit_depth"@) {
                    Err(e) => Err(e),
                    Ok(bit_depth) => match spec_parse_required_u16(entries@, "refresh_rate"@) {
                        Err(e) => Err(e),
                        Ok(refresh_rate) => Ok(
                            VideoModeConfig {
                                size: PixelSize { width, height },
                                bit_depth,
                                refresh_rate,
                            },
                        ),
                    },
                },
            },
        },
        _ => Err(ConfigError::NotAMapping),
    }
}

pub fn parse_video_mode_config(node: &YamlNode) -> (r: Result<VideoModeConfig, ConfigError>)
    ensures
        r == spec_parse_video_mode_config(*node),
{
    match node {
        YamlNode::Mapping(entries) => {
            let width = match parse_required_u32(entries, "width") {
                Ok(v) => v,
                Err(e) => {
                    return Err(e);
                },
            };
            let height = match parse_required_u32(entries, "height") {
                Ok(v) => v,
                Err(e) => {
                    return Err(e);
                },
            };
            let bit_depth = match parse_required_u16(entries, "bit_depth") {
                Ok(v) => v,
                Err(e) => {
                    return Err(e);
                },
            };
            let refresh_rate = match parse_required_u16(entries, "refresh_rate") {
                Ok(v) => v,
                Err(e) => {
                    return Err(e);
                },
            };
            Ok(VideoModeConfig { size: PixelSize { width, height }, bit_depth, refresh_rate })
        },
        _ => Err(ConfigError::NotAMapping),
    }
}

/// The monitor configuration a monitor section denotes: the scale factor
/// is optional, the video mode is required.
pub open spec fn spec_parse_monitor_config(node: YamlNode) -> Result<MonitorConfig, ConfigError> {
    match node {
        YamlNode::Mapping(entries) => match spec_parse_scale_opt(entries@, "scale_factor"@) {
            Err(e) => Err(e),
            Ok(scale_factor) => match spec_yaml_get(entries@, "video_mode"@) {
                None => Err(ConfigError::MissingVideoMode),
                Some(vm_node) => match spec_parse_video_mode_config(vm_node) {
                    Err(e) => Err(e),
                    Ok(video_mode) => Ok(MonitorConfig { scale_factor, video_mode }),
                },
            },
        },
        _ => Err(ConfigError::NotAMapping),
    }
}

pub fn parse_monitor_config(node: &YamlNode) -> (r: Result<MonitorConfig, ConfigError>)
    ensures
        r == spec_parse_monitor_config(*node),
{
    match node {
        YamlNode::Mapping(entries) => {
            let scale_factor = match parse_scale_opt(entries, "scale_factor") {
                Ok(v) => v,
                Err(e) => {
                    return Err(e);
                },
            };
            match yaml_get(entries, "video_mode") {
                None => Err(ConfigError::MissingVideoMode),
                Some(vm_node) => match parse_video_mode_config(vm_node) {
                    Ok(video_mode) => Ok(MonitorConfig { scale_factor, video_mode }),
                    Err(e) => Err(e),
                },
            }
        },
        _ => Err(ConfigError::NotAMapping),
    }
}

/// The windowed attributes a `windowed` section denotes: every field has
/// a default for a missing key.
pub open spec fn spec_parse_windowed_config(node: YamlNode) -> Result<WindowedConfig, ConfigError> {
    match node {
        YamlNode::Mapping(entries) => match spec_parse_u32_opt(entries@, "width"@, 1280) {
            Err(e) => Err(e),
            Ok(width) => match spec_parse_u32_opt(entries@, "height"@, 720) {
                Err(e) => Err(e),
                Ok(height) => match spec_parse_bool_opt(entries@, "always_on_top"@, false) {
                    Err(e) => Err(e),
                    Ok(always_on_top) => match spec_parse_bool_opt(
                        entries@,
                        "decorations"@,
                        false,
                    ) {
                        Err(e) => Err(e),
                        Ok(decorations) => match spec_parse_bool_opt(
                            entries@,
                            "maximized"@,
                            true,
                        ) {
                            Err(e) => Err(e),
                            Ok(maximized) => match spec_parse_bool_opt(
                                entries@,
                                "resizable"@,
                                true,
                            ) {
                                Err(e) => Err(e),
                                Ok(resizable) => match spec_parse_scale_opt(
                                    entries@,
                                    "scale_factor"@,
                                ) {
                                    Err(e) => Err(e),
                                    Ok(scale_factor) => Ok(
                                        WindowedConfig {
                                            size: PixelSize { width, height },
                                            always_on_top,
                                            decorations,
                                            maximized,
                                            resizable,
                                            scale_factor,
                                        },
                                    ),
                                },
                            },
                        },
                    },
                },
            },
        },
        _ => Err(ConfigError::NotAMapping),
    }
}

pub fn parse_windowed_config(node: &YamlNode) -> (r: Result<WindowedConfig, ConfigError>)
    ensures
        r == spec_parse_windowed_config(*node),
{
    match node {
        YamlNode::Mapping(entries) => {
            let width = match parse_u32_opt(entries, "width", 1280) {
                Ok(v) => v,
                Err(e) => {
                    return Err(e);
                },
            };
            let height = match parse_u32_opt(entries, "height", 720) {
                Ok(v) => v,
                Err(e) => {
                    return Err(e);
                },
            };
            let always_on_top = match parse_bool_opt(entries, "always_on_top", false) {
                Ok(v) => v,
                Err(e) => {
                    return Err(e);
                },
            };
            let decorations = match parse_bool_opt(entries, "decorations", false) {
                Ok(v) => v,
                Err(e) => {
                    return Err(e);
                },
            };
            let maximized = match parse_bool_opt(entries, "maximized", true) {
                Ok(v) => v,
                Err(e) => {
                    return Err(e);
                },
            };
            let resizable = match parse_bool_opt(entries, "resizable", true) {
                Ok(v) => v,
                Err(e) => {
                    return Err(e);
                },
            };
            let scale_factor = match parse_scale_opt(entries, "scale_factor") {
                Ok(v) => v,
                Err(e) => {
                    return Err(e);
                },
            };
            Ok(
                WindowedConfig {
                    size: PixelSize { width, height },
                    always_on_top,
                    decorations,
                    maximized,
                    resizable,
                    scale_factor,
                },
            )
        },
        _ => Err(ConfigError::NotAMapping),
    }
}


/// The per-host audio configuration a host section denotes.
pub open spec fn spec_parse_host(node: YamlNode) -> Result<AudioHostConfigV, ConfigError> {
    match node {
        YamlNode::Mapping(entries) => match spec_parse_auto_str(entries@, "output_device"@) {
            Ok(output_device) => Ok(AudioHostConfigV { output_device }),
            Err(e) => Err(e),
        },
        _ => Err(ConfigError::NotAMapping),
    }
}

pub fn parse_host(node: &YamlNode) -> (r: Result<AudioHostConfig, ConfigError>)
    ensures
        spec_parse_host(*node) matches Ok(v) ==> (r matches Ok(c) && c.deep_view() == v),
        spec_parse_host(*node) matches Err(e) ==> (r matches Err(e2) && e2 == e),
{
    match node {
        YamlNode::Mapping(entries) => match parse_auto_string(entries, "output_device") {
            Ok(output_device) => Ok(AudioHostConfig { output_device }),
            Err(e) => Err(e),
        },
        _ => Err(ConfigError::NotAMapping),
    }
}

/// One entry of the `hosts` mapping: the key must be a host name.
pub open spec fn spec_parse_host_entry(entry: YamlEntry) -> Result<HostEntryV, ConfigError> {
    match entry.key {
        YamlNode::Str(name) => match spec_parse_host(entry.value) {
            Ok(config) => Ok(HostEntryV { name: name@, config }),
            Err(e) => Err(e),
        },
        _ => Err(ConfigError::NonStringKey),
    }
}

/// The host entries a `hosts` mapping denotes, in document order; the
/// first malformed entry is the error.
pub open spec fn spec_parse_hosts(entries: Seq<YamlEntry>) -> Result<Seq<HostEntryV>, ConfigError>
    decreases entries.len(),
{
    if entries.len() == 0 {
        Ok(Seq::empty())
    } else {
        match spec_parse_host_entry(entries[0]) {
            Err(e) => Err(e),
            Ok(h) => match spec_parse_hosts(entries.skip(1)) {
                Ok(rest) => Ok(seq![h] + rest),
                Err(e) => Err(e),
            },
        }
    }
}

fn parse_hosts(entries: &Vec<YamlEntry>) -> (r: Result<Vec<HostEntry>, ConfigError>)
    ensures
        spec_parse_hosts(entries@) matches Ok(v) ==> (r matches Ok(out) && out.deep_view() == v),
        spec_parse_hosts(entries@) matches Err(e) ==> (r matches Err(e2) && e2 == e),
{
    let n = entries.len();
    let mut out: Vec<HostEntry> = Vec::new();
    let mut i: usize = 0;
    proof {
        assert(entries@.skip(0) =~= entries@);
        assert(forall|rest: Seq<HostEntryV>| #[trigger] (out.deep_view() + rest) =~= rest);
    }
    while i < n
        invariant
            0 <= i <= n,
            n == entries@.len(),
            spec_parse_hosts(entries@) == (match spec_parse_hosts(entries@.skip(i as int)) {
                Ok(rest) => Ok::<Seq<HostEntryV>, ConfigError>(out.deep_view() + rest),
                Err(e) => Err::<Seq<HostEntryV>, ConfigError>(e),
            }),
        decreases n - i,
    {
        proof {
            assert(entries@.skip(i as int)[0] == entries@[i as int]);
            assert(entries@.skip(i as int).skip(1) =~= entries@.skip(i + 1 as int));
        }
        let name = match &entries[i].key {
            YamlNode::Str(name) => name.clone(),
            _ => {
                return Err(ConfigError::NonStringKey);
            },
        };
        let config = match parse_host(&entries[i].value) {
            Ok(config) => config,
            Err(e) => {
                return Err(e);
            },
        };
        let ghost pre = out.deep_view();
        let ghost hv = spec_parse_host_entry(entries@[i as int])->Ok_0;
        out.push(HostEntry { name, config });
        i = i + 1;
        proof {
            assert(out.deep_view() =~= pre.push(hv));
            assert(forall|rest: Seq<HostEntryV>| #[trigger] (pre + (seq![hv] + rest)) =~= pre.push(
                hv,
            ) + rest);
        }
    }
    proof {
        assert(entries@.skip(n as int).len() == 0);
        assert(out.deep_view() + Seq::<HostEntryV>::empty() =~= out.deep_view());
    }
    Ok(out)
}

/// The audio configuration an `audio` section denotes: a missing `hosts`
/// section means no per-host configuration.
pub open spec fn spec_parse_audio_config(node: YamlNode) -> Result<AudioConfigV, ConfigError> {
    match node {
        YamlNode::Mapping(entries) => match spec_parse_auto_str(entries@, "host"@) {
            Err(e) => Err(e),
            Ok(host) => match spec_yaml_get(entries@, "hosts"@) {
                None => Ok(AudioConfigV { host, hosts: Seq::empty() }),
                Some(hosts_node) => match hosts_node {
                    YamlNode::Mapping(hosts_entries) => match spec_parse_hosts(hosts_entries@) {
                        Ok(hosts) => Ok(AudioConfigV { host, hosts }),
                        Err(e) => Err(e),
                    },
                    _ => Err(ConfigError::NotAMapping),
                },
            },
        },
        _ => Err(ConfigError::NotAMapping),
    }
}

pub fn parse_audio_config(node: &YamlNode) -> (r: Result<AudioConfig, ConfigError>)
    ensures
        spec_parse_audio_config(*node) matches Ok(v) ==> (r matches Ok(c) && c.deep_view() == v),
        spec_parse_audio_config(*node) matches Err(e) ==> (r matches Err(e2) && e2 == e),
{
    match node {
        YamlNode::Mapping(entries) => {
            let host = match parse_auto_string(entries, "host") {
                Ok(h) => h,
                Err(e) => {
                    return Err(e);
                },
            };
            let hosts = match yaml_get(entries, "hosts") {
                None => Vec::new(),
                Some(hosts_node) => match hosts_node {
                    YamlNode::Mapping(hosts_entries) => match parse_hosts(hosts_entries) {
                        Ok(hosts) => hosts,
                        Err(e) => {
                            return Err(e);
                        },
                    },
                    _ => {
                        return Err(ConfigError::NotAMapping);
                    },
                },
            };
            let r = AudioConfig { host, hosts };
            proof {
                match spec_parse_audio_config(*node) {
                    Ok(v) => {
                        assert(r.deep_view().hosts =~= v.hosts);
                    },
                    Err(_) => {},
                }
            }
            Ok(r)
        },
        _ => Err(ConfigError::NotAMapping),
    }
}

/// One entry of the `monitors` mapping: the key must be a monitor name.
pub open spec fn spec_parse_monitor_entry(entry: YamlEntry) -> Result<MonitorEntryV, ConfigError> {
    match entry.key {
        YamlNode::Str(name) => match spec_parse_monitor_config(entry.value) {
            Ok(config) => Ok(MonitorEntryV { name: name@, config }),
            Err(e) => Err(e),
        },
        _ => Err(ConfigError::NonStringKey),
    }
}

/// The monitor entries a `monitors` mapping denotes, in document order;
/// the first malformed entry is the error.
pub open spec fn spec_parse_monitors(entries: Seq<YamlEntry>) -> Result<
    Seq<MonitorEntryV>,
    ConfigError,
>
    decreases entries.len(),
{
    if entries.len() == 0 {
        Ok(Seq::empty())
    } else {
        match spec_parse_monitor_entry(entries[0]) {
            Err(e) => Err(e),
            Ok(m) => match spec_parse_monitors(entries.skip(1)) {
                Ok(rest) => Ok(seq![m] + rest),
                Err(e) => Err(e),
            },
        }
    }
}

fn parse_monitors(entries: &Vec<YamlEntry>) -> (r: Result<Vec<MonitorEntry>, ConfigError>)
    ensures
        spec_parse_monitors(entries@) matches Ok(v) ==> (r matches Ok(out) && out.deep_view()
            == v),
        spec_parse_monitors(entries@) matches Err(e) ==> (r matches Err(e2) && e2 == e),
{
    let n = entries.len();
    let mut out: Vec<MonitorEntry> = Vec::new();
    let mut i: usize = 0;
    proof {
        assert(entries@.skip(0) =~= entries@);
        assert(forall|rest: Seq<MonitorEntryV>| #[trigger] (out.deep_view() + rest) =~= rest);
    }
    while i < n
        invariant
            0 <= i <= n,
            n == entries@.len(),
            spec_parse_monitors(entries@) == (match spec_parse_monitors(
                entries@.skip(i as int),
            ) {
                Ok(rest) => Ok::<Seq<MonitorEntryV>, ConfigError>(out.deep_view() + rest),
                Err(e) => Err::<Seq<MonitorEntryV>, ConfigError>(e),
            }),
        decreases n - i,
    {
        proof {
            assert(entries@.skip(i as int)[0] == entries@[i as int]);
            assert(entries@.skip(i as int).skip(1) =~= entries@.skip(i + 1 as int));
        }
        let name = match &entries[i].key {
            YamlNode::Str(name) => name.clone(),
            _ => {
                return Err(ConfigError::NonStringKey);
            },
        };
        let config = match parse_monitor_config(&entries[i].value) {
            Ok(config) => config,
            Err(e) => {
                return Err(e);
            },
        };
        let ghost pre = out.deep_view();
        let ghost mv = spec_parse_monitor_entry(entries@[i as int])->Ok_0;
        out.push(MonitorEntry { name, config });
        i = i + 1;
        proof {
            assert(out.deep_view() =~= pre.push(mv));
            assert(forall|rest: Seq<MonitorEntryV>| #[trigger] (pre + (seq![mv] + rest)) =~= pre.push(
                mv,
            ) + rest);
        }
    }
    proof {
        assert(entries@.skip(n as int).len() == 0);
        assert(out.deep_view() + Seq::<MonitorEntryV>::empty() =~= out.deep_view());
    }
    Ok(out)
}

/// The window configuration a `window` section denotes: mode, monitor
/// choice, per-monitor sections and windowed attributes, each falling
/// back to its default when missing.
pub open spec fn spec_parse_window_config(node: YamlNode) -> Result<WindowConfigV, ConfigError> {
    match node {
        YamlNode::Mapping(entries) => match spec_parse_window_mode(entries@) {
            Err(e) => Err(e),
            Ok(mode) => match spec_parse_auto_str(entries@, "monitor"@) {
                Err(e) => Err(e),
                Ok(monitor) => match spec_yaml_get(entries@, "monitors"@) {
                    Some(monitors_node) => match monitors_node {
                        YamlNode::Mapping(monitor_entries) => match spec_parse_monitors(
                            monitor_entries@,
                        ) {
                            Err(e) => Err(e),
                            Ok(monitors) => match spec_parse_windowed_section(entries@) {
                                Err(e) => Err(e),
                                Ok(windowed) => Ok(
                                    WindowConfigV { mode, windowed, monitor, monitors },
                                ),
                            },
                        },
                        _ => Err(ConfigError::NotAMapping),
                    },
                    None => match spec_parse_windowed_section(entries@) {
                        Err(e) => Err(e),
                        Ok(windowed) => Ok(
                            WindowConfigV { mode, windowed, monitor, monitors: Seq::empty() },
                        ),
                    },
                },
            },
        },
        _ => Err(ConfigError::NotAMapping),
    }
}

/// The windowed attributes of a `window` section: the `windowed`
/// subsection where present, else the defaults.
pub open spec fn spec_parse_windowed_section(entries: Seq<YamlEntry>) -> Result<
    WindowedConfig,
    ConfigError,
> {
    match spec_yaml_get(entries, "windowed"@) {
        None => Ok(WindowedConfig::spec_default()),
        Some(windowed_node) => spec_parse_windowed_config(windowed_node),
    }
}

pub fn parse_window_config(node: &YamlNode) -> (r: Result<WindowConfig, ConfigError>)
    ensures
        spec_parse_window_config(*node) matches Ok(v) ==> (r matches Ok(c) && c.deep_view() == v),
        spec_parse_window_config(*node) matches Err(e) ==> (r matches Err(e2) && e2 == e),
{
    match node {
        YamlNode::Mapping(entries) => {
            let mode = match parse_window_mode(entries) {
                Ok(m) => m,
                Err(e) => {
                    return Err(e);
                },
            };
            let monitor = match parse_auto_string(entries, "monitor") {
                Ok(m) => m,
                Err(e) => {
                    return Err(e);
                },
            };
            let monitors = match yaml_get(entries, "monitors") {
                None => Vec::new(),
                Some(monitors_node) => match monitors_node {
                    YamlNode::Mapping(monitor_entries) => match parse_monitors(monitor_entries) {
                        Ok(m) => m,
                        Err(e) => {
                            return Err(e);
                        },
                    },
                    _ => {
                        return Err(ConfigError::NotAMapping);
                    },
                },
            };
            let windowed = match yaml_get(entries, "windowed") {
                None => WindowedConfig::default(),
                Some(windowed_node) => match parse_windowed_config(windowed_node) {
                    Ok(w) => w,
                    Err(e) => {
                        return Err(e);
                    },
                },
            };
            let r = WindowConfig { mode, windowed, monitor, monitors };
            proof {
                match spec_parse_window_config(*node) {
                    Ok(v) => {
                        assert(r.deep_view().monitors =~= v.monitors);
                    },
                    Err(_) => {},
                }
            }
            Ok(r)
        },
        _ => Err(ConfigError::NotAMapping),
    }
}

/// The graphics configuration a `graphics` section denotes: device
/// selection, instance features and window, each with its default.
pub open spec fn spec_parse_graphics_config(node: YamlNode) -> Result<
    GraphicsConfigV,
    ConfigError,
> {
    match node {
        YamlNode::Mapping(entries) => {
            let device_r = match spec_yaml_get(entries@, "device"@) {
                None => Ok(DeviceSelection::Best),
                Some(device_node) => spec_parse_device_selection(device_node),
            };
            match device_r {
                Err(e) => Err(e),
                Ok(device) => {
                    let instance_r = match spec_yaml_get(entries@, "instance"@) {
                        None => Ok(InstanceConfig { layers: LayersConfig::spec_default() }),
                        Some(instance_node) => spec_parse_instance_config(instance_node),
                    };
                    match instance_r {
                        Err(e) => Err(e),
                        Ok(instance) => {
                            let window_r = match spec_yaml_get(entries@, "window"@) {
                                None => Ok(spec_window_config_default()),
                                Some(window_node) => spec_parse_window_config(window_node),
                            };
                            match window_r {
                                Err(e) => Err(e),
                                Ok(window) => Ok(
                                    GraphicsConfigV {
                                        window,
                                        vulkan: VulkanConfig { device, instance },
                                    },
                                ),
                            }
                        },
                    }
                },
            }
        },
        _ => Err(ConfigError::NotAMapping),
    }
}

pub fn parse_graphics_config(node: &YamlNode) -> (r: Result<GraphicsConfig, ConfigError>)
    ensures
        spec_parse_graphics_config(*node) matches Ok(v) ==> (r matches Ok(c) && c.deep_view()
            == v),
        spec_parse_graphics_config(*node) matches Err(e) ==> (r matches Err(e2) && e2 == e),
{
    match node {
        YamlNode::Mapping(entries) => {
            let device = match yaml_get(entries, "device") {
                None => DeviceSelection::Best,
                Some(device_node) => match parse_device_selection(device_node) {
                    Ok(d) => d,
                    Err(e) => {
                        return Err(e);
                    },
                },
            };
            let instance = match yaml_get(entries, "instance") {
                None => InstanceConfig::default(),
                Some(instance_node) => match parse_instance_config(instance_node) {
                    Ok(i) => i,
                    Err(e) => {
                        return Err(e);
                    },
                },
            };
            let window = match yaml_get(entries, "window") {
                None => WindowConfig::default(),
                Some(window_node) => match parse_window_config(window_node) {
                    Ok(w) => w,
                    Err(e) => {
                        return Err(e);
                    },
                },
            };
            let r = GraphicsConfig { window, vulkan: VulkanConfig { device, instance } };
            proof {
                match spec_parse_graphics_config(*node) {
                    Ok(v) => {
                        assert(r.deep_view().window.monitors =~= v.window.monitors);
                    },
                    Err(_) => {},
                }
            }
            Ok(r)
        },
        _ => Err(ConfigError::NotAMapping),
    }
}

/// The configuration a whole document denotes: an `audio` and a
/// `graphics` section, each with its default.
pub open spec fn spec_parse_config(node: YamlNode) -> Result<ConfigV, ConfigError> {
    match node {
        YamlNode::Mapping(entries) => {
            let audio_r = match spec_yaml_get(entries@, "audio"@) {
                None => Ok(spec_audio_config_default()),
                Some(audio_node) => spec_parse_audio_config(audio_node),
            };
            match audio_r {
                Err(e) => Err(e),
                Ok(audio) => {
                    let graphics_r = match spec_yaml_get(entries@, "graphics"@) {
                        None => Ok(spec_graphics_config_default()),
                        Some(graphics_node) => spec_parse_graphics_config(graphics_node),
                    };
                    match graphics_r {
                        Err(e) => Err(e),
                        Ok(graphics) => Ok(ConfigV { audio, graphics }),
                    }
                },
            }
        },
        _ => Err(ConfigError::NotAMapping),
    }
}

pub fn parse_config(node: &YamlNode) -> (r: Result<Config, ConfigError>)
    ensures
        spec_parse_config(*node) matches Ok(v) ==> (r matches Ok(c) && c.deep_view() == v),
        spec_parse_config(*node) matches Err(e) ==> (r matches Err(e2) && e2 == e),
{
    match node {
        YamlNode::Mapping(entries) => {
            let audio = match yaml_get(entries, "audio") {
                None => AudioConfig::default(),
                Some(audio_node) => match parse_audio_config(audio_node) {
                    Ok(a) => a,
                    Err(e) => {
                        return Err(e);
                    },
                },
            };
            let graphics = match yaml_get(entries, "graphics") {
                None => GraphicsConfig::default(),
                Some(graphics_node) => match parse_graphics_config(graphics_node) {
                    Ok(g) => g,
                    Err(e) => {
                        return Err(e);
                    },
                },
            };
            Ok(Config { audio, graphics })
        },
        _ => Err(ConfigError::NotAMapping),
    }
}

/// What a configuration text denotes: the parse of its first YAML
/// document, or the YAML error where it has none.
pub open spec fn spec_read_config_str(text: Seq<char>) -> Result<ConfigV, ConfigError> {
    match yaml_doc_of(text) {
        None => Err(ConfigError::InvalidYaml),
        Some(doc) => spec_parse_config(doc),
    }
}

/// Read the configuration from its file's text. A text that is not YAML,
/// or a malformed value in it, is an unrecoverable error; missing
/// sections fall back to their defaults.
pub fn read_config_str(text: &str) -> (r: Result<Config, ConfigError>)
    ensures
        spec_read_config_str(text@) matches Ok(v) ==> (r matches Ok(c) && c.deep_view() == v),
        spec_read_config_str(text@) matches Err(e) ==> (r matches Err(e2) && e2 == e),
{
    match load_yaml_doc(text) {
        None => Err(ConfigError::InvalidYaml),
        Some(doc) => parse_config(&doc),
    }
}

} // verus!
