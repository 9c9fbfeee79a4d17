use halley_kart::config::{ConfigError, parse_audio_config, read_config_str};
use halley_kart::graphics::PixelSize;
use halley_kart::graphics::vulkan::device::DeviceSelection;
use halley_kart::graphics::window::{ScaleFactor, WindowMode};
use halley_kart::yaml::{YamlEntry, YamlNode};

#[test]
fn full_configuration_parses() {
    let text = "\
audio:
  host: jack
  hosts:
    jack:
      output_device: headphones
    alsa:
      output_device: auto
graphics:
  device: best
  instance:
    layers:
      mesa_device_select: \"true\"
      mesa_overlay: \"false\"
      khronos_validation: \"true\"
  window:
    mode: exclusive
    monitor: DP-1
    monitors:
      DP-1:
        scale_factor: \"1.5\"
        video_mode:
          width: \"1920\"
          height: \"1080\"
          bit_depth: \"24\"
          refresh_rate: \"60\"
    windowed:
      width: \"1600\"
      height: \"900\"
      resizable: \"false\"
";
    let config = read_config_str(text).unwrap();

    assert_eq!(config.audio.host.as_deref(), Some("jack"));
    assert_eq!(config.audio.hosts.len(), 2);
    assert_eq!(config.audio.hosts[0].name, "jack");
    assert_eq!(config.audio.hosts[0].config.output_device.as_deref(), Some("headphones"));
    assert_eq!(config.audio.hosts[1].name, "alsa");
    assert_eq!(config.audio.hosts[1].config.output_device, None);

    assert_eq!(config.graphics.vulkan.device, DeviceSelection::Best);
    assert!(config.graphics.vulkan.instance.layers.mesa_device_select);
    assert!(!config.graphics.vulkan.instance.layers.mesa_overlay);
    assert!(config.graphics.vulkan.instance.layers.khronos_validation);

    let window = &config.graphics.window;
    assert_eq!(window.mode, WindowMode::ExclusiveFullscreen);
    assert_eq!(window.monitor.as_deref(), Some("DP-1"));
    assert_eq!(window.monitors.len(), 1);
    assert_eq!(window.monitors[0].name, "DP-1");
    assert_eq!(window.monitors[0].config.scale_factor, Some(ScaleFactor { millis: 1500 }));
    let vm = &window.monitors[0].config.video_mode;
    assert_eq!(vm.size, PixelSize::new(1920, 1080));
    assert_eq!(vm.bit_depth, 24);
    assert_eq!(vm.refresh_rate, 60);
    assert_eq!(window.windowed.size, PixelSize::new(1600, 900));
    assert!(!window.windowed.resizable);
    // Unset windowed options keep their defaults.
    assert!(window.windowed.maximized);
    assert!(!window.windowed.decorations);
}

#[test]
fn missing_sections_fall_back_to_defaults() {
    let config = read_config_str("audio:\n  host: auto\n").unwrap();
    assert_eq!(config.audio.host, None);
    assert!(config.audio.hosts.is_empty());
    assert_eq!(config.graphics.vulkan.device, DeviceSelection::Best);
    assert!(config.graphics.vulkan.instance.layers.mesa_device_select);
    assert!(config.graphics.vulkan.instance.layers.khronos_validation);
    assert_eq!(config.graphics.window.mode, WindowMode::Windowed);
    assert_eq!(config.graphics.window.windowed.size, PixelSize::new(1280, 720));
    assert!(config.graphics.window.windowed.maximized);
    assert!(config.graphics.window.windowed.resizable);
}

#[test]
fn missing_layer_options_default_to_off() {
    let text = "\
graphics:
  instance:
    layers:
      mesa_overlay: \"true\"
";
    let config = read_config_str(text).unwrap();
    assert!(!config.graphics.vulkan.instance.layers.mesa_device_select);
    assert!(config.graphics.vulkan.instance.layers.mesa_overlay);
    assert!(!config.graphics.vulkan.instance.layers.khronos_validation);
}

#[test]
fn explicit_device_uuid_parses_to_its_value() {
    let text = "graphics:\n  device: 67e55044-10b1-426f-9247-bb680e5fe0c8\n";
    let config = read_config_str(text).unwrap();
    assert_eq!(
        config.graphics.vulkan.device,
        DeviceSelection::Uuid(0x67e5504410b1426f9247bb680e5fe0c8)
    );
}

#[test]
fn auto_device_selection_parses() {
    let config = read_config_str("graphics:\n  device: auto\n").unwrap();
    assert_eq!(config.graphics.vulkan.device, DeviceSelection::Auto);
}

#[test]
fn malformed_device_selection_is_an_error() {
    let err = read_config_str("graphics:\n  device: fastest\n").unwrap_err();
    assert_eq!(err, ConfigError::InvalidUuid);
}

#[test]
fn malformed_bool_is_an_error() {
    let text = "\
graphics:
  instance:
    layers:
      mesa_overlay: maybe
";
    assert_eq!(read_config_str(text).unwrap_err(), ConfigError::InvalidBool);
}

#[test]
fn malformed_number_is_an_error() {
    let text = "\
graphics:
  window:
    windowed:
      width: wide
";
    assert_eq!(read_config_str(text).unwrap_err(), ConfigError::InvalidNumber);
}

#[test]
fn signed_numerals_are_accepted() {
    let text = "\
graphics:
  window:
    windowed:
      width: \"+1024\"
";
    let config = read_config_str(text).unwrap();
    assert_eq!(config.graphics.window.windowed.size.width, 1024);
}

#[test]
fn structured_value_where_a_scalar_belongs_is_an_error() {
    let text = "\
graphics:
  device:
    nested: oops
";
    assert_eq!(read_config_str(text).unwrap_err(), ConfigError::NotAString);
}

#[test]
fn number_too_large_for_its_type_is_an_error() {
    let text = "\
graphics:
  window:
    windowed:
      width: \"4294967296\"
";
    assert_eq!(read_config_str(text).unwrap_err(), ConfigError::InvalidNumber);
    let fits = "\
graphics:
  window:
    windowed:
      width: \"4294967295\"
";
    let config = read_config_str(fits).unwrap();
    assert_eq!(config.graphics.window.windowed.size.width, u32::MAX);
}

#[test]
fn scale_factor_with_too_many_fraction_digits_is_an_error() {
    let text = "\
graphics:
  window:
    windowed:
      scale_factor: \"1.2345\"
";
    assert_eq!(read_config_str(text).unwrap_err(), ConfigError::InvalidScaleFactor);
}

#[test]
fn unknown_window_mode_is_an_error() {
    let text = "\
graphics:
  window:
    mode: fullscreen
";
    assert_eq!(read_config_str(text).unwrap_err(), ConfigError::UnknownWindowMode);
}

#[test]
fn monitor_without_video_mode_is_an_error() {
    let text = "\
graphics:
  window:
    monitors:
      DP-1:
        scale_factor: \"2\"
";
    assert_eq!(read_config_str(text).unwrap_err(), ConfigError::MissingVideoMode);
}

#[test]
fn video_mode_missing_a_field_is_an_error() {
    let text = "\
graphics:
  window:
    monitors:
      DP-1:
        video_mode:
          width: \"1920\"
          height: \"1080\"
          bit_depth: \"24\"
";
    assert_eq!(read_config_str(text).unwrap_err(), ConfigError::MissingVideoModeField);
}

#[test]
fn malformed_scale_factor_is_an_error() {
    let text = "\
graphics:
  window:
    windowed:
      scale_factor: big
";
    assert_eq!(read_config_str(text).unwrap_err(), ConfigError::InvalidScaleFactor);
}

#[test]
fn scale_factors_parse_to_thousandths() {
    let text = "\
graphics:
  window:
    windowed:
      scale_factor: \"1.25\"
";
    let config = read_config_str(text).unwrap();
    assert_eq!(config.graphics.window.windowed.scale_factor, Some(ScaleFactor { millis: 1250 }));
    let whole = read_config_str("graphics:\n  window:\n    windowed:\n      scale_factor: \"2\"\n")
        .unwrap();
    assert_eq!(whole.graphics.window.windowed.scale_factor, Some(ScaleFactor { millis: 2000 }));
    let auto = read_config_str("graphics:\n  window:\n    windowed:\n      scale_factor: auto\n")
        .unwrap();
    assert_eq!(auto.graphics.window.windowed.scale_factor, None);
}

#[test]
fn text_that_is_not_yaml_is_an_error() {
    assert_eq!(read_config_str("").unwrap_err(), ConfigError::InvalidYaml);
    assert_eq!(read_config_str("audio: 'unclosed\n").unwrap_err(), ConfigError::InvalidYaml);
}

#[test]
fn scalar_root_is_not_a_mapping() {
    assert_eq!(read_config_str("just a string\n").unwrap_err(), ConfigError::NotAMapping);
}

#[test]
fn non_string_host_key_is_an_error() {
    // The YAML loader only produces string keys, but the tree itself can
    // carry any node as a key; a non-string key is rejected.
    let hosts = YamlNode::Mapping(vec![YamlEntry {
        key: YamlNode::Bad,
        value: YamlNode::Mapping(Vec::new()),
    }]);
    let audio = YamlNode::Mapping(vec![YamlEntry {
        key: YamlNode::Str(String::from("hosts")),
        value: hosts,
    }]);
    assert_eq!(parse_audio_config(&audio).unwrap_err(), ConfigError::NonStringKey);
}

#[test]
fn duplicate_mapping_keys_do_not_load() {
    let text = "audio:\n  host: a\n  host: b\n";
    assert_eq!(read_config_str(text).unwrap_err(), ConfigError::InvalidYaml);
}
