use halley_kart::audio::{
    AudioConfig,
    AudioHostConfig,
    HostChoice,
    HostEntry,
    HostInfo,
    OutputDeviceChoice,
    select_host,
    select_output_device,
};

fn host(name: &str, available: bool) -> HostInfo {
    HostInfo { name: String::from(name), available }
}

#[test]
fn requested_host_missing_falls_back_to_default() {
    // The configuration requests the JACK host but the platform lacks a
    // JACK backend: the choice is a warned fallback to the default host,
    // and the program goes on.
    let hosts = vec![host("alsa", true), host("pulse", true)];
    let choice = select_host(&Some(String::from("jack")), &hosts);
    assert_eq!(choice, HostChoice::FallbackUnknown);
}

#[test]
fn requested_host_found_and_available_is_used() {
    let hosts = vec![host("alsa", true), host("jack", true)];
    let choice = select_host(&Some(String::from("jack")), &hosts);
    assert_eq!(choice, HostChoice::UseRequested(1));
}

#[test]
fn requested_host_found_but_unavailable_falls_back() {
    let hosts = vec![host("alsa", true), host("jack", false)];
    let choice = select_host(&Some(String::from("jack")), &hosts);
    assert_eq!(choice, HostChoice::FallbackUnavailable(1));
}

#[test]
fn no_requested_host_means_platform_default() {
    let hosts = vec![host("alsa", true)];
    assert_eq!(select_host(&None, &hosts), HostChoice::PlatformDefault);
}

#[test]
fn requested_device_found_is_used() {
    let names = vec![
        Some(String::from("speakers")),
        None,
        Some(String::from("headphones")),
    ];
    let choice = select_output_device(&Some(String::from("headphones")), &names);
    assert_eq!(choice, OutputDeviceChoice::UseRequested(2));
}

#[test]
fn requested_device_missing_falls_back() {
    let names = vec![Some(String::from("speakers")), None];
    let choice = select_output_device(&Some(String::from("headphones")), &names);
    assert_eq!(choice, OutputDeviceChoice::FallbackMissing);
}

#[test]
fn no_requested_device_means_default() {
    let names = vec![Some(String::from("speakers"))];
    assert_eq!(select_output_device(&None, &names), OutputDeviceChoice::PlatformDefault);
}

#[test]
fn host_config_lookup_takes_first_matching_entry() {
    let config = AudioConfig {
        host: Some(String::from("jack")),
        hosts: vec![
            HostEntry {
                name: String::from("alsa"),
                config: AudioHostConfig { output_device: Some(String::from("speakers")) },
            },
            HostEntry {
                name: String::from("jack"),
                config: AudioHostConfig { output_device: Some(String::from("monitors")) },
            },
        ],
    };
    let jack = config.host_config("jack").unwrap();
    assert_eq!(jack.output_device.as_deref(), Some("monitors"));
    assert!(config.host_config("pipewire").is_none());
}

#[test]
fn audio_defaults_are_empty() {
    let d = AudioConfig::default();
    assert!(d.host.is_none());
    assert!(d.hosts.is_empty());
    assert!(AudioHostConfig::default().output_device.is_none());
}
