use halley_kart::graphics::PixelSize;
use halley_kart::graphics::window::{
    FullscreenChoice,
    MonitorConfig,
    MonitorEntry,
    MonitorInfo,
    VideoModeConfig,
    VideoModeInfo,
    WindowConfig,
    WindowMode,
    WindowPlanError,
    WindowedConfig,
    find_monitor,
    find_video_mode,
    plan_window,
};

fn mode(w: u32, h: u32, depth: u16, rate: u16) -> VideoModeInfo {
    VideoModeInfo { size: PixelSize::new(w, h), bit_depth: depth, refresh_rate: rate }
}

fn monitor(name: Option<&str>, modes: Vec<VideoModeInfo>) -> MonitorInfo {
    MonitorInfo { name: name.map(String::from), video_modes: modes }
}

fn fullscreen_config(mode: WindowMode, monitor: Option<&str>) -> WindowConfig {
    WindowConfig {
        mode,
        windowed: WindowedConfig::default(),
        monitor: monitor.map(String::from),
        monitors: Vec::new(),
    }
}

#[test]
fn windowed_mode_plans_a_windowed_window() {
    let config = WindowConfig::default();
    let plan = plan_window(&config, &Vec::new(), None).unwrap();
    assert_eq!(plan.fullscreen, FullscreenChoice::Windowed);
    assert!(!plan.warn_missing_monitor);
}

#[test]
fn borderless_uses_the_named_monitor() {
    let monitors = vec![
        monitor(Some("DP-1"), vec![mode(1920, 1080, 24, 60)]),
        monitor(Some("HDMI-1"), vec![mode(1280, 720, 24, 60)]),
    ];
    let config = fullscreen_config(WindowMode::BorderlessFullscreen, Some("HDMI-1"));
    let plan = plan_window(&config, &monitors, Some(0)).unwrap();
    assert_eq!(plan.fullscreen, FullscreenChoice::Borderless { monitor: Some(1) });
    assert!(!plan.warn_missing_monitor);
}

#[test]
fn borderless_with_unknown_monitor_warns_and_goes_on() {
    let monitors = vec![monitor(Some("DP-1"), vec![mode(1920, 1080, 24, 60)])];
    let config = fullscreen_config(WindowMode::BorderlessFullscreen, Some("HDMI-9"));
    let plan = plan_window(&config, &monitors, Some(0)).unwrap();
    assert_eq!(plan.fullscreen, FullscreenChoice::Borderless { monitor: None });
    assert!(plan.warn_missing_monitor);
}

#[test]
fn exclusive_picks_the_configured_video_mode() {
    let monitors = vec![monitor(
        Some("DP-1"),
        vec![mode(1920, 1080, 24, 60), mode(1280, 720, 24, 144)],
    )];
    let mut config = fullscreen_config(WindowMode::ExclusiveFullscreen, Some("DP-1"));
    config.monitors = vec![MonitorEntry {
        name: String::from("DP-1"),
        config: MonitorConfig {
            scale_factor: None,
            video_mode: VideoModeConfig {
                size: PixelSize::new(1280, 720),
                bit_depth: 24,
                refresh_rate: 144,
            },
        },
    }];
    let plan = plan_window(&config, &monitors, None).unwrap();
    assert_eq!(plan.fullscreen, FullscreenChoice::Exclusive { monitor: 0, video_mode: 1 });
}

#[test]
fn exclusive_without_configured_mode_takes_first_mode() {
    let monitors = vec![monitor(
        Some("DP-1"),
        vec![mode(1920, 1080, 24, 60), mode(1280, 720, 24, 144)],
    )];
    let config = fullscreen_config(WindowMode::ExclusiveFullscreen, None);
    let plan = plan_window(&config, &monitors, Some(0)).unwrap();
    assert_eq!(plan.fullscreen, FullscreenChoice::Exclusive { monitor: 0, video_mode: 0 });
}

#[test]
fn exclusive_falls_back_to_primary_monitor() {
    let monitors = vec![
        monitor(Some("DP-1"), vec![mode(1920, 1080, 24, 60)]),
        monitor(Some("HDMI-1"), vec![mode(1280, 720, 24, 60)]),
    ];
    let config = fullscreen_config(WindowMode::ExclusiveFullscreen, Some("absent"));
    let plan = plan_window(&config, &monitors, Some(1)).unwrap();
    assert_eq!(plan.fullscreen, FullscreenChoice::Exclusive { monitor: 1, video_mode: 0 });
    assert!(plan.warn_missing_monitor);
}

#[test]
fn exclusive_without_any_monitor_is_fatal() {
    let config = fullscreen_config(WindowMode::ExclusiveFullscreen, None);
    let err = plan_window(&config, &Vec::new(), None).unwrap_err();
    assert_eq!(err, WindowPlanError::NoMonitor);
}

#[test]
fn exclusive_on_unnamed_monitor_is_fatal() {
    let monitors = vec![monitor(None, vec![mode(1920, 1080, 24, 60)])];
    let config = fullscreen_config(WindowMode::ExclusiveFullscreen, None);
    let err = plan_window(&config, &monitors, Some(0)).unwrap_err();
    assert_eq!(err, WindowPlanError::UnnamedMonitor);
}

#[test]
fn exclusive_on_monitor_without_modes_is_fatal() {
    let monitors = vec![monitor(Some("DP-1"), Vec::new())];
    let config = fullscreen_config(WindowMode::ExclusiveFullscreen, None);
    let err = plan_window(&config, &monitors, Some(0)).unwrap_err();
    assert_eq!(err, WindowPlanError::NoVideoMode);
}

#[test]
fn monitor_search_matches_names_only() {
    let monitors = vec![
        monitor(None, Vec::new()),
        monitor(Some("DP-1"), Vec::new()),
        monitor(Some("DP-1"), Vec::new()),
    ];
    assert_eq!(find_monitor("DP-1", &monitors), Some(1));
    assert_eq!(find_monitor("DP-2", &monitors), None);
}

#[test]
fn video_mode_search_prefers_exact_match() {
    let m = monitor(Some("DP-1"), vec![mode(1920, 1080, 24, 60), mode(1280, 720, 24, 60)]);
    let wanted = VideoModeConfig {
        size: PixelSize::new(1280, 720),
        bit_depth: 24,
        refresh_rate: 60,
    };
    assert_eq!(find_video_mode(&m, &Some(wanted)), Some(1));
    let unmatched = VideoModeConfig {
        size: PixelSize::new(640, 480),
        bit_depth: 24,
        refresh_rate: 60,
    };
    // A configured mode the monitor does not offer falls back to the
    // monitor's first mode.
    assert_eq!(find_video_mode(&m, &Some(unmatched)), Some(0));
    assert_eq!(find_video_mode(&m, &None), Some(0));
}

#[test]
fn video_mode_matching_compares_all_fields() {
    let cfg = VideoModeConfig {
        size: PixelSize::new(1920, 1080),
        bit_depth: 24,
        refresh_rate: 60,
    };
    assert!(cfg.matches(&mode(1920, 1080, 24, 60)));
    assert!(!cfg.matches(&mode(1920, 1080, 24, 59)));
    assert!(!cfg.matches(&mode(1920, 1080, 32, 60)));
    assert!(!cfg.matches(&mode(1280, 1080, 24, 60)));
}
