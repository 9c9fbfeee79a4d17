//! Window configuration and fullscreen planning.
//!
//! The window is either windowed, with attributes taken straight from the
//! configuration, or fullscreen on a monitor. Fullscreen planning resolves
//! the configured monitor name against the monitors the platform reports,
//! falls back to the primary monitor, and for exclusive fullscreen picks
//! the video mode the configuration asks for, else the first mode the
//! monitor offers.

use vstd::prelude::*;
use crate::graphics::PixelSize;
use crate::search::{
    spec_find_first,
    lemma_find_first_at,
    lemma_find_first_none,
};
use crate::text::str_eq;

verus! {

/// How the window is shown.
#[derive(Copy, Clone, Debug, PartialEq, Eq, Structural)]
pub enum WindowMode {
    Windowed,
    ExclusiveFullscreen,
    BorderlessFullscreen,
}

impl Default for WindowMode {
    fn default() -> (r: Self)
        ensures
            r == WindowMode::Windowed,
    {
        WindowMode::Windowed
    }
}

/// A display scale factor in thousandths, so that the configuration can
/// carry `1.5` as 1500 without floating point.
#[derive(Copy, Clone, Debug, PartialEq, Eq, Structural)]
pub struct ScaleFactor {
    pub millis: u32,
}

/// The attributes of a windowed (non-fullscreen) window.
#[derive(Copy, Clone, Debug, PartialEq, Eq, Structural)]
pub struct WindowedConfig {
    pub size: PixelSize,
    pub always_on_top: bool,
    pub decorations: bool,
    pub maximized: bool,
    pub resizable: bool,
    pub scale_factor: Option<ScaleFactor>,
}

impl WindowedConfig {
    pub open spec fn spec_default() -> WindowedConfig {
        WindowedConfig {
            size: PixelSize { width: 1280, height: 720 },
            always_on_top: false,
            decorations: false,
            maximized: true,
            resizable: true,
            scale_factor: None,
        }
    }
}

impl Default for WindowedConfig {
    fn default() -> (r: Self)
        ensures
            r == WindowedConfig::spec_default(),
    {
        WindowedConfig {
            size: PixelSize { width: 1280, height: 720 },
            always_on_top: false,
            decorations: false,
            maximized: true,
            resizable: true,
            scale_factor: None,
        }
    }
}

/// The video mode the configuration asks for on a monitor.
#[derive(Copy, Clone, Debug, PartialEq, Eq, Structural)]
pub struct VideoModeConfig {
    pub size: PixelSize,
    pub bit_depth: u16,
    pub refresh_rate: u16,
}

/// A video mode a monitor offers, as the platform reports it.
#[derive(Copy, Clone, Debug, PartialEq, Eq, Structural)]
pub struct VideoModeInfo {
    pub size: PixelSize,
    pub bit_depth: u16,
    pub refresh_rate: u16,
}

impl VideoModeConfig {
    pub open spec fn spec_matches(self, mode: VideoModeInfo) -> bool {
        self.size == mode.size && self.bit_depth == mode.bit_depth && self.refresh_rate
            == mode.refresh_rate
    }

    /// Whether a reported mode is the one this configuration asks for.
    pub fn matches(&self, mode: &VideoModeInfo) -> (r: bool)
        ensures
            r == self.spec_matches(*mode),
    {
        self.size == mode.size && self.bit_depth == mode.bit_depth && self.refresh_rate
            == mode.refresh_rate
    }
}

/// The per-monitor section of the configuration.
#[derive(Copy, Clone, Debug, PartialEq, Eq, Structural)]
pub struct MonitorConfig {
    pub scale_factor: Option<ScaleFactor>,
    pub video_mode: VideoModeConfig,
}

/// One named monitor entry of the configuration.
#[derive(Clone, Debug)]
pub struct MonitorEntry {
    pub name: String,
    pub config: MonitorConfig,
}

/// The window section of the configuration.
#[derive(Clone, Debug)]
pub struct WindowConfig {
    pub mode: WindowMode,
    pub windowed: WindowedConfig,
    pub monitor: Option<String>,
    pub monitors: Vec<MonitorEntry>,
}

impl Default for WindowConfig {
    fn default() -> (r: Self)
        ensures
            r.deep_view() == spec_window_config_default(),
    {
        let r = WindowConfig {
            mode: WindowMode::default(),
            windowed: WindowedConfig::default(),
            monitor: None,
            monitors: Vec::new(),
        };
        proof {
            assert(r.deep_view().monitors =~= spec_window_config_default().monitors);
        }
        r
    }
}

/// The mathematical value of one monitor entry.
pub struct MonitorEntryV {
    pub name: Seq<char>,
    pub config: MonitorConfig,
}

/// The mathematical value of the window configuration.
pub struct WindowConfigV {
    pub mode: WindowMode,
    pub windowed: WindowedConfig,
    pub monitor: Option<Seq<char>>,
    pub monitors: Seq<MonitorEntryV>,
}

impl DeepView for MonitorEntry {
    type V = MonitorEntryV;

    open spec fn deep_view(&self) -> MonitorEntryV {
        MonitorEntryV { name: self.name.deep_view(), config: self.config }
    }
}

impl DeepView for WindowConfig {
    type V = WindowConfigV;

    open spec fn deep_view(&self) -> WindowConfigV {
        WindowConfigV {
            mode: self.mode,
            windowed: self.windowed,
            monitor: self.monitor.deep_view(),
            monitors: self.monitors.deep_view(),
        }
    }
}

/// The window configuration every missing section falls back to.
pub open spec fn spec_window_config_default() -> WindowConfigV {
    WindowConfigV {
        mode: WindowMode::Windowed,
        windowed: WindowedConfig::spec_default(),
        monitor: None,
        monitors: Seq::empty(),
    }
}

/// A monitor the platform reports: its name, where it has one, and the
/// video modes it offers in the platform's order.
#[derive(Clone, Debug)]
pub struct MonitorInfo {
    pub name: Option<String>,
    pub video_modes: Vec<VideoModeInfo>,
}

pub open spec fn monitor_name_pred(name: Seq<char>) -> spec_fn(MonitorInfo) -> bool {
    |m: MonitorInfo|
        match m.name {
            Some(n) => n@ == name,
            None => false,
        }
}

pub open spec fn entry_name_pred(name: Seq<char>) -> spec_fn(MonitorEntry) -> bool {
    |e: MonitorEntry| e.name@ == name
}

pub open spec fn mode_match_pred(cfg: VideoModeConfig) -> spec_fn(VideoModeInfo) -> bool {
    |m: VideoModeInfo| cfg.spec_matches(m)
}

/// The first monitor with the given name, if any.
pub fn find_monitor(name: &str, monitors: &Vec<MonitorInfo>) -> (r: Option<usize>)
    ensures
        match r {
            Some(i) => spec_find_first(monitors@, monitor_name_pred(name@)) == Some(i as int)
                && i < monitors@.len(),
            None => spec_find_first(monitors@, monitor_name_pred(name@)) is None,
        },
{
    let n = monitors.len();
    let mut i: usize = 0;
    while i < n
        invariant
            0 <= i <= n,
            n == monitors@.len(),
            forall|j: int| 0 <= j < i ==> !monitor_name_pred(name@)(#[trigger] monitors@[j]),
        decreases n - i,
    {
        let found = match &monitors[i].name {
            Some(m_name) => str_eq(m_name.as_str(), name),
            None => false,
        };
        if found {
            proof {
                lemma_find_first_at(monitors@, monitor_name_pred(name@), i as int);
            }
            return Some(i);
        }
        i = i + 1;
    }
    proof {
        lemma_find_first_none(monitors@, monitor_name_pred(name@));
    }
    None
}

impl WindowConfig {
    /// The configured section for the monitor of the given name, if any:
    /// the first entry with that name.
    pub fn monitor_config(&self, name: &str) -> (r: Option<MonitorConfig>)
        ensures
            match spec_find_first(self.monitors@, entry_name_pred(name@)) {
                Some(i) => r == Some(self.monitors@[i].config),
                None => r is None,
            },
    {
        let n = self.monitors.len();
        let mut i: usize = 0;
        while i < n
            invariant
                0 <= i <= n,
                n == self.monitors@.len(),
                forall|j: int|
                    0 <= j < i ==> !entry_name_pred(name@)(#[trigger] self.monitors@[j]),
            decreases n - i,
        {
            if str_eq(self.monitors[i].name.as_str(), name) {
                proof {
                    lemma_find_first_at(self.monitors@, entry_name_pred(name@), i as int);
                }
                return Some(self.monitors[i].config);
            }
            i = i + 1;
        }
        proof {
            lemma_find_first_none(self.monitors@, entry_name_pred(name@));
        }
        None
    }
}

/// The video mode to use on a monitor: the first mode matching the
/// configured one where a configuration is given and matches, else the
/// first mode the monitor offers; nothing when the monitor has no modes.
pub open spec fn spec_find_video_mode(
    monitor: MonitorInfo,
    config: Option<VideoModeConfig>,
) -> Option<int> {
    let preferred = match config {
        Some(cfg) => spec_find_first(monitor.video_modes@, mode_match_pred(cfg)),
        None => None,
    };
    match preferred {
        Some(i) => Some(i),
        None => if monitor.video_modes@.len() > 0 {
            Some(0int)
        } else {
            None
        },
    }
}

/// Find the video mode to use on a monitor.
pub fn find_video_mode(monitor: &MonitorInfo, config: &Option<VideoModeConfig>) -> (r: Option<
    usize,
>)
    ensures
        match r {
            Some(i) => spec_find_video_mode(*monitor, *config) == Some(i as int) && i
                < monitor.video_modes@.len(),
            None => spec_find_video_mode(*monitor, *config) is None,
        },
{
    let n = monitor.video_modes.len();
    if let Some(cfg) = config {
        let mut i: usize = 0;
        while i < n
            invariant
                0 <= i <= n,
                n == monitor.video_modes@.len(),
                config == Some(*cfg),
                forall|j: int|
                    0 <= j < i ==> !mode_match_pred(*cfg)(#[trigger] monitor.video_modes@[j]),
            decreases n - i,
        {
            if cfg.matches(&monitor.video_modes[i]) {
                proof {
                    lemma_find_first_at(monitor.video_modes@, mode_match_pred(*cfg), i as int);
                }
                return Some(i);
            }
            i = i + 1;
        }
        proof {
            lemma_find_first_none(monitor.video_modes@, mode_match_pred(*cfg));
        }
    }
    if n > 0 {
        Some(0)
    } else {
        None
    }
}

/// How the window will be shown: windowed with the configured attributes,
/// borderless fullscreen on an optional monitor, or exclusive fullscreen
/// in one video mode of one monitor. Indices refer to the platform's
/// monitor list and to the chosen monitor's video mode list.
#[derive(Copy, Clone, Debug, PartialEq, Eq, Structural)]
pub enum FullscreenChoice {
    Windowed,
    Borderless { monitor: Option<usize> },
    Exclusive { monitor: usize, video_mode: usize },
}

/// The window plan, together with whether a configured monitor name went
/// unmatched and deserves a warning.
#[derive(Copy, Clone, Debug, PartialEq, Eq, Structural)]
pub struct WindowPlan {
    pub fullscreen: FullscreenChoice,
    pub warn_missing_monitor: bool,
}

/// Why no fullscreen window can be planned: all fatal.
#[derive(Copy, Clone, Debug, PartialEq, Eq, Structural)]
pub enum WindowPlanError {
    /// Exclusive fullscreen was asked for but no monitor exists.
    NoMonitor,
    /// The chosen monitor has no name to look its configuration up by.
    UnnamedMonitor,
    /// The chosen monitor offers no video mode.
    NoVideoMode,
}

/// The primary monitor to fall back on: the reported primary where it is
/// a valid index, else the first monitor, else nothing.
pub open spec fn spec_resolve_primary(primary: Option<usize>, count: int) -> Option<int> {
    match primary {
        Some(i) => if i < count {
            Some(i as int)
        } else if count > 0 {
            Some(0int)
        } else {
            None
        },
        None => if count > 0 {
            Some(0int)
        } else {
            None
        },
    }
}

/// The monitor a fullscreen configuration names, if it is found.
pub open spec fn spec_configured_monitor(
    config: WindowConfig,
    monitors: Seq<MonitorInfo>,
) -> Option<int> {
    match config.monitor {
        Some(name) => spec_find_first(monitors, monitor_name_pred(name@)),
        None => None,
    }
}

/// Whether the configuration names a monitor that is not found.
pub open spec fn spec_warn_missing_monitor(
    config: WindowConfig,
    monitors: Seq<MonitorInfo>,
) -> bool {
    config.monitor is Some && spec_configured_monitor(config, monitors) is None
}

/// The window plan for a configuration against the platform's monitors:
/// windowed mode plans a windowed window; borderless fullscreen takes the
/// configured monitor where found; exclusive fullscreen falls back to the
/// primary monitor, looks the monitor's configured video mode up by the
/// monitor's name, and picks the mode to use.
pub open spec fn spec_plan_window(
    config: WindowConfig,
    monitors: Seq<MonitorInfo>,
    primary: Option<usize>,
) -> Result<WindowPlan, WindowPlanError> {
    if config.mode == WindowMode::Windowed {
        Ok(WindowPlan { fullscreen: FullscreenChoice::Windowed, warn_missing_monitor: false })
    } else {
        let found = spec_configured_monitor(config, monitors);
        let warn = spec_warn_missing_monitor(config, monitors);
        if config.mode == WindowMode::BorderlessFullscreen {
            Ok(
                WindowPlan {
                    fullscreen: FullscreenChoice::Borderless {
                        monitor: match found {
                            Some(i) => Some(i as usize),
                            None => None,
                        },
                    },
                    warn_missing_monitor: warn,
                },
            )
        } else {
            let chosen = match found {
                Some(i) => Some(i),
                None => spec_resolve_primary(primary, monitors.len() as int),
            };
            match chosen {
                None => Err(WindowPlanError::NoMonitor),
                Some(mi) => match monitors[mi].name {
                    None => Err(WindowPlanError::UnnamedMonitor),
                    Some(mname) => {
                        let mode_config = match spec_find_first(
                            config.monitors@,
                            entry_name_pred(mname@),
                        ) {
                            Some(k) => Some(config.monitors@[k].config.video_mode),
                            None => None,
                        };
                        match spec_find_video_mode(monitors[mi], mode_config) {
                            None => Err(WindowPlanError::NoVideoMode),
                            Some(vi) => Ok(
                                WindowPlan {
                                    fullscreen: FullscreenChoice::Exclusive {
                                        monitor: mi as usize,
                                        video_mode: vi as usize,
                                    },
                                    warn_missing_monitor: warn,
                                },
                            ),
                        }
                    },
                },
            }
        }
    }
}

/// Plan the window for the given configuration, monitors and reported
/// primary monitor.
pub fn plan_window(
    config: &WindowConfig,
    monitors: &Vec<MonitorInfo>,
    primary: Option<usize>,
) -> (r: Result<WindowPlan, WindowPlanError>)
    ensures
        r == spec_plan_window(*config, monitors@, primary),
        r matches Ok(plan) ==> (plan.fullscreen matches FullscreenChoice::Exclusive {
            monitor,
            video_mode,
        } ==> monitor < monitors@.len() && video_mode
            < monitors@[monitor as int].video_modes@.len()),
{
    if matches!(config.mode, WindowMode::Windowed) {
        return Ok(
            WindowPlan { fullscreen: FullscreenChoice::Windowed, warn_missing_monitor: false },
        );
    }
    let found: Option<usize> = match &config.monitor {
        Some(name) => find_monitor(name.as_str(), monitors),
        None => None,
    };
    let warn = config.monitor.is_some() && found.is_none();
    if matches!(config.mode, WindowMode::BorderlessFullscreen) {
        return Ok(
            WindowPlan {
                fullscreen: FullscreenChoice::Borderless { monitor: found },
                warn_missing_monitor: warn,
            },
        );
    }
    let chosen: usize = match found {
        Some(i) => i,
        None => {
            let count = monitors.len();
            match primary {
                Some(i) => if i < count {
                    i
                } else if count > 0 {
                    0
                } else {
                    return Err(WindowPlanError::NoMonitor);
                },
                None => if count > 0 {
                    0
                } else {
                    return Err(WindowPlanError::NoMonitor);
                },
            }
        },
    };
    let monitor = &monitors[chosen];
    let mode_config: Option<VideoModeConfig> = match &monitor.name {
        Some(mname) => match config.monitor_config(mname.as_str()) {
            Some(mc) => Some(mc.video_mode),
            None => None,
        },
        None => {
            return Err(WindowPlanError::UnnamedMonitor);
        },
    };
    match find_video_mode(monitor, &mode_config) {
        Some(vi) => Ok(
            WindowPlan {
                fullscreen: FullscreenChoice::Exclusive { monitor: chosen, video_mode: vi },
                warn_missing_monitor: warn,
            },
        ),
        None => Err(WindowPlanError::NoVideoMode),
    }
}

} // verus!
