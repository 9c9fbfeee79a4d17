//! Audio host and output-device selection.
//!
//! The configuration may name an audio host and, per host, an output
//! device. Selection is a recoverable miss: a requested host or device
//! that the platform does not offer is worth a warning and a fallback to
//! the platform default, never a failure.

use vstd::prelude::*;
use crate::search::{
    spec_find_first,
    lemma_find_first_at,
    lemma_find_first_none,
};
use crate::text::str_eq;

verus! {

/// The audio section of the configuration.
#[derive(Clone, Debug)]
pub struct AudioConfig {
    /// The requested host name; nothing means the platform default.
    pub host: Option<String>,
    /// Per-host configuration, looked up by host name.
    pub hosts: Vec<HostEntry>,
}

/// One named host entry of the configuration.
#[derive(Clone, Debug)]
pub struct HostEntry {
    pub name: String,
    pub config: AudioHostConfig,
}

/// The per-host section of the configuration.
#[derive(Clone, Debug)]
pub struct AudioHostConfig {
    /// The requested output device name; nothing means the default device.
    pub output_device: Option<String>,
}

/// The audio configuration a missing `audio` section falls back to.
pub open spec fn spec_audio_config_default() -> AudioConfigV {
    AudioConfigV { host: None, hosts: Seq::empty() }
}

impl Default for AudioConfig {
    fn default() -> (r: Self)
        ensures
            r.deep_view() == spec_audio_config_default(),
    {
        let r = AudioConfig { host: None, hosts: Vec::new() };
        proof {
            assert(r.deep_view().hosts =~= spec_audio_config_default().hosts);
        }
        r
    }
}

impl Default for AudioHostConfig {
    fn default() -> (r: Self)
        ensures
            r.output_device is None,
    {
        AudioHostConfig { output_device: None }
    }
}

/// The mathematical value of a per-host configuration.
pub struct AudioHostConfigV {
    pub output_device: Option<Seq<char>>,
}

/// The mathematical value of one host entry.
pub struct HostEntryV {
    pub name: Seq<char>,
    pub config: AudioHostConfigV,
}

/// The mathematical value of the audio configuration.
pub struct AudioConfigV {
    pub host: Option<Seq<char>>,
    pub hosts: Seq<HostEntryV>,
}

impl DeepView for AudioHostConfig {
    type V = AudioHostConfigV;

    open spec fn deep_view(&self) -> AudioHostConfigV {
        AudioHostConfigV { output_device: self.output_device.deep_view() }
    }
}

impl DeepView for HostEntry {
    type V = HostEntryV;

    open spec fn deep_view(&self) -> HostEntryV {
        HostEntryV { name: self.name.deep_view(), config: self.config.deep_view() }
    }
}

impl DeepView for AudioConfig {
    type V = AudioConfigV;

    open spec fn deep_view(&self) -> AudioConfigV {
        AudioConfigV { host: self.host.deep_view(), hosts: self.hosts.deep_view() }
    }
}

pub open spec fn host_entry_pred(name: Seq<char>) -> spec_fn(HostEntry) -> bool {
    |e: HostEntry| e.name@ == name
}

impl AudioConfig {
    /// The configured section for the host of the given name, if any:
    /// the first entry with that name.
    pub fn host_config(&self, name: &str) -> (r: Option<&AudioHostConfig>)
        ensures
            match spec_find_first(self.hosts@, host_entry_pred(name@)) {
                Some(i) => r matches Some(c) && *c == self.hosts@[i].config,
                None => r is None,
            },
    {
        let n = self.hosts.len();
        let mut i: usize = 0;
        while i < n
            invariant
                0 <= i <= n,
                n == self.hosts@.len(),
                forall|j: int| 0 <= j < i ==> !host_entry_pred(name@)(#[trigger] self.hosts@[j]),
            decreases n - i,
        {
            if str_eq(self.hosts[i].name.as_str(), name) {
                proof {
                    lemma_find_first_at(self.hosts@, host_entry_pred(name@), i as int);
                }
                return Some(&self.hosts[i].config);
            }
            i = i + 1;
        }
        proof {
            lemma_find_first_none(self.hosts@, host_entry_pred(name@));
        }
        None
    }
}

/// An audio host the platform knows of: its name and whether a connection
/// to it can actually be made.
#[derive(Clone, Debug)]
pub struct HostInfo {
    pub name: String,
    pub available: bool,
}

/// The outcome of host selection.
#[derive(Copy, Clone, Debug, PartialEq, Eq, Structural)]
pub enum HostChoice {
    /// Use the requested host, found at this index.
    UseRequested(usize),
    /// The requested host exists at this index but is unavailable: warn
    /// and use the platform default.
    FallbackUnavailable(usize),
    /// No host of the requested name exists on this platform: warn and
    /// use the platform default.
    FallbackUnknown,
    /// Nothing was requested: use the platform default.
    PlatformDefault,
}

pub open spec fn host_name_pred(name: Seq<char>) -> spec_fn(HostInfo) -> bool {
    |h: HostInfo| h.name@ == name
}

/// The host to use for a request against the platform's hosts: the first
/// host of the requested name where it exists and is available, else a
/// warned fallback to the platform default; no request means the default
/// without a warning.
pub open spec fn spec_select_host(requested: Option<Seq<char>>, hosts: Seq<HostInfo>) -> HostChoice {
    match requested {
        None => HostChoice::PlatformDefault,
        Some(name) => match spec_find_first(hosts, host_name_pred(name)) {
            None => HostChoice::FallbackUnknown,
            Some(i) => if hosts[i].available {
                HostChoice::UseRequested(i as usize)
            } else {
                HostChoice::FallbackUnavailable(i as usize)
            },
        },
    }
}

/// Select the audio host. A requested host that does not exist or is
/// unavailable falls back to the platform default and the program goes
/// on; it is never an error.
pub fn select_host(requested: &Option<String>, hosts: &Vec<HostInfo>) -> (r: HostChoice)
    ensures
        r == spec_select_host(
            match *requested {
                Some(ref s) => Some(s@),
                None => None,
            },
            hosts@,
        ),
        r matches HostChoice::UseRequested(i) ==> i < hosts@.len(),
        r matches HostChoice::FallbackUnavailable(i) ==> i < hosts@.len(),
{
    let name = match requested {
        Some(name) => name,
        None => {
            return HostChoice::PlatformDefault;
        },
    };
    let n = hosts.len();
    let mut i: usize = 0;
    while i < n
        invariant
            0 <= i <= n,
            n == hosts@.len(),
            *requested == Some(*name),
            forall|j: int| 0 <= j < i ==> !host_name_pred(name@)(#[trigger] hosts@[j]),
        decreases n - i,
    {
        if str_eq(hosts[i].name.as_str(), name.as_str()) {
            proof {
                lemma_find_first_at(hosts@, host_name_pred(name@), i as int);
            }
            if hosts[i].available {
                return HostChoice::UseRequested(i);
            } else {
                return HostChoice::FallbackUnavailable(i);
            }
        }
        i = i + 1;
    }
    proof {
        lemma_find_first_none(hosts@, host_name_pred(name@));
    }
    HostChoice::FallbackUnknown
}

/// The outcome of output-device selection.
#[derive(Copy, Clone, Debug, PartialEq, Eq, Structural)]
pub enum OutputDeviceChoice {
    /// Use the requested device, found at this index.
    UseRequested(usize),
    /// The requested device was not found: warn and use the default
    /// output device.
    FallbackMissing,
    /// Nothing was requested: use the default output device.
    PlatformDefault,
}

pub open spec fn device_name_pred(name: Seq<char>) -> spec_fn(Option<String>) -> bool {
    |d: Option<String>|
        match d {
            Some(n) => n@ == name,
            None => false,
        }
}

/// The output device to use: the first device whose reported name equals
/// the requested one — a device whose name the platform failed to give
/// never matches — else a warned fallback; no request means the default.
pub open spec fn spec_select_output_device(
    requested: Option<Seq<char>>,
    device_names: Seq<Option<String>>,
) -> OutputDeviceChoice {
    match requested {
        None => OutputDeviceChoice::PlatformDefault,
        Some(name) => match spec_find_first(device_names, device_name_pred(name)) {
            Some(i) => OutputDeviceChoice::UseRequested(i as usize),
            None => OutputDeviceChoice::FallbackMissing,
        },
    }
}

/// Select the output device among the devices the platform lists; a name
/// the platform could not report is passed as nothing and never matches.
pub fn select_output_device(
    requested: &Option<String>,
    device_names: &Vec<Option<String>>,
) -> (r: OutputDeviceChoice)
    ensures
        r == spec_select_output_device(
            match *requested {
                Some(ref s) => Some(s@),
                None => None,
            },
            device_names@,
        ),
        r matches OutputDeviceChoice::UseRequested(i) ==> i < device_names@.len(),
{
    let name = match requested {
        Some(name) => name,
        None => {
            return OutputDeviceChoice::PlatformDefault;
        },
    };
    let n = device_names.len();
    let mut i: usize = 0;
    while i < n
        invariant
            0 <= i <= n,
            n == device_names@.len(),
            *requested == Some(*name),
            forall|j: int| 0 <= j < i ==> !device_name_pred(name@)(#[trigger] device_names@[j]),
        decreases n - i,
    {
        let matched = match &device_names[i] {
            Some(d_name) => str_eq(d_name.as_str(), name.as_str()),
            None => false,
        };
        if matched {
            proof {
                lemma_find_first_at(device_names@, device_name_pred(name@), i as int);
            }
            return OutputDeviceChoice::UseRequested(i);
        }
        i = i + 1;
    }
    proof {
        lemma_find_first_none(device_names@, device_name_pred(name@));
    }
    OutputDeviceChoice::FallbackMissing
}

} // verus!
