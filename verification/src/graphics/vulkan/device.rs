//! Physical-device enumeration and selection, and logical-device queue
//! planning.
//!
//! The platform layer describes each candidate GPU as a
//! `PhysicalDeviceInfo`: its unique id, its kind, its queue families and
//! whether it supports the swapchain extension. Enumeration keeps the
//! candidates that can run this program and says why the others cannot.
//! Selection applies the configured policy: an explicit id wins where it
//! matches, `Best` prefers a discrete then an integrated GPU, and
//! otherwise the first candidate in enumeration order is taken. Queue
//! planning requests one queue per distinct family and aliases the
//! present queue to the graphics queue when one family serves both roles.

use vstd::prelude::*;
use crate::search::{
    spec_find_first,
    lemma_find_first_at,
    lemma_find_first_none,
    lemma_find_first_props,
};

verus! {

/// The device-selection policy from the configuration.
#[derive(Copy, Clone, Debug, PartialEq, Eq, Structural)]
pub enum DeviceSelection {
    Auto,
    Best,
    /// An explicit device id, the 128-bit value of the device UUID.
    Uuid(u128),
}

impl Default for DeviceSelection {
    fn default() -> (r: Self)
        ensures
            r == DeviceSelection::Best,
    {
        Self::Best
    }
}

/// The kind of a physical device, as the platform reports it.
#[derive(Copy, Clone, Debug, PartialEq, Eq, Structural)]
pub enum PhysicalDeviceKind {
    Other,
    IntegratedGpu,
    DiscreteGpu,
    VirtualGpu,
    Cpu,
}

/// One queue family of a physical device: whether it can run graphics
/// commands and whether it can present to the target surface.
#[derive(Copy, Clone, Debug, PartialEq, Eq, Structural)]
pub struct QueueFamilyInfo {
    pub supports_graphics: bool,
    pub supports_present: bool,
}

/// A candidate physical device, in the platform's enumeration order.
#[derive(Debug, Clone)]
pub struct PhysicalDeviceInfo {
    /// The device UUID as a 128-bit integer.
    pub uuid: u128,
    pub kind: PhysicalDeviceKind,
    /// The device's queue families, in the platform's order.
    pub queue_families: Vec<QueueFamilyInfo>,
    /// Whether the device supports the swapchain extension.
    pub supports_swapchain: bool,
}

/// The queue families this program uses on a device: indices into the
/// device's queue family list. The two may coincide.
#[derive(Copy, Clone, Debug, PartialEq, Eq, Structural)]
pub struct QueueFamilies {
    pub graphics_family: usize,
    pub present_family: usize,
}

/// Why a candidate device lacks a queue family this program needs.
#[derive(Copy, Clone, Debug, PartialEq, Eq, Structural)]
pub enum MissingQueueFamily {
    MissingGraphicsFamily,
    MissingPresentFamily,
}

/// Why a candidate device lacks an extension this program needs.
#[derive(Copy, Clone, Debug, PartialEq, Eq, Structural)]
pub enum MissingExtension {
    MissingSwapchain,
}

/// Why a candidate device cannot run this program.
#[derive(Copy, Clone, Debug, PartialEq, Eq, Structural)]
pub enum MissingFeature {
    MissingQueueFamily(MissingQueueFamily),
    MissingExtension(MissingExtension),
}

pub open spec fn graphics_pred() -> spec_fn(QueueFamilyInfo) -> bool {
    |q: QueueFamilyInfo| q.supports_graphics
}

pub open spec fn present_pred() -> spec_fn(QueueFamilyInfo) -> bool {
    |q: QueueFamilyInfo| q.supports_present
}

/// The device has a queue family that can run graphics commands.
pub open spec fn spec_has_graphics(d: PhysicalDeviceInfo) -> bool {
    spec_find_first(d.queue_families@, graphics_pred()) is Some
}

/// The device has a queue family that can present to the surface.
pub open spec fn spec_has_present(d: PhysicalDeviceInfo) -> bool {
    spec_find_first(d.queue_families@, present_pred()) is Some
}

/// The device can run this program.
pub open spec fn spec_eligible(d: PhysicalDeviceInfo) -> bool {
    spec_has_graphics(d) && spec_has_present(d) && d.supports_swapchain
}

pub open spec fn eligible_pred() -> spec_fn(PhysicalDeviceInfo) -> bool {
    |d: PhysicalDeviceInfo| spec_eligible(d)
}

/// Why an ineligible device is excluded: the checks run in the order
/// graphics family, present family, swapchain extension.
pub open spec fn spec_rejection(d: PhysicalDeviceInfo) -> MissingFeature {
    if !spec_has_graphics(d) {
        MissingFeature::MissingQueueFamily(MissingQueueFamily::MissingGraphicsFamily)
    } else if !spec_has_present(d) {
        MissingFeature::MissingQueueFamily(MissingQueueFamily::MissingPresentFamily)
    } else {
        MissingFeature::MissingExtension(MissingExtension::MissingSwapchain)
    }
}

/// The queue families an eligible device is used with: the first graphics
/// family and the first presenting family.
pub open spec fn spec_queue_families(d: PhysicalDeviceInfo) -> QueueFamilies {
    QueueFamilies {
        graphics_family: (match spec_find_first(d.queue_families@, graphics_pred()) {
            Some(i) => i,
            None => 0,
        }) as usize,
        present_family: (match spec_find_first(d.queue_families@, present_pred()) {
            Some(i) => i,
            None => 0,
        }) as usize,
    }
}

/// The first queue family of the device that supports graphics.
pub fn find_graphics_family(families: &Vec<QueueFamilyInfo>) -> (r: Option<usize>)
    ensures
        match r {
            Some(i) => spec_find_first(families@, graphics_pred()) == Some(i as int),
            None => spec_find_first(families@, graphics_pred()) is None,
        },
{
    let n = families.len();
    let mut i: usize = 0;
    while i < n
        invariant
            0 <= i <= n,
            n == families@.len(),
            forall|j: int| 0 <= j < i ==> !graphics_pred()(#[trigger] families@[j]),
        decreases n - i,
    {
        if families[i].supports_graphics {
            proof {
                lemma_find_first_at(families@, graphics_pred(), i as int);
            }
            return Some(i);
        }
        i = i + 1;
    }
    proof {
        lemma_find_first_none(families@, graphics_pred());
    }
    None
}

/// The first queue family of the device that can present to the surface.
pub fn find_present_family(families: &Vec<QueueFamilyInfo>) -> (r: Option<usize>)
    ensures
        match r {
            Some(i) => spec_find_first(families@, present_pred()) == Some(i as int),
            None => spec_find_first(families@, present_pred()) is None,
        },
{
    let n = families.len();
    let mut i: usize = 0;
    while i < n
        invariant
            0 <= i <= n,
            n == families@.len(),
            forall|j: int| 0 <= j < i ==> !present_pred()(#[trigger] families@[j]),
        decreases n - i,
    {
        if families[i].supports_present {
            proof {
                lemma_find_first_at(families@, present_pred(), i as int);
            }
            return Some(i);
        }
        i = i + 1;
    }
    proof {
        lemma_find_first_none(families@, present_pred());
    }
    None
}

impl QueueFamilies {
    /// Find the queue families this program needs on a device, or say
    /// which is missing: the graphics family is checked first.
    pub fn find_queue_families(device: &PhysicalDeviceInfo) -> (r: Result<
        Self,
        MissingQueueFamily,
    >)
        ensures
            spec_has_graphics(*device) && spec_has_present(*device) ==> r == Ok::<
                QueueFamilies,
                MissingQueueFamily,
            >(spec_queue_families(*device)),
            !spec_has_graphics(*device) ==> r == Err::<QueueFamilies, MissingQueueFamily>(
                MissingQueueFamily::MissingGraphicsFamily,
            ),
            spec_has_graphics(*device) && !spec_has_present(*device) ==> r == Err::<
                QueueFamilies,
                MissingQueueFamily,
            >(MissingQueueFamily::MissingPresentFamily),
    {
        let graphics_family = match find_graphics_family(&device.queue_families) {
            Some(i) => i,
            None => {
                return Err(MissingQueueFamily::MissingGraphicsFamily);
            },
        };
        let present_family = match find_present_family(&device.queue_families) {
            Some(i) => i,
            None => {
                return Err(MissingQueueFamily::MissingPresentFamily);
            },
        };
        Ok(QueueFamilies { graphics_family, present_family })
    }

    /// One queue family serves both graphics and present.
    pub fn dual_purpose_family(&self) -> (r: bool)
        ensures
            r == (self.graphics_family == self.present_family),
    {
        self.graphics_family == self.present_family
    }

    /// The queue requests for logical-device creation: one request per
    /// distinct family, never the same family twice.
    pub fn priorities(&self) -> (r: Vec<QueueRequest>)
        ensures
            r@ == spec_queue_requests(*self),
    {
        let mut requests: Vec<QueueRequest> = Vec::new();
        if self.dual_purpose_family() {
            requests.push(QueueRequest { family: self.graphics_family, priority_hundredths: 100 });
        } else {
            requests.push(QueueRequest { family: self.graphics_family, priority_hundredths: 100 });
            requests.push(QueueRequest { family: self.present_family, priority_hundredths: 50 });
        }
        proof {
            assert(requests@ =~= spec_queue_requests(*self));
        }
        requests
    }
}

/// A request for one queue from one family. The priority is in hundredths,
/// so that the platform layer hands the graphics queue priority 1.0 and a
/// distinct present queue priority 0.5.
#[derive(Copy, Clone, Debug, PartialEq, Eq, Structural)]
pub struct QueueRequest {
    pub family: usize,
    pub priority_hundredths: u8,
}

/// The queue requests made for a device: the graphics family at full
/// priority and, only when distinct, the present family at half priority.
pub open spec fn spec_queue_requests(f: QueueFamilies) -> Seq<QueueRequest> {
    if f.graphics_family == f.present_family {
        seq![QueueRequest { family: f.graphics_family, priority_hundredths: 100 }]
    } else {
        seq![
            QueueRequest { family: f.graphics_family, priority_hundredths: 100 },
            QueueRequest { family: f.present_family, priority_hundredths: 50 },
        ]
    }
}

/// An eligible candidate: the device description together with the queue
/// families it will be used with.
#[derive(Debug, Clone)]
pub struct PhysicalDeviceExt {
    pub info: PhysicalDeviceInfo,
    pub queue_families: QueueFamilies,
}

/// Why a candidate was excluded during enumeration, for the platform
/// layer to log: the position of the device in enumeration order and the
/// missing feature.
#[derive(Copy, Clone, Debug, PartialEq, Eq, Structural)]
pub struct DeviceRejection {
    pub device_index: usize,
    pub reason: MissingFeature,
}

impl PhysicalDeviceExt {
    /// Judge one candidate: find its queue families, or say what it lacks.
    pub fn query(device: PhysicalDeviceInfo) -> (r: Result<Self, MissingQueueFamily>)
        ensures
            spec_has_graphics(device) && spec_has_present(device) ==> (r matches Ok(e) && e.info
                == device && e.queue_families == spec_queue_families(device)),
            !spec_has_graphics(device) ==> r == Err::<PhysicalDeviceExt, MissingQueueFamily>(
                MissingQueueFamily::MissingGraphicsFamily,
            ),
            spec_has_graphics(device) && !spec_has_present(device) ==> r == Err::<
                PhysicalDeviceExt,
                MissingQueueFamily,
            >(MissingQueueFamily::MissingPresentFamily),
    {
        let queue_families = match QueueFamilies::find_queue_families(&device) {
            Ok(f) => f,
            Err(e) => {
                return Err(e);
            },
        };
        Ok(Self { info: device, queue_families })
    }

    /// Keep the candidates that can run this program, in enumeration
    /// order, and report why each of the others cannot.
    pub fn enumerate(devices: Vec<PhysicalDeviceInfo>) -> (r: (
        Vec<PhysicalDeviceExt>,
        Vec<DeviceRejection>,
    ))
        ensures
            r.0@.map_values(|e: PhysicalDeviceExt| e.info) == devices@.filter(eligible_pred()),
            forall|k: int|
                0 <= k < r.0@.len() ==> (#[trigger] r.0@[k]).queue_families == spec_queue_families(
                    r.0@[k].info,
                ),
            r.0@.len() + r.1@.len() == devices@.len(),
            forall|k: int|
                0 <= k < r.1@.len() ==> (#[trigger] r.1@[k]).device_index < devices@.len()
                    && !spec_eligible(devices@[r.1@[k].device_index as int]) && r.1@[k].reason
                    == spec_rejection(devices@[r.1@[k].device_index as int]),
            forall|k1: int, k2: int|
                0 <= k1 < k2 < r.1@.len() ==> r.1@[k1].device_index < r.1@[k2].device_index,
    {
        let ghost orig = devices@;
        let mut remaining = devices;
        let total: usize = remaining.len();
        let mut eligible: Vec<PhysicalDeviceExt> = Vec::new();
        let mut rejected: Vec<DeviceRejection> = Vec::new();
        let mut idx: usize = 0;
        proof {
            reveal_with_fuel(Seq::filter, 2);
            assert(orig.take(0).filter(eligible_pred()) =~= Seq::<PhysicalDeviceInfo>::empty());
        }
        while remaining.len() > 0
            invariant
                orig.len() == total,
                idx + remaining@.len() == orig.len(),
                remaining@ =~= orig.skip(idx as int),
                eligible@.map_values(|e: PhysicalDeviceExt| e.info) =~= orig.take(
                    idx as int,
                ).filter(eligible_pred()),
                forall|k: int|
                    0 <= k < eligible@.len() ==> (#[trigger] eligible@[k]).queue_families
                        == spec_queue_families(eligible@[k].info),
                eligible@.len() + rejected@.len() == idx,
                forall|k: int|
                    0 <= k < rejected@.len() ==> (#[trigger] rejected@[k]).device_index < idx
                        && !spec_eligible(orig[rejected@[k].device_index as int])
                        && rejected@[k].reason == spec_rejection(
                        orig[rejected@[k].device_index as int],
                    ),
                forall|k1: int, k2: int|
                    0 <= k1 < k2 < rejected@.len() ==> rejected@[k1].device_index
                        < rejected@[k2].device_index,
            decreases remaining@.len(),
        {
            let device = remaining.remove(0);
            let ghost stepped = orig.take(idx + 1 as int);
            let ghost pre_map = eligible@.map_values(|e: PhysicalDeviceExt| e.info);
            proof {
                assert(device == orig[idx as int]);
                assert(stepped.drop_last() =~= orig.take(idx as int));
                assert(stepped.last() == orig[idx as int]);
            }
            match Self::query(device) {
                Ok(ext) => {
                    if ext.info.supports_swapchain {
                        let ghost pre_elig = eligible@;
                        eligible.push(ext);
                        proof {
                            reveal_with_fuel(Seq::filter, 2);
                            assert(spec_eligible(orig[idx as int]));
                            assert(stepped.filter(eligible_pred()) == orig.take(
                                idx as int,
                            ).filter(eligible_pred()).push(orig[idx as int]));
                            assert(eligible@.map_values(|e: PhysicalDeviceExt| e.info)
                                =~= pre_map.push(ext.info));
                        }
                    } else {
                        rejected.push(
                            DeviceRejection {
                                device_index: idx,
                                reason: MissingFeature::MissingExtension(
                                    MissingExtension::MissingSwapchain,
                                ),
                            },
                        );
                        proof {
                            reveal_with_fuel(Seq::filter, 2);
                            assert(!spec_eligible(orig[idx as int]));
                            assert(stepped.filter(eligible_pred()) == orig.take(
                                idx as int,
                            ).filter(eligible_pred()));
                        }
                    }
                },
                Err(missing) => {
                    rejected.push(
                        DeviceRejection {
                            device_index: idx,
                            reason: MissingFeature::MissingQueueFamily(missing),
                        },
                    );
                    proof {
                        reveal_with_fuel(Seq::filter, 2);
                        assert(!spec_eligible(orig[idx as int]));
                        assert(stepped.filter(eligible_pred()) == orig.take(idx as int).filter(
                            eligible_pred(),
                        ));
                    }
                },
            }
            idx = idx + 1;
            proof {
                assert(remaining@ =~= orig.skip(idx as int));
            }
        }
        proof {
            assert(orig.take(idx as int) =~= orig);
        }
        (eligible, rejected)
    }

    pub fn physical_device(&self) -> (r: &PhysicalDeviceInfo)
        ensures
            *r == self.info,
    {
        &self.info
    }
}

/// No candidate device can run this program: a fatal condition, reported
/// rather than defaulted.
#[derive(Copy, Clone, Debug, PartialEq, Eq, Structural)]
pub struct NoEligibleDevice;

pub open spec fn uuid_pred(u: u128) -> spec_fn(PhysicalDeviceExt) -> bool {
    |d: PhysicalDeviceExt| d.info.uuid == u
}

pub open spec fn kind_pred(k: PhysicalDeviceKind) -> spec_fn(PhysicalDeviceExt) -> bool {
    |d: PhysicalDeviceExt| d.info.kind == k
}

/// The index the selection policy picks from a non-empty candidate list:
/// a matching explicit id first; under `Best`, the first discrete GPU,
/// else the first integrated GPU; otherwise the first candidate.
pub open spec fn spec_selected_index(
    config: DeviceSelection,
    devices: Seq<PhysicalDeviceExt>,
) -> int {
    match config {
        DeviceSelection::Uuid(u) => match spec_find_first(devices, uuid_pred(u)) {
            Some(i) => i,
            None => 0,
        },
        DeviceSelection::Best => match spec_find_first(
            devices,
            kind_pred(PhysicalDeviceKind::DiscreteGpu),
        ) {
            Some(i) => i,
            None => match spec_find_first(devices, kind_pred(PhysicalDeviceKind::IntegratedGpu)) {
                Some(i) => i,
                None => 0,
            },
        },
        DeviceSelection::Auto => 0,
    }
}

/// Pick one eligible candidate by the configured policy. An empty
/// candidate list is a fatal failure, never a silent default.
pub fn select_physical_device(config: DeviceSelection, devices: &Vec<PhysicalDeviceExt>) -> (r:
    Result<usize, NoEligibleDevice>)
    ensures
        devices@.len() == 0 <==> r is Err,
        r matches Ok(i) ==> i as int == spec_selected_index(config, devices@) && i
            < devices@.len(),
{
    let n = devices.len();
    match config {
        DeviceSelection::Uuid(u) => {
            let mut i: usize = 0;
            while i < n
                invariant
                    0 <= i <= n,
                    n == devices@.len(),
                    config == DeviceSelection::Uuid(u),
                    forall|j: int| 0 <= j < i ==> !uuid_pred(u)(#[trigger] devices@[j]),
                decreases n - i,
            {
                if devices[i].info.uuid == u {
                    proof {
                        lemma_find_first_at(devices@, uuid_pred(u), i as int);
                    }
                    return Ok(i);
                }
                i = i + 1;
            }
            proof {
                lemma_find_first_none(devices@, uuid_pred(u));
            }
        },
        DeviceSelection::Best => {
            let mut i: usize = 0;
            while i < n
                invariant
                    0 <= i <= n,
                    n == devices@.len(),
                    config == DeviceSelection::Best,
                    forall|j: int|
                        0 <= j < i ==> !kind_pred(PhysicalDeviceKind::DiscreteGpu)(
                            #[trigger] devices@[j],
                        ),
                decreases n - i,
            {
                if devices[i].info.kind == PhysicalDeviceKind::DiscreteGpu {
                    proof {
                        lemma_find_first_at(
                            devices@,
                            kind_pred(PhysicalDeviceKind::DiscreteGpu),
                            i as int,
                        );
                    }
                    return Ok(i);
                }
                i = i + 1;
            }
            proof {
                lemma_find_first_none(devices@, kind_pred(PhysicalDeviceKind::DiscreteGpu));
            }
            let mut i: usize = 0;
            while i < n
                invariant
                    0 <= i <= n,
                    n == devices@.len(),
                    config == DeviceSelection::Best,
                    spec_find_first(devices@, kind_pred(PhysicalDeviceKind::DiscreteGpu))
                        is None,
                    forall|j: int|
                        0 <= j < i ==> !kind_pred(PhysicalDeviceKind::IntegratedGpu)(
                            #[trigger] devices@[j],
                        ),
                decreases n - i,
            {
                if devices[i].info.kind == PhysicalDeviceKind::IntegratedGpu {
                    proof {
                        lemma_find_first_at(
                            devices@,
                            kind_pred(PhysicalDeviceKind::IntegratedGpu),
                            i as int,
                        );
                    }
                    return Ok(i);
                }
                i = i + 1;
            }
            proof {
                lemma_find_first_none(devices@, kind_pred(PhysicalDeviceKind::IntegratedGpu));
            }
        },
        DeviceSelection::Auto => {},
    }
    if n > 0 {
        Ok(0)
    } else {
        Err(NoEligibleDevice)
    }
}

/// The queue handles resolved from a created logical device: indices into
/// the queue list the platform returned, in request order.
#[derive(Copy, Clone, Debug, PartialEq, Eq, Structural)]
pub struct Queues {
    pub graphics_queue: usize,
    pub present_queue: usize,
}

/// No queue came back from device creation: a fatal condition.
#[derive(Copy, Clone, Debug, PartialEq, Eq, Structural)]
pub struct NoQueues;

/// The queue assignment for a device that returned `queues_returned`
/// queues: the first queue runs graphics, and the second presents when
/// there is one, else the first queue serves both roles.
pub open spec fn spec_assign_queues(queues_returned: int) -> Queues {
    Queues { graphics_queue: 0, present_queue: if queues_returned >= 2 { 1 } else { 0 } }
}

impl Queues {
    /// Resolve the graphics and present queues from the queues the
    /// platform returned for the requests of `QueueFamilies::priorities`.
    pub fn assign(queues_returned: usize) -> (r: Result<Queues, NoQueues>)
        ensures
            queues_returned == 0 <==> r is Err,
            r matches Ok(q) ==> q == spec_assign_queues(queues_returned as int),
    {
        if queues_returned == 0 {
            Err(NoQueues)
        } else if queues_returned >= 2 {
            Ok(Queues { graphics_queue: 0, present_queue: 1 })
        } else {
            Ok(Queues { graphics_queue: 0, present_queue: 0 })
        }
    }

    /// One queue serves both graphics and present.
    pub fn dual_purpose_queue(&self) -> (r: bool)
        ensures
            r == (self.graphics_queue == self.present_queue),
    {
        self.graphics_queue == self.present_queue
    }
}

/// With an explicit id and a matching candidate present, selection
/// returns a candidate with that id — never a non-matching one.
pub proof fn lemma_select_explicit_id(u: u128, devices: Seq<PhysicalDeviceExt>)
    requires
        exists|i: int| 0 <= i < devices.len() && (#[trigger] devices[i]).info.uuid == u,
    ensures
        0 <= spec_selected_index(DeviceSelection::Uuid(u), devices) < devices.len(),
        devices[spec_selected_index(DeviceSelection::Uuid(u), devices)].info.uuid == u,
{
    lemma_find_first_props(devices, uuid_pred(u));
    if spec_find_first(devices, uuid_pred(u)) is None {
        let i = choose|i: int|
            0 <= i < devices.len() && (#[trigger] devices[i]).info.uuid == u;
        assert(uuid_pred(u)(devices[i]));
    }
}

/// With an explicit id and exactly one matching candidate, selection
/// returns exactly that candidate.
pub proof fn lemma_select_explicit_id_unique(u: u128, devices: Seq<PhysicalDeviceExt>, k: int)
    requires
        0 <= k < devices.len(),
        devices[k].info.uuid == u,
        forall|j: int| 0 <= j < devices.len() && j != k ==> (#[trigger] devices[j]).info.uuid != u,
    ensures
        spec_selected_index(DeviceSelection::Uuid(u), devices) == k,
{
    lemma_find_first_at(devices, uuid_pred(u), k);
}

/// With an explicit id that no candidate matches, selection behaves as
/// the default rule: the first candidate, as under `Auto`.
pub proof fn lemma_select_explicit_id_fallback(u: u128, devices: Seq<PhysicalDeviceExt>)
    requires
        forall|i: int| 0 <= i < devices.len() ==> (#[trigger] devices[i]).info.uuid != u,
    ensures
        spec_selected_index(DeviceSelection::Uuid(u), devices) == spec_selected_index(
            DeviceSelection::Auto,
            devices,
        ),
{
    lemma_find_first_none(devices, uuid_pred(u));
}

/// With at least one discrete and one integrated GPU among the
/// candidates, `Best` picks a discrete GPU.
pub proof fn lemma_best_prefers_discrete(devices: Seq<PhysicalDeviceExt>)
    requires
        exists|i: int|
            0 <= i < devices.len() && (#[trigger] devices[i]).info.kind
                == PhysicalDeviceKind::DiscreteGpu,
        exists|i: int|
            0 <= i < devices.len() && (#[trigger] devices[i]).info.kind
                == PhysicalDeviceKind::IntegratedGpu,
    ensures
        0 <= spec_selected_index(DeviceSelection::Best, devices) < devices.len(),
        devices[spec_selected_index(DeviceSelection::Best, devices)].info.kind
            == PhysicalDeviceKind::DiscreteGpu,
{
    lemma_find_first_props(devices, kind_pred(PhysicalDeviceKind::DiscreteGpu));
    if spec_find_first(devices, kind_pred(PhysicalDeviceKind::DiscreteGpu)) is None {
        let i = choose|i: int|
            0 <= i < devices.len() && (#[trigger] devices[i]).info.kind
                == PhysicalDeviceKind::DiscreteGpu;
        assert(kind_pred(PhysicalDeviceKind::DiscreteGpu)(devices[i]));
    }
}

/// With no candidate in a preferred tier, `Best` and `Auto` both return
/// the first candidate in enumeration order.
pub proof fn lemma_no_tier_takes_first(devices: Seq<PhysicalDeviceExt>)
    requires
        devices.len() > 0,
        forall|i: int|
            0 <= i < devices.len() ==> (#[trigger] devices[i]).info.kind
                != PhysicalDeviceKind::DiscreteGpu,
        forall|i: int|
            0 <= i < devices.len() ==> (#[trigger] devices[i]).info.kind
                != PhysicalDeviceKind::IntegratedGpu,
    ensures
        spec_selected_index(DeviceSelection::Best, devices) == 0,
        spec_selected_index(DeviceSelection::Auto, devices) == 0,
{
    lemma_find_first_none(devices, kind_pred(PhysicalDeviceKind::DiscreteGpu));
    lemma_find_first_none(devices, kind_pred(PhysicalDeviceKind::IntegratedGpu));
}

/// The queue-builder invariant: one family for both roles means a single
/// queue request and aliased queues; distinct families mean exactly two
/// requests, one per family, and distinct queues.
pub proof fn lemma_dual_purpose_queue(f: QueueFamilies)
    ensures
        f.graphics_family == f.present_family ==> spec_queue_requests(f).len() == 1
            && spec_assign_queues(1).graphics_queue == spec_assign_queues(1).present_queue,
        f.graphics_family != f.present_family ==> spec_queue_requests(f).len() == 2
            && spec_queue_requests(f)[0].family == f.graphics_family && spec_queue_requests(
            f,
        )[1].family == f.present_family && spec_assign_queues(2).graphics_queue
            != spec_assign_queues(2).present_queue,
{
}

} // verus!
