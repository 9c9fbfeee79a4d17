use halley_kart::graphics::vulkan::device::{
    DeviceRejection,
    DeviceSelection,
    MissingExtension,
    MissingFeature,
    MissingQueueFamily,
    PhysicalDeviceExt,
    PhysicalDeviceInfo,
    PhysicalDeviceKind,
    QueueFamilies,
    QueueFamilyInfo,
    Queues,
    find_graphics_family,
    find_present_family,
    select_physical_device,
};

fn family(graphics: bool, present: bool) -> QueueFamilyInfo {
    QueueFamilyInfo { supports_graphics: graphics, supports_present: present }
}

fn device(uuid: u128, kind: PhysicalDeviceKind) -> PhysicalDeviceInfo {
    PhysicalDeviceInfo {
        uuid,
        kind,
        queue_families: vec![family(true, true)],
        supports_swapchain: true,
    }
}

fn ext(uuid: u128, kind: PhysicalDeviceKind) -> PhysicalDeviceExt {
    PhysicalDeviceExt {
        info: device(uuid, kind),
        queue_families: QueueFamilies { graphics_family: 0, present_family: 0 },
    }
}

#[test]
fn explicit_id_returns_matching_candidate() {
    let devices = vec![
        ext(10, PhysicalDeviceKind::DiscreteGpu),
        ext(20, PhysicalDeviceKind::IntegratedGpu),
        ext(30, PhysicalDeviceKind::Other),
    ];
    let picked = select_physical_device(DeviceSelection::Uuid(20), &devices).unwrap();
    assert_eq!(picked, 1);
    assert_eq!(devices[picked].info.uuid, 20);
}

#[test]
fn explicit_id_without_match_falls_back_to_first() {
    let devices = vec![
        ext(10, PhysicalDeviceKind::Other),
        ext(20, PhysicalDeviceKind::DiscreteGpu),
    ];
    // No candidate has id 99: the default rule takes over, and for a
    // non-`Best` policy that is the first candidate in enumeration order.
    let picked = select_physical_device(DeviceSelection::Uuid(99), &devices).unwrap();
    assert_eq!(picked, 0);
}

#[test]
fn best_prefers_discrete_over_integrated() {
    let devices = vec![
        ext(1, PhysicalDeviceKind::IntegratedGpu),
        ext(2, PhysicalDeviceKind::DiscreteGpu),
        ext(3, PhysicalDeviceKind::DiscreteGpu),
    ];
    let picked = select_physical_device(DeviceSelection::Best, &devices).unwrap();
    assert_eq!(picked, 1);
    assert_eq!(devices[picked].info.kind, PhysicalDeviceKind::DiscreteGpu);
}

#[test]
fn best_and_auto_take_first_when_no_tier_matches() {
    let devices = vec![
        ext(1, PhysicalDeviceKind::Cpu),
        ext(2, PhysicalDeviceKind::VirtualGpu),
    ];
    assert_eq!(select_physical_device(DeviceSelection::Best, &devices).unwrap(), 0);
    assert_eq!(select_physical_device(DeviceSelection::Auto, &devices).unwrap(), 0);
}

#[test]
fn empty_candidate_list_is_an_error() {
    let devices: Vec<PhysicalDeviceExt> = Vec::new();
    assert!(select_physical_device(DeviceSelection::Best, &devices).is_err());
    assert!(select_physical_device(DeviceSelection::Auto, &devices).is_err());
    assert!(select_physical_device(DeviceSelection::Uuid(1), &devices).is_err());
}

#[test]
fn best_takes_single_integrated_gpu() {
    // The platform reports one integrated GPU only: `best` returns it and
    // no fatal error occurs.
    let devices = vec![ext(7, PhysicalDeviceKind::IntegratedGpu)];
    let picked = select_physical_device(DeviceSelection::Best, &devices).unwrap();
    assert_eq!(picked, 0);
    assert_eq!(devices[picked].info.uuid, 7);
}

#[test]
fn enumerate_keeps_eligible_and_reports_rejections() {
    let good = device(1, PhysicalDeviceKind::DiscreteGpu);
    let no_graphics = PhysicalDeviceInfo {
        uuid: 2,
        kind: PhysicalDeviceKind::Other,
        queue_families: vec![family(false, true)],
        supports_swapchain: true,
    };
    let no_present = PhysicalDeviceInfo {
        uuid: 3,
        kind: PhysicalDeviceKind::Other,
        queue_families: vec![family(true, false)],
        supports_swapchain: true,
    };
    let no_swapchain = PhysicalDeviceInfo {
        uuid: 4,
        kind: PhysicalDeviceKind::Other,
        queue_families: vec![family(true, true)],
        supports_swapchain: false,
    };
    let (eligible, rejected) =
        PhysicalDeviceExt::enumerate(vec![good, no_graphics, no_present, no_swapchain]);
    assert_eq!(eligible.len(), 1);
    assert_eq!(eligible[0].info.uuid, 1);
    assert_eq!(eligible[0].queue_families, QueueFamilies { graphics_family: 0, present_family: 0 });
    assert_eq!(rejected.len(), 3);
    assert_eq!(
        rejected[0],
        DeviceRejection {
            device_index: 1,
            reason: MissingFeature::MissingQueueFamily(MissingQueueFamily::MissingGraphicsFamily),
        }
    );
    assert_eq!(
        rejected[1],
        DeviceRejection {
            device_index: 2,
            reason: MissingFeature::MissingQueueFamily(MissingQueueFamily::MissingPresentFamily),
        }
    );
    assert_eq!(
        rejected[2],
        DeviceRejection {
            device_index: 3,
            reason: MissingFeature::MissingExtension(MissingExtension::MissingSwapchain),
        }
    );
}

#[test]
fn queue_family_search_takes_first_match() {
    let families = vec![family(false, true), family(true, false), family(true, true)];
    assert_eq!(find_graphics_family(&families), Some(1));
    assert_eq!(find_present_family(&families), Some(0));
    let none = vec![family(false, false)];
    assert_eq!(find_graphics_family(&none), None);
    assert_eq!(find_present_family(&none), None);
}

#[test]
fn dual_purpose_family_requests_one_queue_and_aliases() {
    let fams = QueueFamilies { graphics_family: 2, present_family: 2 };
    assert!(fams.dual_purpose_family());
    let requests = fams.priorities();
    assert_eq!(requests.len(), 1);
    assert_eq!(requests[0].family, 2);
    assert_eq!(requests[0].priority_hundredths, 100);
    let queues = Queues::assign(requests.len()).unwrap();
    assert_eq!(queues.graphics_queue, queues.present_queue);
    assert!(queues.dual_purpose_queue());
}

#[test]
fn distinct_families_request_two_queues() {
    let fams = QueueFamilies { graphics_family: 0, present_family: 3 };
    assert!(!fams.dual_purpose_family());
    let requests = fams.priorities();
    assert_eq!(requests.len(), 2);
    assert_eq!(requests[0].family, 0);
    assert_eq!(requests[0].priority_hundredths, 100);
    assert_eq!(requests[1].family, 3);
    assert_eq!(requests[1].priority_hundredths, 50);
    let queues = Queues::assign(requests.len()).unwrap();
    assert_ne!(queues.graphics_queue, queues.present_queue);
    assert!(!queues.dual_purpose_queue());
}

#[test]
fn zero_returned_queues_is_an_error() {
    assert!(Queues::assign(0).is_err());
}

#[test]
fn default_selection_is_best() {
    assert_eq!(DeviceSelection::default(), DeviceSelection::Best);
}
