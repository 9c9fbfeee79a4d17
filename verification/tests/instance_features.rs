use halley_kart::graphics::vulkan::instance::{
    InstanceExtensions,
    InstanceFeatures,
    InstanceLayers,
    QueriedInstanceFeatures,
};
use halley_kart::graphics::vulkan::{InstanceConfig, LayersConfig};

fn layers(validation: bool, device_select: bool, overlay: bool) -> InstanceLayers {
    let mut l = InstanceLayers::none();
    l.khronos_validation = validation;
    l.mesa_device_select = device_select;
    l.mesa_overlay = overlay;
    l
}

#[test]
fn layer_set_algebra() {
    let a = layers(true, true, false);
    let b = layers(true, false, true);
    let inter = a.intersection(&b);
    assert_eq!(inter, layers(true, false, false));
    let uni = a.union(&b);
    assert_eq!(uni, layers(true, true, true));
    let diff = a.difference(&b);
    assert_eq!(diff, layers(false, true, false));
    assert_eq!(InstanceLayers::required(), InstanceLayers::none());
}

#[test]
fn layer_names_in_fixed_order() {
    let names = layers(true, true, true).into_names();
    assert_eq!(
        names,
        vec![
            "VK_LAYER_KHRONOS_validation",
            "VK_LAYER_MESA_device_select",
            "VK_LAYER_MESA_overlay",
        ]
    );
    assert_eq!(layers(false, true, false).into_names(), vec!["VK_LAYER_MESA_device_select"]);
    let empty: Vec<&'static str> = Vec::new();
    assert_eq!(InstanceLayers::none().into_names(), empty);
}

#[test]
fn available_layers_judged_by_name() {
    let reported = vec![
        String::from("VK_LAYER_MESA_overlay"),
        String::from("VK_LAYER_SOMETHING_else"),
        String::from("VK_LAYER_KHRONOS_validation"),
    ];
    let available = InstanceLayers::available(&reported);
    assert_eq!(available, layers(true, false, true));
    assert_eq!(InstanceLayers::available(&Vec::new()), InstanceLayers::none());
}

#[test]
fn negotiation_selects_required_plus_available_requested() {
    // Required: surface extension only. Available: surface plus overlay
    // layer plus validation. Requested: validation and device-select.
    let mut required = InstanceFeatures::none();
    required.extensions.khr_surface = true;

    let mut available = InstanceFeatures::none();
    available.extensions.khr_surface = true;
    available.extensions.khr_xcb_surface = true;
    available.layers.khronos_validation = true;
    available.layers.mesa_overlay = true;

    let mut requested = InstanceFeatures::none();
    requested.layers.khronos_validation = true;
    requested.layers.mesa_device_select = true;

    let queried = QueriedInstanceFeatures::query(available, required).unwrap();
    let selected = queried.select(&requested);

    // Required features are always included.
    assert!(selected.extensions.khr_surface);
    // Requested and available: honored.
    assert!(selected.layers.khronos_validation);
    // Requested but unavailable: dropped.
    assert!(!selected.layers.mesa_device_select);
    // Available but neither required nor requested: not selected.
    assert!(!selected.extensions.khr_xcb_surface);
    assert!(!selected.layers.mesa_overlay);
}

#[test]
fn query_reports_exactly_the_missing_features() {
    let mut required = InstanceFeatures::none();
    required.extensions.khr_surface = true;
    required.extensions.khr_wayland_surface = true;

    let mut available = InstanceFeatures::none();
    available.extensions.khr_surface = true;

    let missing = QueriedInstanceFeatures::query(available, required).unwrap_err();
    let mut expected = InstanceExtensions::none();
    expected.khr_wayland_surface = true;
    assert_eq!(missing.extensions, expected);
    assert_eq!(missing.layers, InstanceLayers::none());
}

#[test]
fn superset_is_field_wise() {
    let mut big = InstanceFeatures::none();
    big.extensions.khr_surface = true;
    big.layers.mesa_overlay = true;
    let mut small = InstanceFeatures::none();
    small.extensions.khr_surface = true;
    assert!(big.superset(&small));
    assert!(!small.superset(&big));
    assert!(big.superset(&big));
    assert!(big.superset(&InstanceFeatures::none()));
}

#[test]
fn config_requests_only_its_layers() {
    let config = InstanceConfig {
        layers: LayersConfig {
            mesa_device_select: true,
            mesa_overlay: false,
            khronos_validation: true,
        },
    };
    let features = config.into_instance_features();
    assert_eq!(features.extensions, InstanceExtensions::none());
    assert_eq!(features.layers, layers(true, true, false));
}

#[test]
fn layer_config_defaults() {
    let d = LayersConfig::default();
    assert!(d.mesa_device_select);
    assert!(!d.mesa_overlay);
    assert!(d.khronos_validation);
    let l = d.into_instance_layers();
    assert_eq!(l, layers(true, true, false));
}
