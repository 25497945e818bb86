use two_dee_shooter::instance::build_extensions;
use two_dee_shooter::instance::check_validation_layer_support;
use two_dee_shooter::instance::required_validation_layers;

#[test]
fn required_layers_is_khronos_validation() {
    let layers = required_validation_layers();
    assert_eq!(layers, vec![String::from("VK_LAYER_KHRONOS_validation")]);
}

#[test]
fn layer_check_finds_validation_layer() {
    let available = vec![
        String::from("VK_LAYER_MESA_device_select"),
        String::from("VK_LAYER_KHRONOS_validation"),
    ];
    assert!(check_validation_layer_support(&available));
}

#[test]
fn layer_check_misses_validation_layer() {
    let available = vec![String::from("VK_LAYER_MESA_device_select")];
    assert!(!check_validation_layer_support(&available));
    assert!(!check_validation_layer_support(&Vec::new()));
}

#[test]
fn extensions_append_debug_utils() {
    let from_window_system = vec![String::from("VK_KHR_surface"), String::from("VK_KHR_xcb_surface")];
    let extensions = build_extensions(from_window_system);
    assert_eq!(
        extensions,
        vec![
            String::from("VK_KHR_surface"),
            String::from("VK_KHR_xcb_surface"),
            String::from("VK_EXT_debug_utils"),
        ]
    );
}

#[test]
fn extensions_from_nothing_is_debug_utils_alone() {
    let extensions = build_extensions(Vec::new());
    assert_eq!(extensions, vec![String::from("VK_EXT_debug_utils")]);
}
