use two_dee_shooter::device::check_device_extension_support;
use two_dee_shooter::device::device_queue_plans;
use two_dee_shooter::device::find_queue_families;
use two_dee_shooter::device::is_device_suitable;
use two_dee_shooter::device::required_device_extensions;
use two_dee_shooter::model::DeviceQueuePlan;
use two_dee_shooter::model::PhysicalDeviceInfo;
use two_dee_shooter::model::QueueFamilyIndices;
use two_dee_shooter::model::QueueFamilyInfo;
use two_dee_shooter::model::SurfaceFormat;
use two_dee_shooter::model::FORMAT_B8G8R8A8_SRGB;
use two_dee_shooter::model::PHYSICAL_DEVICE_TYPE_DISCRETE_GPU;
use two_dee_shooter::model::PRESENT_MODE_FIFO;
use two_dee_shooter::model::QUEUE_GRAPHICS_BIT;

fn graphics_only() -> QueueFamilyInfo {
    QueueFamilyInfo { queue_flags: QUEUE_GRAPHICS_BIT, present_support: false }
}

fn present_only() -> QueueFamilyInfo {
    QueueFamilyInfo { queue_flags: 0, present_support: true }
}

fn graphics_and_present() -> QueueFamilyInfo {
    QueueFamilyInfo { queue_flags: QUEUE_GRAPHICS_BIT | 0x4, present_support: true }
}

fn suitable_device() -> PhysicalDeviceInfo {
    PhysicalDeviceInfo {
        device_type: PHYSICAL_DEVICE_TYPE_DISCRETE_GPU,
        geometry_shader: 1,
        queue_families: vec![graphics_and_present()],
        available_extensions: vec![
            String::from("VK_KHR_video_queue"),
            String::from("VK_KHR_swapchain"),
        ],
        formats: vec![SurfaceFormat { format: FORMAT_B8G8R8A8_SRGB, color_space: 0 }],
        present_modes: vec![PRESENT_MODE_FIFO],
    }
}

#[test]
fn is_complete_needs_both_families() {
    let none = QueueFamilyIndices::default();
    assert!(!none.is_complete());

    let graphics = QueueFamilyIndices { graphics_family: Some(0), present_family: None };
    assert!(!graphics.is_complete());

    let present = QueueFamilyIndices { graphics_family: None, present_family: Some(1) };
    assert!(!present.is_complete());

    let both = QueueFamilyIndices { graphics_family: Some(0), present_family: Some(1) };
    assert!(both.is_complete());
}

#[test]
fn find_queue_families_records_separate_families() {
    let families = vec![graphics_only(), present_only()];
    let indices = find_queue_families(&families);
    assert_eq!(indices.graphics_family, Some(0));
    assert_eq!(indices.present_family, Some(1));
}

#[test]
fn find_queue_families_later_family_overwrites() {
    // Until the record is complete, a later qualifying family overwrites
    // an earlier one.
    let families = vec![graphics_only(), graphics_and_present()];
    let indices = find_queue_families(&families);
    assert_eq!(indices.graphics_family, Some(1));
    assert_eq!(indices.present_family, Some(1));
}

#[test]
fn find_queue_families_stops_once_complete() {
    // The scan breaks as soon as both indices are on record; the third
    // family is never looked at.
    let families = vec![graphics_and_present(), graphics_only(), present_only()];
    let indices = find_queue_families(&families);
    assert_eq!(indices.graphics_family, Some(0));
    assert_eq!(indices.present_family, Some(0));
}

#[test]
fn find_queue_families_empty_list() {
    let indices = find_queue_families(&Vec::new());
    assert_eq!(indices.graphics_family, None);
    assert_eq!(indices.present_family, None);
    assert!(!indices.is_complete());
}

#[test]
fn find_queue_families_graphics_bit_must_be_set() {
    // A family whose flags carry other bits but not the graphics bit does
    // not count for graphics.
    let families = vec![QueueFamilyInfo { queue_flags: 0x6, present_support: true }];
    let indices = find_queue_families(&families);
    assert_eq!(indices.graphics_family, None);
    assert_eq!(indices.present_family, Some(0));
}

#[test]
fn required_device_extensions_is_swapchain() {
    let required = required_device_extensions();
    assert_eq!(required, vec![String::from("VK_KHR_swapchain")]);
}

#[test]
fn device_extension_check_finds_swapchain() {
    let available = vec![String::from("VK_EXT_debug_marker"), String::from("VK_KHR_swapchain")];
    assert!(check_device_extension_support(&available));
}

#[test]
fn device_extension_check_misses_swapchain() {
    let available = vec![String::from("VK_EXT_debug_marker")];
    assert!(!check_device_extension_support(&available));
    assert!(!check_device_extension_support(&Vec::new()));
}

#[test]
fn suitable_device_is_accepted() {
    assert!(is_device_suitable(&suitable_device()));
}

#[test]
fn integrated_gpu_is_rejected() {
    let mut info = suitable_device();
    info.device_type = 1;
    assert!(!is_device_suitable(&info));
}

#[test]
fn missing_geometry_shader_is_rejected() {
    let mut info = suitable_device();
    info.geometry_shader = 0;
    assert!(!is_device_suitable(&info));
}

#[test]
fn incomplete_queue_families_are_rejected() {
    let mut info = suitable_device();
    info.queue_families = vec![graphics_only()];
    assert!(!is_device_suitable(&info));
}

#[test]
fn missing_swapchain_extension_is_rejected() {
    let mut info = suitable_device();
    info.available_extensions = vec![String::from("VK_KHR_video_queue")];
    assert!(!is_device_suitable(&info));
}

#[test]
fn empty_format_list_is_rejected() {
    let mut info = suitable_device();
    info.formats = Vec::new();
    assert!(!is_device_suitable(&info));
}

#[test]
fn empty_present_mode_list_is_rejected() {
    let mut info = suitable_device();
    info.present_modes = Vec::new();
    assert!(!is_device_suitable(&info));
}

#[test]
fn queue_plans_share_one_family() {
    let indices = QueueFamilyIndices { graphics_family: Some(2), present_family: Some(2) };
    let plans = device_queue_plans(&indices);
    assert_eq!(plans, vec![DeviceQueuePlan { queue_family_index: 2, queue_count: 1 }]);
}

#[test]
fn queue_plans_split_families() {
    let indices = QueueFamilyIndices { graphics_family: Some(0), present_family: Some(3) };
    let plans = device_queue_plans(&indices);
    assert_eq!(
        plans,
        vec![
            DeviceQueuePlan { queue_family_index: 0, queue_count: 1 },
            DeviceQueuePlan { queue_family_index: 3, queue_count: 1 },
        ]
    );
}
