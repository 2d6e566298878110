use vkboot::error::BootstrapError;
use vkboot::queue::QueueFamily;
use vkboot::selection::{
    is_physical_device_suitable, pick_physical_device, score_device, select_best, DeviceType,
    PhysicalDeviceInfo,
};

fn buf(name: &[u8]) -> Vec<u8> {
    let mut b = vec![0u8; 256];
    b[..name.len()].copy_from_slice(name);
    b
}

fn graphics_families() -> Vec<QueueFamily> {
    vec![QueueFamily { queue_flags: 1, queue_count: 1 }]
}

fn compute_only_families() -> Vec<QueueFamily> {
    vec![QueueFamily { queue_flags: 2, queue_count: 4 }]
}

fn device(
    device_type: DeviceType,
    queue_families: Vec<QueueFamily>,
    available_extensions: Vec<Vec<u8>>,
) -> PhysicalDeviceInfo {
    PhysicalDeviceInfo { queue_families, available_extensions, device_type }
}

#[test]
fn suitable_needs_graphics_and_extensions() {
    let wanted = vec![b"VK_KHR_swapchain".to_vec()];
    let good = device(DeviceType::IntegratedGpu, graphics_families(), vec![buf(b"VK_KHR_swapchain")]);
    assert!(is_physical_device_suitable(&good, &wanted));
    let no_gfx = device(DeviceType::DiscreteGpu, compute_only_families(), vec![buf(b"VK_KHR_swapchain")]);
    assert!(!is_physical_device_suitable(&no_gfx, &wanted));
    let no_ext = device(DeviceType::DiscreteGpu, graphics_families(), Vec::new());
    assert!(!is_physical_device_suitable(&no_ext, &wanted));
}

#[test]
fn score_discrete_is_thousand() {
    let d = device(DeviceType::DiscreteGpu, graphics_families(), Vec::new());
    assert_eq!(score_device(&d, &Vec::new()), 1000);
}

#[test]
fn score_other_qualifying_kinds_are_zero() {
    for kind in [DeviceType::Other, DeviceType::IntegratedGpu, DeviceType::VirtualGpu, DeviceType::Cpu] {
        let d = device(kind, graphics_families(), Vec::new());
        assert_eq!(score_device(&d, &Vec::new()), 0);
    }
}

#[test]
fn score_incomplete_queue_families_is_sentinel() {
    let d = device(DeviceType::DiscreteGpu, compute_only_families(), Vec::new());
    assert_eq!(score_device(&d, &Vec::new()), -1);
}

#[test]
fn score_missing_device_extension_is_sentinel() {
    let wanted = vec![b"VK_KHR_swapchain".to_vec()];
    let d = device(DeviceType::DiscreteGpu, graphics_families(), vec![buf(b"VK_KHR_display")]);
    assert_eq!(score_device(&d, &wanted), -1);
}

#[test]
fn score_ignores_zero_queue_count_family() {
    let families = vec![QueueFamily { queue_flags: 1, queue_count: 0 }];
    let d = device(DeviceType::DiscreteGpu, families, Vec::new());
    assert_eq!(score_device(&d, &Vec::new()), -1);
}

#[test]
fn select_best_empty_is_none() {
    assert_eq!(select_best(&Vec::new()), None);
}

#[test]
fn select_best_keeps_first_of_tied_maximum() {
    assert_eq!(select_best(&vec![0, 1000, 1000, 5]), Some(1));
    assert_eq!(select_best(&vec![7, 7]), Some(0));
    assert_eq!(select_best(&vec![-1]), Some(0));
}

#[test]
fn pick_empty_device_list_fails() {
    let r = pick_physical_device(&Vec::new(), &Vec::new());
    assert_eq!(r, Err(BootstrapError::NoSuitableDevice));
}

#[test]
fn pick_all_disqualified_fails() {
    let devices = vec![
        device(DeviceType::DiscreteGpu, compute_only_families(), Vec::new()),
        device(DeviceType::IntegratedGpu, compute_only_families(), Vec::new()),
    ];
    let r = pick_physical_device(&devices, &Vec::new());
    assert_eq!(r, Err(BootstrapError::NoSuitableDevice));
}

#[test]
fn pick_prefers_discrete_over_integrated() {
    let wanted = vec![b"VK_KHR_swapchain".to_vec()];
    let discrete = device(DeviceType::DiscreteGpu, graphics_families(), vec![buf(b"VK_KHR_swapchain")]);
    let integrated = device(DeviceType::IntegratedGpu, graphics_families(), vec![buf(b"VK_KHR_swapchain")]);
    let devices = vec![discrete, integrated];
    assert_eq!(pick_physical_device(&devices, &wanted), Ok(0));
}

#[test]
fn pick_prefers_discrete_listed_second() {
    let integrated = device(DeviceType::IntegratedGpu, graphics_families(), Vec::new());
    let discrete = device(DeviceType::DiscreteGpu, graphics_families(), Vec::new());
    let devices = vec![integrated, discrete];
    assert_eq!(pick_physical_device(&devices, &Vec::new()), Ok(1));
}

#[test]
fn pick_single_qualifier_wins_whatever_its_kind() {
    let devices = vec![
        device(DeviceType::DiscreteGpu, compute_only_families(), Vec::new()),
        device(DeviceType::Cpu, graphics_families(), Vec::new()),
        device(DeviceType::DiscreteGpu, compute_only_families(), Vec::new()),
    ];
    assert_eq!(pick_physical_device(&devices, &Vec::new()), Ok(1));
}

#[test]
fn pick_tie_among_integrated_keeps_first() {
    let a = device(DeviceType::IntegratedGpu, graphics_families(), Vec::new());
    let b = device(DeviceType::IntegratedGpu, graphics_families(), Vec::new());
    let devices = vec![a, b];
    assert_eq!(pick_physical_device(&devices, &Vec::new()), Ok(0));
}
