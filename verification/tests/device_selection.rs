use renderer::render_device::{Features, NoSuitableDeviceError, RenderDevice};
use renderer::render_system::{
    ApiVersion, DeviceClass, DeviceExtensions, PhysicalDeviceCandidate, QueueFamily, RenderSystem,
};

fn version(major: u32, minor: u32, patch: u32) -> ApiVersion {
    ApiVersion { major, minor, patch }
}

fn all_extensions() -> DeviceExtensions {
    DeviceExtensions { khr_swapchain: true, khr_dynamic_rendering: true }
}

fn presentable_family() -> QueueFamily {
    QueueFamily { graphics: true, surface_support: Some(true) }
}

fn candidate(device_type: DeviceClass) -> PhysicalDeviceCandidate {
    PhysicalDeviceCandidate {
        api_version: version(1, 3, 0),
        supported_extensions: all_extensions(),
        queue_families: vec![presentable_family()],
        device_type,
    }
}

fn select(candidates: Vec<PhysicalDeviceCandidate>) -> Result<RenderDevice, NoSuitableDeviceError> {
    RenderDevice::new(&RenderSystem::new(candidates))
}

#[test]
fn discrete_gpu_wins_over_integrated() {
    let device = select(vec![
        candidate(DeviceClass::IntegratedGpu),
        candidate(DeviceClass::DiscreteGpu),
    ])
    .unwrap();
    assert_eq!(device.physical_device, 1);
    assert_eq!(device.queue_family_index, 0);
}

#[test]
fn classes_rank_in_the_fixed_order() {
    assert_eq!(DeviceClass::DiscreteGpu.rank(), 0);
    assert_eq!(DeviceClass::IntegratedGpu.rank(), 1);
    assert_eq!(DeviceClass::VirtualGpu.rank(), 2);
    assert_eq!(DeviceClass::Cpu.rank(), 3);
    assert_eq!(DeviceClass::Other.rank(), 4);
    let device = select(vec![
        candidate(DeviceClass::Other),
        candidate(DeviceClass::Cpu),
        candidate(DeviceClass::VirtualGpu),
        candidate(DeviceClass::IntegratedGpu),
    ])
    .unwrap();
    assert_eq!(device.physical_device, 3);
    let device = select(vec![
        candidate(DeviceClass::Other),
        candidate(DeviceClass::Cpu),
        candidate(DeviceClass::VirtualGpu),
    ])
    .unwrap();
    assert_eq!(device.physical_device, 2);
    let device = select(vec![candidate(DeviceClass::Other), candidate(DeviceClass::Cpu)]).unwrap();
    assert_eq!(device.physical_device, 1);
}

#[test]
fn ties_go_to_the_first_enumerated() {
    let device = select(vec![
        candidate(DeviceClass::Cpu),
        candidate(DeviceClass::IntegratedGpu),
        candidate(DeviceClass::IntegratedGpu),
        candidate(DeviceClass::IntegratedGpu),
    ])
    .unwrap();
    assert_eq!(device.physical_device, 1);
}

#[test]
fn no_candidates_is_an_error() {
    assert_eq!(select(vec![]), Err(NoSuitableDeviceError));
}

#[test]
fn no_suitable_candidate_is_an_error() {
    let mut old = candidate(DeviceClass::DiscreteGpu);
    old.api_version = version(1, 1, 0);
    let mut bare = candidate(DeviceClass::DiscreteGpu);
    bare.supported_extensions.khr_swapchain = false;
    let mut headless = candidate(DeviceClass::DiscreteGpu);
    headless.queue_families = vec![QueueFamily { graphics: true, surface_support: Some(false) }];
    assert_eq!(select(vec![old, bare, headless]), Err(NoSuitableDeviceError));
}

#[test]
fn version_is_compared_by_major_then_minor_then_patch() {
    let with_version = |v: ApiVersion| {
        let mut c = candidate(DeviceClass::DiscreteGpu);
        c.api_version = v;
        select(vec![c]).is_ok()
    };
    assert!(with_version(version(1, 2, 0)));
    assert!(with_version(version(1, 2, 7)));
    assert!(with_version(version(1, 3, 0)));
    assert!(with_version(version(2, 0, 0)));
    assert!(with_version(version(2, 1, 0)));
    assert!(!with_version(version(1, 1, 0)));
    assert!(!with_version(version(1, 1, 999)));
    assert!(!with_version(version(1, 0, 5)));
    assert!(!with_version(version(0, 9, 9)));
}

#[test]
fn an_old_discrete_gpu_loses_to_a_current_cpu() {
    let mut old = candidate(DeviceClass::DiscreteGpu);
    old.api_version = version(1, 1, 200);
    let device = select(vec![old, candidate(DeviceClass::Cpu)]).unwrap();
    assert_eq!(device.physical_device, 1);
}

#[test]
fn both_extensions_are_required() {
    let with_extensions = |khr_swapchain: bool, khr_dynamic_rendering: bool| {
        let mut c = candidate(DeviceClass::DiscreteGpu);
        c.supported_extensions = DeviceExtensions { khr_swapchain, khr_dynamic_rendering };
        select(vec![c]).is_ok()
    };
    assert!(with_extensions(true, true));
    assert!(!with_extensions(true, false));
    assert!(!with_extensions(false, true));
    assert!(!with_extensions(false, false));
}

#[test]
fn the_queue_comes_from_the_first_presentable_family() {
    let mut c = candidate(DeviceClass::DiscreteGpu);
    c.queue_families = vec![
        QueueFamily { graphics: false, surface_support: Some(true) },
        QueueFamily { graphics: true, surface_support: Some(false) },
        QueueFamily { graphics: true, surface_support: None },
        QueueFamily { graphics: true, surface_support: Some(true) },
        QueueFamily { graphics: true, surface_support: Some(true) },
    ];
    assert_eq!(c.find_queue_family(), Some(3));
    let device = select(vec![c]).unwrap();
    assert_eq!(device.physical_device, 0);
    assert_eq!(device.queue_family_index, 3);
}

#[test]
fn a_family_needs_graphics_and_presentation() {
    assert!(presentable_family().is_presentable());
    assert!(!QueueFamily { graphics: false, surface_support: Some(true) }.is_presentable());
    assert!(!QueueFamily { graphics: true, surface_support: Some(false) }.is_presentable());
    assert!(!QueueFamily { graphics: true, surface_support: None }.is_presentable());
    assert!(!QueueFamily { graphics: false, surface_support: None }.is_presentable());
    let mut c = candidate(DeviceClass::DiscreteGpu);
    c.queue_families = vec![];
    assert_eq!(c.find_queue_family(), None);
    c.queue_families = vec![QueueFamily { graphics: true, surface_support: None }];
    assert_eq!(c.find_queue_family(), None);
}

#[test]
fn the_device_is_opened_with_what_was_required() {
    let device = select(vec![candidate(DeviceClass::VirtualGpu)]).unwrap();
    assert_eq!(
        device,
        RenderDevice {
            physical_device: 0,
            enabled_extensions: all_extensions(),
            enabled_features: Features { dynamic_rendering: true },
            queue_family_index: 0,
            queue_count: 1,
        }
    );
}

#[test]
fn unsuitable_candidates_do_not_shift_the_index() {
    let mut bare = candidate(DeviceClass::DiscreteGpu);
    bare.supported_extensions.khr_dynamic_rendering = false;
    let mut headless = candidate(DeviceClass::DiscreteGpu);
    headless.queue_families = vec![QueueFamily { graphics: false, surface_support: Some(true) }];
    let device = select(vec![
        bare,
        candidate(DeviceClass::Other),
        headless,
        candidate(DeviceClass::VirtualGpu),
        candidate(DeviceClass::VirtualGpu),
    ])
    .unwrap();
    assert_eq!(device.physical_device, 3);
}
