use kitsune_engine::device::{is_device_suitable, pick_physical_device, DeviceProfile, SetupError};
use kitsune_engine::queue::{find_queue_families, unique_queue_families, QueueFamilyCaps, QueueFamilyIndices};
use kitsune_engine::swapchain::{
    choose_image_count, choose_sharing_mode, choose_swap_extent, choose_swap_present_mode,
    choose_swap_surface_format, plan_swap_chain, Extent, PresentMode, PresentModes, SharingMode,
    SurfaceCapabilities, SurfaceFormat,
};

fn fam(graphics: bool, present: bool) -> QueueFamilyCaps {
    QueueFamilyCaps { graphics, present }
}

fn fifo_only() -> PresentModes {
    PresentModes { immediate: false, mailbox: false, fifo: true, relaxed: false }
}

fn caps(current: Option<Extent>) -> SurfaceCapabilities {
    SurfaceCapabilities {
        min_image_count: 2,
        max_image_count: Some(8),
        current_extent: current,
        min_image_extent: Extent { width: 100, height: 100 },
        max_image_extent: Extent { width: 1000, height: 700 },
        formats: vec![SurfaceFormat { format: 50, color_space: 0 }],
        present_modes: fifo_only(),
    }
}

#[test]
fn queue_indices_start_unknown() {
    let q = QueueFamilyIndices::new();
    assert_eq!(q.graphics_family, -1);
    assert_eq!(q.present_family, -1);
    assert!(!q.is_complete());
    assert!(QueueFamilyIndices { graphics_family: 0, present_family: 2 }.is_complete());
    assert!(!QueueFamilyIndices { graphics_family: 0, present_family: -1 }.is_complete());
}

#[test]
fn queue_search_stops_when_both_found() {
    let fams = vec![fam(true, false), fam(true, false), fam(false, true), fam(true, true)];
    let q = find_queue_families(&fams);
    assert_eq!(q.graphics_family, 1);
    assert_eq!(q.present_family, 2);
}

#[test]
fn queue_search_single_family() {
    let q = find_queue_families(&vec![fam(false, false), fam(true, true), fam(true, true)]);
    assert_eq!((q.graphics_family, q.present_family), (1, 1));
    assert_eq!(unique_queue_families(&q), vec![1]);
}

#[test]
fn queue_search_incomplete() {
    let q = find_queue_families(&vec![fam(true, false), fam(true, false)]);
    assert_eq!((q.graphics_family, q.present_family), (1, -1));
    assert!(!q.is_complete());
    let e = find_queue_families(&vec![]);
    assert_eq!((e.graphics_family, e.present_family), (-1, -1));
}

#[test]
fn unique_families_keep_graphics_first() {
    let q = QueueFamilyIndices { graphics_family: 3, present_family: 1 };
    assert_eq!(unique_queue_families(&q), vec![3, 1]);
}

fn profile(fams: Vec<QueueFamilyCaps>, ext: bool, formats: usize, modes: PresentModes) -> DeviceProfile {
    DeviceProfile { queue_families: fams, supports_swapchain: ext, format_count: formats, present_modes: modes }
}

#[test]
fn device_suitability() {
    let none = PresentModes { immediate: false, mailbox: false, fifo: false, relaxed: false };
    assert!(is_device_suitable(&profile(vec![fam(true, true)], true, 1, fifo_only())));
    assert!(is_device_suitable(&profile(vec![fam(true, false), fam(false, true)], true, 2, fifo_only())));
    assert!(!is_device_suitable(&profile(vec![fam(true, false)], true, 1, fifo_only())));
    assert!(!is_device_suitable(&profile(vec![fam(true, true)], false, 1, fifo_only())));
    assert!(!is_device_suitable(&profile(vec![fam(true, true)], true, 0, fifo_only())));
    assert!(!is_device_suitable(&profile(vec![fam(true, true)], true, 1, none)));
}

#[test]
fn first_suitable_device_is_picked() {
    let devices = vec![
        profile(vec![fam(true, false)], true, 1, fifo_only()),
        profile(vec![fam(true, true)], true, 1, fifo_only()),
        profile(vec![fam(true, true)], true, 3, fifo_only()),
    ];
    assert_eq!(pick_physical_device(&devices), Ok(1));
}

#[test]
fn no_suitable_device_is_an_error() {
    let devices = vec![profile(vec![fam(false, true)], true, 1, fifo_only())];
    assert_eq!(pick_physical_device(&devices), Err(SetupError::NoSuitableDevice));
    assert_eq!(pick_physical_device(&vec![]), Err(SetupError::NoSuitableDevice));
}

#[test]
fn preferred_surface_format_wins() {
    let formats = vec![
        SurfaceFormat { format: 37, color_space: 0 },
        SurfaceFormat { format: 44, color_space: 1 },
        SurfaceFormat { format: 44, color_space: 0 },
        SurfaceFormat { format: 44, color_space: 0 },
    ];
    assert_eq!(choose_swap_surface_format(&formats), 2);
}

#[test]
fn first_surface_format_is_fallback() {
    let formats = vec![SurfaceFormat { format: 37, color_space: 0 }, SurfaceFormat { format: 50, color_space: 0 }];
    assert_eq!(choose_swap_surface_format(&formats), 0);
}

#[test]
fn present_mode_preference() {
    let all = PresentModes { immediate: true, mailbox: true, fifo: true, relaxed: true };
    assert_eq!(choose_swap_present_mode(&all), PresentMode::Mailbox);
    let imm = PresentModes { immediate: true, mailbox: false, fifo: true, relaxed: true };
    assert_eq!(choose_swap_present_mode(&imm), PresentMode::Immediate);
    assert_eq!(choose_swap_present_mode(&fifo_only()), PresentMode::Fifo);
    let relaxed = PresentModes { immediate: false, mailbox: false, fifo: true, relaxed: true };
    assert_eq!(choose_swap_present_mode(&relaxed), PresentMode::Fifo);
}

#[test]
fn extent_uses_current_or_clamps() {
    let c = caps(Some(Extent { width: 640, height: 480 }));
    assert_eq!(choose_swap_extent(&c, 800, 600), Extent { width: 640, height: 480 });
    let c = caps(None);
    assert_eq!(choose_swap_extent(&c, 800, 600), Extent { width: 800, height: 600 });
    assert_eq!(choose_swap_extent(&c, 5000, 50), Extent { width: 1000, height: 100 });
}

#[test]
fn extent_min_wins_when_bounds_cross() {
    let mut c = caps(None);
    c.min_image_extent = Extent { width: 500, height: 500 };
    c.max_image_extent = Extent { width: 300, height: 300 };
    assert_eq!(choose_swap_extent(&c, 400, 100), Extent { width: 500, height: 500 });
}

#[test]
fn image_count_is_min_plus_one_within_max() {
    let mut c = caps(None);
    assert_eq!(choose_image_count(&c), 3);
    c.max_image_count = Some(2);
    assert_eq!(choose_image_count(&c), 2);
    c.max_image_count = None;
    c.min_image_count = 7;
    assert_eq!(choose_image_count(&c), 8);
}

#[test]
fn sharing_follows_queue_families() {
    let same = QueueFamilyIndices { graphics_family: 0, present_family: 0 };
    let split = QueueFamilyIndices { graphics_family: 0, present_family: 1 };
    assert_eq!(choose_sharing_mode(&same), SharingMode::Exclusive);
    assert_eq!(choose_sharing_mode(&split), SharingMode::Concurrent);
}

#[test]
fn swap_chain_plan_combines_choices() {
    let mut c = caps(None);
    c.formats.push(SurfaceFormat { format: 44, color_space: 0 });
    c.present_modes.mailbox = true;
    let q = QueueFamilyIndices { graphics_family: 0, present_family: 1 };
    let plan = plan_swap_chain(&c, 1200, 600, &q);
    assert_eq!(plan.format_index, 1);
    assert_eq!(plan.present_mode, PresentMode::Mailbox);
    assert_eq!(plan.extent, Extent { width: 1000, height: 600 });
    assert_eq!(plan.image_count, 3);
    assert_eq!(plan.sharing, SharingMode::Concurrent);
}
