use yuumi::device::{
    check_physical_device, get_queue_family_indices, pick_physical_device, unique_queue_indices,
    DeviceInfo, QueueFamilyIndices, QueueFamilyInfo, DEVICE_TYPE_DISCRETE_GPU,
};
use yuumi::error::EngineError;
use yuumi::memory::find_memory_type;
use yuumi::msaa::get_max_msaa_samples;
use yuumi::swapchain::{
    choose_extent, choose_image_count, choose_present_mode, choose_surface_format,
    resolve_swapchain_config, Extent2D, SharingMode, SurfaceCapabilities, SurfaceFormat,
    SwapchainState, SwapchainSupport, COLOR_SPACE_SRGB_NONLINEAR, EXTENT_UNDEFINED,
    FORMAT_B8G8R8A8_SRGB, PRESENT_MODE_FIFO, PRESENT_MODE_MAILBOX,
};

fn caps(min_count: u32, max_count: u32, current_w: u32) -> SurfaceCapabilities {
    SurfaceCapabilities {
        min_image_count: min_count,
        max_image_count: max_count,
        current_extent: Extent2D { width: current_w, height: 900 },
        min_image_extent: Extent2D { width: 100, height: 100 },
        max_image_extent: Extent2D { width: 4096, height: 4096 },
    }
}

#[test]
fn memory_type_picks_first_suitable() {
    // Bit 0 is masked out; type 1 lacks the flags; type 2 qualifies.
    let types = vec![0b111, 0b001, 0b011, 0b011];
    let r = find_memory_type(0b1110, &types, 0b011).unwrap();
    assert_eq!(r, 2);
}

#[test]
fn memory_type_requires_property_superset() {
    // Type 0 has exactly the required flags plus extras; it qualifies.
    let types = vec![0b1011];
    assert_eq!(find_memory_type(0b1, &types, 0b0011).unwrap(), 0);
}

#[test]
fn memory_type_fails_when_none_qualifies() {
    let types = vec![0b001, 0b010];
    assert_eq!(find_memory_type(0b01, &types, 0b010), Err(EngineError::NoSuitableMemoryType));
    // The mask can also exclude the only qualifying type.
    assert_eq!(find_memory_type(0b10, &types, 0b001), Err(EngineError::NoSuitableMemoryType));
}

#[test]
fn extent_clamps_window_size_into_bounds() {
    // The surface leaves the extent undefined; the (50, 9000) window is
    // clamped into [100, 4096] per axis.
    let c = caps(2, 0, EXTENT_UNDEFINED);
    let e = choose_extent(&c, Extent2D { width: 50, height: 9000 });
    assert_eq!(e, Extent2D { width: 100, height: 4096 });
}

#[test]
fn extent_uses_current_when_defined() {
    let c = caps(2, 0, 1600);
    let e = choose_extent(&c, Extent2D { width: 50, height: 9000 });
    assert_eq!(e, Extent2D { width: 1600, height: 900 });
}

#[test]
fn image_count_is_min_plus_one_when_unbounded() {
    assert_eq!(choose_image_count(&caps(2, 0, 1600)), 3);
}

#[test]
fn image_count_is_capped_by_max() {
    assert_eq!(choose_image_count(&caps(2, 2, 1600)), 2);
    assert_eq!(choose_image_count(&caps(2, 8, 1600)), 3);
}

#[test]
fn surface_format_prefers_bgra_srgb() {
    let other = SurfaceFormat { format: 44, color_space: 0 };
    let preferred = SurfaceFormat {
        format: FORMAT_B8G8R8A8_SRGB,
        color_space: COLOR_SPACE_SRGB_NONLINEAR,
    };
    assert_eq!(choose_surface_format(&vec![other, preferred]), preferred);
    // Without the preferred pair the first reported format wins.
    assert_eq!(choose_surface_format(&vec![other]), other);
    // The format code alone is not enough: the color space must match too.
    let wrong_space = SurfaceFormat { format: FORMAT_B8G8R8A8_SRGB, color_space: 7 };
    assert_eq!(choose_surface_format(&vec![wrong_space, other]), wrong_space);
}

#[test]
fn present_mode_prefers_mailbox_else_fifo() {
    assert_eq!(choose_present_mode(&vec![PRESENT_MODE_FIFO, PRESENT_MODE_MAILBOX]), PRESENT_MODE_MAILBOX);
    assert_eq!(choose_present_mode(&vec![PRESENT_MODE_FIFO, 0]), PRESENT_MODE_FIFO);
    assert_eq!(choose_present_mode(&vec![]), PRESENT_MODE_FIFO);
}

#[test]
fn swapchain_config_shares_only_across_distinct_families() {
    let support = SwapchainSupport {
        capabilities: caps(2, 0, EXTENT_UNDEFINED),
        formats: vec![SurfaceFormat { format: 44, color_space: 0 }],
        present_modes: vec![PRESENT_MODE_FIFO],
    };
    let window = Extent2D { width: 1600, height: 900 };
    let same = resolve_swapchain_config(&support, window, QueueFamilyIndices {
        graphics: 0,
        present: 0,
    });
    assert_eq!(same.sharing_mode, SharingMode::Exclusive);
    assert!(same.queue_family_indices.is_empty());
    let split = resolve_swapchain_config(&support, window, QueueFamilyIndices {
        graphics: 0,
        present: 2,
    });
    assert_eq!(split.sharing_mode, SharingMode::Concurrent);
    assert_eq!(split.queue_family_indices, vec![0, 2]);
    assert_eq!(split.image_count, 3);
    assert_eq!(split.extent, Extent2D { width: 1600, height: 900 });
}

#[test]
fn swapchain_state_pairs_views_with_images() {
    let support = SwapchainSupport {
        capabilities: caps(2, 0, 1600),
        formats: vec![SurfaceFormat { format: 44, color_space: 0 }],
        present_modes: vec![PRESENT_MODE_FIFO],
    };
    let config = resolve_swapchain_config(
        &support,
        Extent2D { width: 1600, height: 900 },
        QueueFamilyIndices { graphics: 0, present: 0 },
    );
    let state = SwapchainState::assemble(
        config,
        vec![11, 12, 13],
        vec![21, 22, 23],
        vec![31, 32, 33],
    );
    assert_eq!(state.images.len(), state.image_views.len());
    assert_eq!(state.images.len(), state.framebuffers.len());
}

fn good_device() -> DeviceInfo {
    DeviceInfo {
        device_type: DEVICE_TYPE_DISCRETE_GPU,
        geometry_shader: true,
        supports_swapchain_ext: true,
        queue_families: vec![
            QueueFamilyInfo { graphics: false, present: true },
            QueueFamilyInfo { graphics: true, present: false },
        ],
    }
}

#[test]
fn device_check_resolves_first_queue_families() {
    let indices = check_physical_device(&good_device()).unwrap();
    assert_eq!(indices.graphics, 1);
    assert_eq!(indices.present, 0);
}

#[test]
fn device_check_names_missing_capability() {
    let mut integrated = good_device();
    integrated.device_type = 1;
    assert_eq!(check_physical_device(&integrated).unwrap_err().0, "Only discrete GPUs are supported.");

    let mut no_geometry = good_device();
    no_geometry.geometry_shader = false;
    assert_eq!(check_physical_device(&no_geometry).unwrap_err().0, "Missing geometry shader support.");

    let mut no_swapchain = good_device();
    no_swapchain.supports_swapchain_ext = false;
    assert_eq!(
        check_physical_device(&no_swapchain).unwrap_err().0,
        "Missing swapchain extension support."
    );

    let mut no_queues = good_device();
    no_queues.queue_families = vec![QueueFamilyInfo { graphics: false, present: true }];
    assert_eq!(check_physical_device(&no_queues).unwrap_err().0, "Missing required queue families.");
}

#[test]
fn pick_takes_first_qualifying_adapter() {
    let mut bad = good_device();
    bad.geometry_shader = false;
    let (i, indices) = pick_physical_device(&vec![bad, good_device(), good_device()]).unwrap();
    assert_eq!(i, 1);
    assert_eq!(indices.graphics, 1);
}

#[test]
fn pick_fails_only_when_no_adapter_qualifies() {
    let mut bad = good_device();
    bad.supports_swapchain_ext = false;
    let err = pick_physical_device(&vec![bad]).unwrap_err();
    assert_eq!(err.0, "Failed to find suitable physical device.");
    assert_eq!(pick_physical_device(&vec![]).unwrap_err().0, "Failed to find suitable physical device.");
}

#[test]
fn queue_family_resolution_fails_without_present() {
    let families = vec![QueueFamilyInfo { graphics: true, present: false }];
    assert_eq!(get_queue_family_indices(&families).unwrap_err().0, "Missing required queue families.");
}

#[test]
fn logical_device_lists_each_family_once() {
    assert_eq!(unique_queue_indices(QueueFamilyIndices { graphics: 3, present: 3 }), vec![3]);
    assert_eq!(unique_queue_indices(QueueFamilyIndices { graphics: 1, present: 0 }), vec![1, 0]);
}

#[test]
fn msaa_picks_highest_shared_sample_count() {
    // Color supports up to 8, depth up to 4: the shared maximum is 4.
    assert_eq!(get_max_msaa_samples(0b1111, 0b0111), 4);
    assert_eq!(get_max_msaa_samples(64 | 16 | 1, 64 | 2 | 1), 64);
    // No shared multisample count: fall back to single sampling.
    assert_eq!(get_max_msaa_samples(0b10, 0b100), 1);
}
