use asteroids::device::{
    choose_swapchain_config, select_physical_device, select_queue_family, PresentMode, QueueFamilyCaps,
    SetupError, SurfaceCaps, SwapchainConfig,
};
use asteroids::geometry::{unroll_indexed, Extent};

fn fam(graphics: bool, present: bool) -> QueueFamilyCaps {
    QueueFamilyCaps { graphics, present }
}

#[test]
fn picks_first_family_that_draws_and_presents() {
    let families = vec![fam(true, false), fam(false, true), fam(true, true), fam(true, true)];
    assert_eq!(select_queue_family(&families), Ok(2));
}

#[test]
fn no_family_that_draws_and_presents() {
    let families = vec![fam(true, false), fam(false, true)];
    assert_eq!(select_queue_family(&families), Err(SetupError::NoSuitableQueueFamily));
    assert_eq!(select_queue_family(&Vec::new()), Err(SetupError::NoSuitableQueueFamily));
}

#[test]
fn first_device_is_taken() {
    assert_eq!(select_physical_device(3), Ok(0));
    assert_eq!(select_physical_device(0), Err(SetupError::NoDevice));
}

#[test]
fn swapchain_config_choices() {
    let caps = SurfaceCaps { min_image_count: 2, format_count: 4, composite_alpha: vec![false, true, true, false] };
    let c = choose_swapchain_config(&caps, Extent::new(800, 600));
    assert_eq!(
        c,
        Ok(SwapchainConfig {
            image_count: 2,
            format_index: 0,
            alpha_index: 1,
            present_mode: PresentMode::Fifo,
            extent: Extent::new(800, 600),
        })
    );
}

#[test]
fn swapchain_config_errors() {
    let no_format = SurfaceCaps { min_image_count: 2, format_count: 0, composite_alpha: vec![true] };
    assert_eq!(choose_swapchain_config(&no_format, Extent::new(1, 1)), Err(SetupError::NoSurfaceFormat));
    let no_alpha = SurfaceCaps { min_image_count: 2, format_count: 1, composite_alpha: vec![false, false] };
    assert_eq!(choose_swapchain_config(&no_alpha, Extent::new(1, 1)), Err(SetupError::NoCompositeAlpha));
}

#[test]
fn unrolls_indexed_triangles() {
    let vertices = vec![(0.0f32, -1.0f32), (-1.0, 1.0), (0.0, 0.0), (1.0, 1.0)];
    let indices: Vec<u16> = vec![0, 1, 2, 0, 2, 3];
    let out = unroll_indexed(&vertices, &indices).unwrap();
    assert_eq!(out, vec![(0.0, -1.0), (-1.0, 1.0), (0.0, 0.0), (0.0, -1.0), (0.0, 0.0), (1.0, 1.0)]);
}

#[test]
fn unroll_rejects_bad_index() {
    let vertices = vec![1u8, 2, 3];
    assert_eq!(unroll_indexed(&vertices, &vec![0, 3]), None);
    assert_eq!(unroll_indexed(&vertices, &Vec::new()), Some(Vec::new()));
}
