use halley_kart::graphics::PixelSize;
use halley_kart::graphics::vulkan::device::Queues;
use halley_kart::graphics::vulkan::frame::{FrameAction, FrameEvent, FramePresenter};
use halley_kart::graphics::vulkan::swapchain::{
    SharingMode,
    SurfaceCapabilitiesInfo,
    plan_swapchain,
};

fn caps(min_image_count: u32, current_extent: Option<PixelSize>) -> SurfaceCapabilitiesInfo {
    SurfaceCapabilitiesInfo { min_image_count, current_extent, format_count: 3 }
}

fn same_queue() -> Queues {
    Queues { graphics_queue: 0, present_queue: 0 }
}

fn split_queues() -> Queues {
    Queues { graphics_queue: 0, present_queue: 1 }
}

#[test]
fn image_count_raised_to_two() {
    let window = PixelSize::new(800, 600);
    let plan = plan_swapchain(&caps(1, None), window, &same_queue()).unwrap();
    assert_eq!(plan.num_images, 2);
    let plan0 = plan_swapchain(&caps(0, None), window, &same_queue()).unwrap();
    assert_eq!(plan0.num_images, 2);
}

#[test]
fn image_count_keeps_larger_minimum() {
    let window = PixelSize::new(800, 600);
    let plan = plan_swapchain(&caps(3, None), window, &same_queue()).unwrap();
    assert_eq!(plan.num_images, 3);
}

#[test]
fn extent_prefers_platform_current_extent() {
    let window = PixelSize::new(800, 600);
    let fixed = PixelSize::new(1920, 1080);
    let plan = plan_swapchain(&caps(2, Some(fixed)), window, &same_queue()).unwrap();
    assert_eq!(plan.dimensions, fixed);
    let fallback = plan_swapchain(&caps(2, None), window, &same_queue()).unwrap();
    assert_eq!(fallback.dimensions, window);
}

#[test]
fn sharing_mode_follows_queue_aliasing() {
    let window = PixelSize::new(800, 600);
    let exclusive = plan_swapchain(&caps(2, None), window, &same_queue()).unwrap();
    assert_eq!(exclusive.sharing, SharingMode::Exclusive);
    let concurrent = plan_swapchain(&caps(2, None), window, &split_queues()).unwrap();
    assert_eq!(concurrent.sharing, SharingMode::Concurrent);
}

#[test]
fn first_reported_format_is_chosen() {
    let window = PixelSize::new(800, 600);
    let plan = plan_swapchain(&caps(2, None), window, &same_queue()).unwrap();
    assert_eq!(plan.format_index, 0);
}

#[test]
fn no_supported_format_is_fatal() {
    let window = PixelSize::new(800, 600);
    let bad = SurfaceCapabilitiesInfo { min_image_count: 2, current_extent: None, format_count: 0 };
    assert!(plan_swapchain(&bad, window, &same_queue()).is_err());
}

#[test]
fn presenter_setup_pairs_resources_with_images() {
    let p = FramePresenter::setup(3);
    assert_eq!(p.num_images, 3);
    assert_eq!(p.num_framebuffers, 3);
    assert_eq!(p.num_command_buffers, p.num_images);
    assert!(p.running);
}

#[test]
fn acquired_index_selects_its_command_buffer() {
    let p = FramePresenter::setup(3);
    for image in 0..3usize {
        let submission = p.plan_frame(image);
        assert_eq!(submission.image_index, image);
        assert_eq!(submission.command_buffer_index, image);
    }
}

#[test]
fn redraw_draws_exactly_while_running() {
    let mut p = FramePresenter::setup(2);
    assert_eq!(p.handle_event(FrameEvent::RedrawEventsCleared), FrameAction::Draw);
    assert_eq!(p.handle_event(FrameEvent::Other), FrameAction::Idle);
    assert_eq!(p.handle_event(FrameEvent::RedrawEventsCleared), FrameAction::Draw);
}

#[test]
fn close_request_stops_the_frame_loop() {
    // A close request arrives while no frame is mid-flight: the loop
    // hides the window, stops, and issues no further draw — and so no
    // further acquire.
    let mut p = FramePresenter::setup(2);
    assert_eq!(p.handle_event(FrameEvent::CloseRequested), FrameAction::HideWindowAndStop);
    assert!(!p.running);
    assert_eq!(p.handle_event(FrameEvent::RedrawEventsCleared), FrameAction::Idle);
    assert_eq!(p.handle_event(FrameEvent::RedrawEventsCleared), FrameAction::Idle);
    assert_eq!(p.handle_event(FrameEvent::LoopDestroyed), FrameAction::Idle);
}
