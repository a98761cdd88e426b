use kitsune_engine::frame::{
    AcquireOutcome, FrameDriver, FrameState, FrameStep, FrameSync, PresentOutcome, WindowSignal,
};

fn ready_driver(images: usize) -> FrameDriver {
    let mut d = FrameDriver::new(images, 800, 600);
    d.register_mesh();
    d.record_command_buffers();
    d
}

#[test]
fn triangle_frame_leaves_driver_ready() {
    // one triangle mesh with three vertices, registered and recorded, then one frame
    let mut d = FrameDriver::new(3, 800, 600);
    assert_eq!(d.state(), FrameState::Idle);
    d.register_mesh();
    d.record_command_buffers();
    assert_eq!(d.state(), FrameState::Ready);
    assert_eq!(d.begin_frame(), FrameStep::Acquire);
    assert_eq!(d.image_acquired(AcquireOutcome::Acquired(1)), Some(1));
    assert_eq!(d.frame_presented(PresentOutcome::Presented), FrameSync::Chain);
    d.window_events(&vec![WindowSignal::Other]);
    assert_eq!(d.state(), FrameState::Ready);
    assert_eq!(d.command_buffer_count(), 3);
    assert_eq!(d.image_count(), 3);
    assert_eq!(d.mesh_count(), 1);
    assert_eq!(d.recorded_mesh_count(), 1);
    assert!(!d.done());
}

#[test]
fn out_of_date_acquire_goes_stale_then_rebuilds() {
    let mut d = ready_driver(2);
    assert_eq!(d.begin_frame(), FrameStep::Acquire);
    assert_eq!(d.image_acquired(AcquireOutcome::OutOfDate), None);
    assert_eq!(d.state(), FrameState::Stale);
    // what was recorded stays until the rebuild
    assert_eq!(d.command_buffer_count(), 2);
    assert_eq!(d.image_count(), 2);
    // the next frame rebuilds before it draws anything
    assert_eq!(d.begin_frame(), FrameStep::Rebuild);
    d.chain_rebuilt(3);
    assert_eq!(d.state(), FrameState::Ready);
    assert_eq!(d.command_buffer_count(), 3);
    assert_eq!(d.begin_frame(), FrameStep::Acquire);
}

#[test]
fn register_after_record_forces_rerecord() {
    let mut d = ready_driver(2);
    assert_eq!(d.state(), FrameState::Ready);
    d.register_mesh();
    assert_eq!(d.state(), FrameState::Idle);
    assert_eq!(d.command_buffer_count(), 0);
    assert_eq!(d.mesh_count(), 2);
    assert_eq!(d.begin_frame(), FrameStep::Record);
    d.record_command_buffers();
    assert_eq!(d.state(), FrameState::Ready);
    assert_eq!(d.command_buffer_count(), 2);
    assert_eq!(d.recorded_mesh_count(), 2);
    assert_eq!(d.begin_frame(), FrameStep::Acquire);
}

#[test]
fn register_while_stale_stays_stale() {
    let mut d = ready_driver(2);
    d.image_acquired(AcquireOutcome::OutOfDate);
    d.register_mesh();
    assert_eq!(d.state(), FrameState::Stale);
    d.record_command_buffers();
    assert_eq!(d.state(), FrameState::Stale);
    assert_eq!(d.command_buffer_count(), 0);
    assert_eq!(d.begin_frame(), FrameStep::Rebuild);
}

#[test]
fn present_out_of_date_goes_stale() {
    let mut d = ready_driver(2);
    assert_eq!(d.image_acquired(AcquireOutcome::Acquired(0)), Some(0));
    assert_eq!(d.frame_presented(PresentOutcome::OutOfDate), FrameSync::Restart);
    assert_eq!(d.state(), FrameState::Stale);
    assert_eq!(d.command_buffer_count(), 2);
    assert_eq!(d.begin_frame(), FrameStep::Rebuild);
}

#[test]
fn present_failure_drops_frame_only() {
    let mut d = ready_driver(2);
    assert_eq!(d.image_acquired(AcquireOutcome::Acquired(1)), Some(1));
    assert_eq!(d.frame_presented(PresentOutcome::Failed), FrameSync::Restart);
    assert_eq!(d.state(), FrameState::Ready);
    assert_eq!(d.command_buffer_count(), 2);
}

#[test]
fn close_request_ends_loop() {
    let mut d = ready_driver(2);
    d.window_events(&vec![WindowSignal::Other, WindowSignal::CloseRequested]);
    assert!(d.done());
    d.window_events(&vec![]);
    assert!(!d.done());
    assert_eq!(d.state(), FrameState::Ready);
}

#[test]
fn resize_marks_stale_with_last_size() {
    let mut d = ready_driver(2);
    d.window_events(&vec![WindowSignal::Resized(1024, 768), WindowSignal::Resized(640, 480)]);
    assert_eq!(d.size(), (640, 480));
    assert_eq!(d.state(), FrameState::Stale);
    assert_eq!(d.command_buffer_count(), 2);
    assert!(!d.done());
}

#[test]
fn resize_to_same_size_keeps_state() {
    let mut d = ready_driver(2);
    d.window_events(&vec![WindowSignal::Resized(800, 600)]);
    assert_eq!(d.size(), (800, 600));
    assert_eq!(d.state(), FrameState::Ready);
}
