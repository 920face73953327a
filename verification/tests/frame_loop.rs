use frame_loop::event::{AcquireOutcome, AcquireStep, RebuildOutcome, RebuildStep, SubmitOutcome,
    WindowEventKind};
use frame_loop::renderer::Renderer;
use frame_loop::target::{PixelViewport, SwapchainImageInfo, window_size_dependent_setup};

fn images(first_id: u64, count: usize, width: u32, height: u32) -> Vec<SwapchainImageInfo> {
    let mut v = Vec::new();
    let mut i: usize = 0;
    while i < count {
        v.push(SwapchainImageInfo { id: first_id + i as u64, width, height });
        i += 1;
    }
    v
}

#[test]
fn setup_builds_one_target_per_image() {
    let imgs = images(10, 3, 800, 600);
    let mut viewport = PixelViewport { width: 0, height: 0 };
    let targets = window_size_dependent_setup(&imgs, 7, &mut viewport);
    assert_eq!(targets.len(), 3);
    for (i, t) in targets.iter().enumerate() {
        assert_eq!(t.render_pass, 7);
        assert_eq!(t.image, 10 + i as u64);
        assert_eq!(t.width, 800);
        assert_eq!(t.height, 600);
    }
}

#[test]
fn setup_viewport_matches_first_image() {
    let mut imgs = images(1, 2, 640, 480);
    imgs[1].width = 320;
    imgs[1].height = 240;
    let mut viewport = PixelViewport { width: 0, height: 0 };
    let _ = window_size_dependent_setup(&imgs, 1, &mut viewport);
    assert_eq!(viewport.width, 640);
    assert_eq!(viewport.height, 480);
}

#[test]
fn rebuild_tracks_new_image_count() {
    let mut r = Renderer::new(1, images(0, 2, 800, 600));
    assert_eq!(r.target_count(), 2);
    let exit = r.handle_window_event(WindowEventKind::Resized);
    assert!(!exit);
    assert!(r.needs_rebuild());
    let step = r.handle_rebuild_outcome(RebuildOutcome::Rebuilt(images(10, 3, 400, 300)));
    assert_eq!(step, RebuildStep::Ready);
    assert_eq!(r.target_count(), 3);
    assert!(!r.needs_rebuild());
}

#[test]
fn rebuild_resizes_viewport_to_first_image() {
    let mut r = Renderer::new(1, images(0, 2, 800, 600));
    assert_eq!(r.current_viewport(), PixelViewport { width: 800, height: 600 });
    r.handle_window_event(WindowEventKind::Resized);
    r.handle_rebuild_outcome(RebuildOutcome::Rebuilt(images(10, 2, 400, 300)));
    assert_eq!(r.current_viewport(), PixelViewport { width: 400, height: 300 });
}

#[test]
fn out_of_date_acquire_schedules_rebuild_and_skips() {
    let mut r = Renderer::new(1, images(0, 2, 800, 600));
    let step = r.handle_acquire(AcquireOutcome::OutOfDate);
    assert_eq!(step, AcquireStep::SkipFrame);
    assert!(r.needs_rebuild());
    // the loop goes on: the next rebuild succeeds and the frame after it draws
    let step = r.handle_rebuild_outcome(RebuildOutcome::Rebuilt(images(10, 2, 800, 600)));
    assert_eq!(step, RebuildStep::Ready);
    let step = r.handle_acquire(AcquireOutcome::Acquired { image_index: 0, suboptimal: false });
    assert_eq!(step, AcquireStep::Draw { image_index: 0 });
}

#[test]
fn out_of_date_present_schedules_rebuild() {
    let mut r = Renderer::new(1, images(0, 2, 800, 600));
    r.record_submission();
    r.complete_submission(SubmitOutcome::OutOfDate);
    assert!(r.needs_rebuild());
    assert!(!r.frame_pending());
}

#[test]
fn suboptimal_acquire_draws_and_schedules_rebuild() {
    let mut r = Renderer::new(1, images(0, 3, 800, 600));
    let step = r.handle_acquire(AcquireOutcome::Acquired { image_index: 2, suboptimal: true });
    assert_eq!(step, AcquireStep::Draw { image_index: 2 });
    assert!(r.needs_rebuild());
}

#[test]
fn unsupported_dimensions_skip_frame() {
    let mut r = Renderer::new(1, images(0, 2, 800, 600));
    r.handle_window_event(WindowEventKind::Resized);
    // a minimized window: the rebuild reports the zero-area size unsupported
    let step = r.handle_rebuild_outcome(RebuildOutcome::UnsupportedDimensions);
    assert_eq!(step, RebuildStep::SkipFrame);
    assert!(r.needs_rebuild());
    assert_eq!(r.target_count(), 2);
    assert_eq!(r.current_viewport(), PixelViewport { width: 800, height: 600 });
}

#[test]
fn submission_token_cycle() {
    let mut r = Renderer::new(1, images(0, 2, 800, 600));
    assert!(!r.frame_pending());
    assert_eq!(r.token_serial(), 0);
    r.record_submission();
    assert!(r.frame_pending());
    assert_eq!(r.token_serial(), 1);
    r.complete_submission(SubmitOutcome::Completed);
    assert!(!r.frame_pending());
    assert_eq!(r.token_serial(), 1);
    r.record_submission();
    assert!(r.frame_pending());
    assert_eq!(r.token_serial(), 2);
    r.complete_submission(SubmitOutcome::Completed);
    assert!(!r.frame_pending());
}

#[test]
fn flush_failure_resets_token_without_rebuild() {
    let mut r = Renderer::new(1, images(0, 2, 800, 600));
    r.record_submission();
    r.complete_submission(SubmitOutcome::OtherFailure);
    assert!(!r.frame_pending());
    assert!(!r.needs_rebuild());
    // the loop is not deadlocked: the next frame can be submitted
    r.record_submission();
    assert!(r.frame_pending());
}

#[test]
fn close_request_exits_other_events_ignored() {
    let mut r = Renderer::new(1, images(0, 2, 800, 600));
    assert!(!r.handle_window_event(WindowEventKind::Other));
    assert!(!r.needs_rebuild());
    assert!(r.handle_window_event(WindowEventKind::CloseRequested));
    assert!(!r.needs_rebuild());
}

#[test]
fn single_image_swapchain() {
    let mut r = Renderer::new(1, images(5, 1, 1, 1));
    assert_eq!(r.target_count(), 1);
    assert_eq!(r.current_viewport(), PixelViewport { width: 1, height: 1 });
    let t = r.target_at(0);
    assert_eq!(t.image, 5);
    let step = r.handle_acquire(AcquireOutcome::Acquired { image_index: 0, suboptimal: false });
    assert_eq!(step, AcquireStep::Draw { image_index: 0 });
}

#[test]
fn end_to_end_resize_then_close() {
    // start with a window of 800 x 600 and two presentable images
    let mut r = Renderer::new(3, images(0, 2, 800, 600));
    assert_eq!(r.current_viewport(), PixelViewport { width: 800, height: 600 });

    // first frame: acquire, draw into the acquired target, submit, present
    assert!(!r.needs_rebuild());
    let step = r.handle_acquire(AcquireOutcome::Acquired { image_index: 0, suboptimal: false });
    assert_eq!(step, AcquireStep::Draw { image_index: 0 });
    let t = r.target_at(0);
    assert_eq!(t.image, 0);
    assert_eq!(t.width, 800);
    assert_eq!(t.height, 600);
    assert!(!r.frame_pending());
    r.record_submission();
    r.complete_submission(SubmitOutcome::Completed);
    assert!(!r.frame_pending());

    // the window is resized to 400 x 300
    assert!(!r.handle_window_event(WindowEventKind::Resized));
    assert!(r.needs_rebuild());

    // next iteration rebuilds against the new size, with three images now
    let step = r.handle_rebuild_outcome(RebuildOutcome::Rebuilt(images(10, 3, 400, 300)));
    assert_eq!(step, RebuildStep::Ready);
    assert_eq!(r.target_count(), 3);
    assert_eq!(r.current_viewport(), PixelViewport { width: 400, height: 300 });
    let step = r.handle_acquire(AcquireOutcome::Acquired { image_index: 1, suboptimal: false });
    assert_eq!(step, AcquireStep::Draw { image_index: 1 });
    r.record_submission();
    r.complete_submission(SubmitOutcome::Completed);

    // the window is closed: the loop terminates with no further submissions
    assert!(r.handle_window_event(WindowEventKind::CloseRequested));
    assert!(!r.frame_pending());
    assert_eq!(r.token_serial(), 2);
}
