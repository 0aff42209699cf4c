use fractal_view::frame::{AcquireOutcome, AcquirePhase, FrameAttempt, FrameStep};
use fractal_view::transform::{pixel_to_scene, PixelPos, SceneVec, SurfaceSize, FIXED_ONE};
use fractal_view::view::{Action, Event, Uniform, ViewState};

fn size() -> SurfaceSize {
    SurfaceSize { width: 800, height: 600 }
}

#[test]
fn new_view_is_identity() {
    let s = ViewState::new(size());
    assert_eq!(s.zoom, FIXED_ONE);
    assert_eq!(s.offset, SceneVec { x: 0, y: 0 });
    assert_eq!(s.cursor, PixelPos { x: 0, y: 0 });
    assert_eq!(s.uniform(), Uniform { zoom: FIXED_ONE, offset: SceneVec { x: 0, y: 0 } });
}

#[test]
fn cursor_move_only_records_position() {
    let mut s = ViewState::new(size());
    let a = s.dispatch(Event::CursorMoved(PixelPos { x: 17, y: -4 }));
    assert_eq!(a, Action::Nothing);
    assert_eq!(s.cursor, PixelPos { x: 17, y: -4 });
    assert_eq!(s.zoom, FIXED_ONE);
}

#[test]
fn close_exits() {
    let mut s = ViewState::new(size());
    let before = s;
    assert_eq!(s.dispatch(Event::CloseRequested), Action::Exit);
    assert_eq!(s, before);
}

#[test]
fn zoom_press_divides_by_one_point_one() {
    let mut s = ViewState::new(size());
    s.dispatch(Event::CursorMoved(PixelPos { x: 400, y: 300 }));
    let a = s.dispatch(Event::PrimaryButtonPressed);
    assert_eq!(s.zoom, 999556025250);
    assert_eq!(a, Action::UploadAndRedraw(s.uniform()));
    s.dispatch(Event::PrimaryButtonPressed);
    s.dispatch(Event::PrimaryButtonPressed);
    assert_eq!(s.zoom, 826079359710);
    assert_eq!(s.offset, SceneVec { x: 0, y: 0 });
}

#[test]
fn repeated_presses_strictly_shrink_zoom() {
    let mut s = ViewState::new(size());
    s.dispatch(Event::CursorMoved(PixelPos { x: 250, y: 90 }));
    for _ in 0..200 {
        let before = s.zoom;
        s.dispatch(Event::PrimaryButtonPressed);
        assert!(s.zoom > 0);
        assert!(s.zoom < before);
        assert_eq!(s.zoom, before * 10 / 11);
    }
}

#[test]
fn zoom_at_smallest_value_stays_positive() {
    let mut s = ViewState::new(size());
    s.zoom = 1;
    s.dispatch(Event::PrimaryButtonPressed);
    assert_eq!(s.zoom, 1);
    s.zoom = 2;
    s.dispatch(Event::PrimaryButtonPressed);
    assert_eq!(s.zoom, 1);
}

#[test]
fn zoom_keeps_point_under_cursor() {
    let mut s = ViewState::new(size());
    let cursor = PixelPos { x: 610, y: 77 };
    s.dispatch(Event::CursorMoved(cursor));
    let anchor = pixel_to_scene(cursor, s.zoom, s.offset, s.surface).unwrap();
    for _ in 0..5 {
        s.dispatch(Event::PrimaryButtonPressed);
        assert_eq!(pixel_to_scene(cursor, s.zoom, s.offset, s.surface), Some(anchor));
    }
    assert_ne!(s.offset, SceneVec { x: 0, y: 0 });
}

#[test]
fn resize_to_same_size_still_reconfigures() {
    let mut s = ViewState::new(size());
    s.dispatch(Event::CursorMoved(PixelPos { x: 10, y: 20 }));
    s.dispatch(Event::PrimaryButtonPressed);
    let before = s;
    let a = s.dispatch(Event::Resized(size()));
    assert_eq!(a, Action::ReconfigureAndRedraw(size()));
    assert_eq!(s, before);
}

#[test]
fn resize_records_new_size() {
    let mut s = ViewState::new(size());
    let big = SurfaceSize { width: 1600, height: 1200 };
    assert_eq!(s.dispatch(Event::Resized(big)), Action::ReconfigureAndRedraw(big));
    assert_eq!(s.surface, big);
    assert_eq!(s.zoom, FIXED_ONE);
}

#[test]
fn zoom_on_zero_surface_keeps_offset() {
    let mut s = ViewState::new(size());
    s.dispatch(Event::CursorMoved(PixelPos { x: 700, y: 100 }));
    s.dispatch(Event::PrimaryButtonPressed);
    let offset = s.offset;
    s.dispatch(Event::Resized(SurfaceSize { width: 0, height: 0 }));
    let a = s.dispatch(Event::PrimaryButtonPressed);
    assert_eq!(s.offset, offset);
    assert_eq!(s.zoom, 999556025250 * 10 / 11);
    assert_eq!(a, Action::UploadAndRedraw(Uniform { zoom: s.zoom, offset }));
}

#[test]
fn each_upload_matches_state_after_that_many_steps() {
    let mut s = ViewState::new(size());
    s.dispatch(Event::CursorMoved(PixelPos { x: 33, y: 580 }));
    let mut expected = s;
    for _ in 0..10 {
        expected.zoom_in();
        let a = s.dispatch(Event::PrimaryButtonPressed);
        assert_eq!(a, Action::UploadAndRedraw(expected.uniform()));
    }
    assert_eq!(s, expected);
}

#[test]
fn outdated_then_acquired_draws() {
    let mut f = FrameAttempt::start();
    assert_eq!(f.on_outcome(AcquireOutcome::Outdated), FrameStep::ReconfigureAndRetry);
    assert_eq!(f.phase, AcquirePhase::Retry);
    assert_eq!(f.on_outcome(AcquireOutcome::Acquired), FrameStep::Draw);
}

#[test]
fn two_failures_skip_the_frame() {
    let mut f = FrameAttempt::start();
    assert_eq!(f.on_outcome(AcquireOutcome::Outdated), FrameStep::ReconfigureAndRetry);
    assert_eq!(f.on_outcome(AcquireOutcome::Outdated), FrameStep::Skip);
    let mut g = FrameAttempt::start();
    g.on_outcome(AcquireOutcome::Outdated);
    assert_eq!(g.on_outcome(AcquireOutcome::Failed), FrameStep::Skip);
}

#[test]
fn other_failure_skips_at_once() {
    let mut f = FrameAttempt::start();
    assert_eq!(f.on_outcome(AcquireOutcome::Failed), FrameStep::Skip);
    assert_eq!(f.phase, AcquirePhase::First);
    let mut g = FrameAttempt::start();
    assert_eq!(g.on_outcome(AcquireOutcome::Acquired), FrameStep::Draw);
}
