use sph_synth::events::{AppAction, AppState, LiveAction, LiveState, WindowInput};

#[test]
fn events_before_resume_are_ignored() {
    let mut s = AppState::new();
    for ev in [
        WindowInput::CloseRequested,
        WindowInput::MouseButton { left: true, pressed: true },
        WindowInput::RedrawRequested,
        WindowInput::Resized { width: 3, height: 4 },
    ] {
        assert_eq!(s.window_event(ev), AppAction::Ignore);
    }
    assert_eq!(s, AppState::new());
}

#[test]
fn resume_creates_once() {
    let mut s = AppState::new();
    assert!(s.resumed());
    assert!(!s.resumed());
    assert!(s.ready);
}

#[test]
fn pointer_follows_left_button() {
    let mut s = AppState::new();
    s.resumed();
    assert_eq!(s.window_event(WindowInput::RedrawRequested), AppAction::Frame { pointer_down: false });
    s.window_event(WindowInput::MouseButton { left: true, pressed: true });
    s.window_event(WindowInput::MouseButton { left: false, pressed: false });
    s.window_event(WindowInput::CursorMoved);
    assert_eq!(s.window_event(WindowInput::RedrawRequested), AppAction::Frame { pointer_down: true });
    s.window_event(WindowInput::MouseButton { left: true, pressed: false });
    assert_eq!(s.window_event(WindowInput::RedrawRequested), AppAction::Frame { pointer_down: false });
}

#[test]
fn app_answers() {
    let mut s = AppState::new();
    s.resumed();
    assert_eq!(s.window_event(WindowInput::CloseRequested), AppAction::Exit);
    assert_eq!(
        s.window_event(WindowInput::Resized { width: 640, height: 0 }),
        AppAction::ResizeSurface { width: 640, height: 0 }
    );
    assert_eq!(s.window_event(WindowInput::CursorMoved), AppAction::TrackCursor);
    assert_eq!(s.window_event(WindowInput::Other), AppAction::Ignore);
}

#[test]
fn live_viewer_answers() {
    let mut s = LiveState::new();
    assert_eq!(s.window_event(WindowInput::RedrawRequested), LiveAction::Ignore);
    assert!(s.resumed());
    assert!(!s.resumed());
    assert_eq!(s.window_event(WindowInput::RedrawRequested), LiveAction::Frame);
    assert_eq!(s.window_event(WindowInput::CloseRequested), LiveAction::Exit);
    assert_eq!(
        s.window_event(WindowInput::Resized { width: 5, height: 6 }),
        LiveAction::ResizeView { width: 5, height: 6 }
    );
    assert_eq!(s.window_event(WindowInput::CursorMoved), LiveAction::Ignore);
    assert_eq!(s.window_event(WindowInput::MouseButton { left: true, pressed: true }), LiveAction::Ignore);
}
