//! The decisions of the interactive front ends, as state machines from a
//! window event to the next state and the action to perform. Creating
//! windows and GPU objects, reading the cursor position and drawing are the
//! caller's: it performs the action and feeds back the next event.

use vstd::prelude::*;

verus! {

/// A window event, with what the decisions read of it.
#[derive(Clone, Copy, Debug, PartialEq, Eq, Structural)]
pub enum WindowInput {
    CloseRequested,
    Resized { width: u32, height: u32 },
    CursorMoved,
    /// A mouse button went down (`pressed`) or up; `left` tells the left
    /// button from the others.
    MouseButton { left: bool, pressed: bool },
    RedrawRequested,
    /// Any event no front end reacts to.
    Other,
}

/// What the interactive simulator does in answer to an event.
#[derive(Clone, Copy, Debug, PartialEq, Eq, Structural)]
pub enum AppAction {
    /// Nothing to do outside the state.
    Ignore,
    /// Leave the event loop.
    Exit,
    /// Hand the new size to the renderer.
    ResizeSurface { width: u32, height: u32 },
    /// Remember the cursor position the event carries.
    TrackCursor,
    /// Run one frame: turn the cursor into a world position, hand it and
    /// `pointer_down` to the simulation, step it, draw, ask for the next
    /// redraw.
    Frame { pointer_down: bool },
}

/// State of the interactive simulator between events.
#[derive(Clone, Copy, Debug, PartialEq, Eq, Structural)]
pub struct AppState {
    /// The window, renderer and simulation exist.
    pub ready: bool,
    /// The left mouse button is held down.
    pub pointer_down: bool,
}

/// Answer to the application being resumed: the state after it, and
/// whether the window, renderer and simulation are to be created now.
pub open spec fn app_resume(s: AppState) -> (AppState, bool) {
    (AppState { ready: true, pointer_down: s.pointer_down }, !s.ready)
}

/// Answer to a window event: the state after it, and the action.
pub open spec fn app_step(s: AppState, ev: WindowInput) -> (AppState, AppAction) {
    if !s.ready {
        (s, AppAction::Ignore)
    } else {
        match ev {
            WindowInput::CloseRequested => (s, AppAction::Exit),
            WindowInput::Resized { width, height } => (
                s,
                AppAction::ResizeSurface { width, height },
            ),
            WindowInput::CursorMoved => (s, AppAction::TrackCursor),
            WindowInput::MouseButton { left, pressed } => if left {
                (AppState { ready: s.ready, pointer_down: pressed }, AppAction::Ignore)
            } else {
                (s, AppAction::Ignore)
            },
            WindowInput::RedrawRequested => (s, AppAction::Frame { pointer_down: s.pointer_down }),
            WindowInput::Other => (s, AppAction::Ignore),
        }
    }
}

/// The state after a sequence of window events.
pub open spec fn app_run(s: AppState, events: Seq<WindowInput>) -> AppState
    decreases events.len(),
{
    if events.len() == 0 {
        s
    } else {
        app_step(app_run(s, events.drop_last()), events.last()).0
    }
}

/// Whether the left button was last seen down in `events`; `before` when no
/// left-button event occurs in them.
pub open spec fn left_button_held(events: Seq<WindowInput>, before: bool) -> bool
    decreases events.len(),
{
    if events.len() == 0 {
        before
    } else {
        match events.last() {
            WindowInput::MouseButton { left, pressed } => if left {
                pressed
            } else {
                left_button_held(events.drop_last(), before)
            },
            _ => left_button_held(events.drop_last(), before),
        }
    }
}

impl AppState {
    /// Nothing created yet, button up.
    pub fn new() -> (s: Self)
        ensures
            s == (AppState { ready: false, pointer_down: false }),
    {
        AppState { ready: false, pointer_down: false }
    }

    /// The application was resumed; `true` when the window, renderer and
    /// simulation are to be created now, which happens on the first resume
    /// only.
    pub fn resumed(&mut self) -> (create: bool)
        ensures
            (*final(self), create) == app_resume(*old(self)),
    {
        let create = !self.ready;
        self.ready = true;
        create
    }

    /// A window event arrived: updates the state and returns what to do.
    /// Until the application has been resumed every event is ignored.
    pub fn window_event(&mut self, ev: WindowInput) -> (action: AppAction)
        ensures
            (*final(self), action) == app_step(*old(self), ev),
            (action == AppAction::Exit) <==> (old(self).ready && ev == WindowInput::CloseRequested),
            ev is MouseButton ==> action == AppAction::Ignore,
            final(self).ready == old(self).ready,
    {
        if !self.ready {
            return AppAction::Ignore;
        }
        match ev {
            WindowInput::CloseRequested => AppAction::Exit,
            WindowInput::Resized { width, height } => AppAction::ResizeSurface { width, height },
            WindowInput::CursorMoved => AppAction::TrackCursor,
            WindowInput::MouseButton { left, pressed } => {
                if left {
                    self.pointer_down = pressed;
                }
                AppAction::Ignore
            },
            WindowInput::RedrawRequested => AppAction::Frame { pointer_down: self.pointer_down },
            WindowInput::Other => AppAction::Ignore,
        }
    }
}

/// The window, renderer and simulation are created once: a second resume
/// creates nothing and changes nothing.
pub proof fn lemma_resume_creates_once(s: AppState)
    ensures
        app_resume(s).0.ready,
        !app_resume(app_resume(s).0).1,
        app_resume(app_resume(s).0).0 == app_resume(s).0,
{
}

/// Only a close request ends the simulator: no other event, and no event
/// before the application is resumed, yields `Exit`. A mouse button never
/// triggers an action of its own: it only moves the pointer state, and
/// only the left button does that.
pub proof fn lemma_only_close_exits(s: AppState, ev: WindowInput)
    ensures
        (app_step(s, ev).1 == AppAction::Exit) <==> (s.ready && ev == WindowInput::CloseRequested),
        ev is MouseButton ==> app_step(s, ev).1 == AppAction::Ignore,
        app_step(s, ev).0.ready == s.ready,
        !(ev is MouseButton) ==> app_step(s, ev).0 == s,
        (ev matches WindowInput::MouseButton { left, pressed } && left && s.ready) ==> app_step(
            s,
            ev,
        ).0.pointer_down == ev->pressed,
{
}

/// Once resumed, a resize hands on exactly the new size, a cursor move is
/// tracked, and a redraw runs a frame with the pointer as currently held.
pub proof fn lemma_ready_answers(s: AppState, width: u32, height: u32)
    requires
        s.ready,
    ensures
        app_step(s, WindowInput::Resized { width, height }).1 == (AppAction::ResizeSurface {
            width,
            height,
        }),
        app_step(s, WindowInput::CursorMoved).1 == AppAction::TrackCursor,
        app_step(s, WindowInput::RedrawRequested).1 == (AppAction::Frame {
            pointer_down: s.pointer_down,
        }),
        app_step(s, WindowInput::Other).1 == AppAction::Ignore,
{
}

/// Before the application is resumed, events change nothing.
pub proof fn lemma_events_before_resume_ignored(s: AppState, events: Seq<WindowInput>)
    requires
        !s.ready,
    ensures
        app_run(s, events) == s,
    decreases events.len(),
{
    if events.len() > 0 {
        lemma_events_before_resume_ignored(s, events.drop_last());
    }
}

/// Once resumed, the simulator holds the pointer down exactly when the last
/// left-button event was a press (or, with none, as it was before); other
/// buttons and events leave it alone.
pub proof fn lemma_pointer_follows_left_button(s: AppState, events: Seq<WindowInput>)
    requires
        s.ready,
    ensures
        app_run(s, events).ready,
        app_run(s, events).pointer_down == left_button_held(events, s.pointer_down),
    decreases events.len(),
{
    if events.len() > 0 {
        lemma_pointer_follows_left_button(s, events.drop_last());
    }
}

/// A frame hands the simulation the pointer as held after all earlier
/// events: down exactly when the last left-button event was a press.
pub proof fn lemma_frame_reports_pointer(s: AppState, events: Seq<WindowInput>)
    requires
        s.ready,
    ensures
        app_step(app_run(s, events), WindowInput::RedrawRequested).1 == (AppAction::Frame {
            pointer_down: left_button_held(events, s.pointer_down),
        }),
{
    lemma_pointer_follows_left_button(s, events);
}

/// What the headless-backend live viewer does in answer to an event.
#[derive(Clone, Copy, Debug, PartialEq, Eq, Structural)]
pub enum LiveAction {
    Ignore,
    Exit,
    /// Hand the new size to the view.
    ResizeView { width: u32, height: u32 },
    /// Step the simulation by one frame's time, draw its snapshot, ask for
    /// the next redraw.
    Frame,
}

/// Answer of the live viewer to a window event, given whether its view
/// exists yet.
pub open spec fn live_step(view_ready: bool, ev: WindowInput) -> LiveAction {
    if !view_ready {
        LiveAction::Ignore
    } else {
        match ev {
            WindowInput::CloseRequested => LiveAction::Exit,
            WindowInput::Resized { width, height } => LiveAction::ResizeView { width, height },
            WindowInput::RedrawRequested => LiveAction::Frame,
            _ => LiveAction::Ignore,
        }
    }
}

/// Only a close request ends the live viewer; every event other than a
/// close request, a resize or a redraw request is ignored, and before the
/// view exists everything is.
pub proof fn lemma_live_only_close_exits(view_ready: bool, ev: WindowInput)
    ensures
        (live_step(view_ready, ev) == LiveAction::Exit) <==> (view_ready && ev
            == WindowInput::CloseRequested),
        !(ev is CloseRequested || ev is Resized || ev is RedrawRequested) ==> live_step(
            view_ready,
            ev,
        ) == LiveAction::Ignore,
        !view_ready ==> live_step(view_ready, ev) == LiveAction::Ignore,
        (view_ready && ev is RedrawRequested) ==> live_step(view_ready, ev) == LiveAction::Frame,
        (view_ready && ev is Resized) ==> live_step(view_ready, ev) == (LiveAction::ResizeView {
            width: ev->width,
            height: ev->height,
        }),
{
}

/// State of the live viewer between events.
#[derive(Clone, Copy, Debug, PartialEq, Eq, Structural)]
pub struct LiveState {
    /// The window and its view exist.
    pub view_ready: bool,
}

impl LiveState {
    pub fn new() -> (s: Self)
        ensures
            !s.view_ready,
    {
        LiveState { view_ready: false }
    }

    /// The application was resumed; `true` when the window and view are to
    /// be created now, on the first resume only.
    pub fn resumed(&mut self) -> (create: bool)
        ensures
            create == !old(self).view_ready,
            final(self).view_ready,
    {
        let create = !self.view_ready;
        self.view_ready = true;
        create
    }

    /// A window event arrived: what to do with it. The state does not
    /// change.
    pub fn window_event(&self, ev: WindowInput) -> (action: LiveAction)
        ensures
            action == live_step(self.view_ready, ev),
            (action == LiveAction::Exit) <==> (self.view_ready && ev == WindowInput::CloseRequested),
            !(ev is CloseRequested || ev is Resized || ev is RedrawRequested) ==> action
                == LiveAction::Ignore,
    {
        if !self.view_ready {
            return LiveAction::Ignore;
        }
        match ev {
            WindowInput::CloseRequested => LiveAction::Exit,
            WindowInput::Resized { width, height } => LiveAction::ResizeView { width, height },
            WindowInput::RedrawRequested => LiveAction::Frame,
            _ => LiveAction::Ignore,
        }
    }
}

} // verus!
