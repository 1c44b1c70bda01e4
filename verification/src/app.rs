//! The window's side of the renderer: which window event leads to which
//! request, before and after the rendering state has arrived.

use vstd::prelude::*;
use crate::frame::{FrameAction, FrameEvent, FrameOutcome};
use crate::size::Size;
use crate::state::{State, StateView};
use crate::surface::SurfaceConfig;

verus! {

/// What start-up sends to the event loop when it is done.
pub enum AppEvent {
    /// The rendering state is built and can draw.
    StateReady(State),
}

/// The events of a window that matter here.
#[derive(Clone, Copy, Debug, PartialEq, Eq, Structural)]
pub enum WindowEvent {
    /// The user asked to close the window.
    CloseRequested,
    /// The window has a new inner size.
    Resized(Size),
    /// The window is to be drawn.
    RedrawRequested,
    /// Anything else.
    Other,
}

/// What the event loop is asked to do.
#[derive(Clone, Copy, Debug, PartialEq, Eq)]
pub enum AppAction {
    /// Leave the event loop.
    Exit,
    /// Apply the configuration to the surface, if there is one, then ask the
    /// window for a redraw.
    Redraw { reconfigure: Option<SurfaceConfig> },
    /// Draw a frame: report `FrameEvent::RedrawRequested` to `App::frame` and
    /// follow what it asks for until the frame is done.
    Render,
    /// Nothing.
    Nothing,
}

/// What an `App` holds, as plain values.
pub struct AppView {
    /// The identifier of the window, once there is one.
    pub window: Option<u64>,
    /// The rendering state, once it has arrived.
    pub state: Option<StateView>,
    /// The last size the window is known to have had.
    pub last_size: Size,
}

impl AppView {
    /// Before any window: no state, size zero.
    pub open spec fn initial() -> AppView {
        AppView { window: None, state: None, last_size: Size { width: 0, height: 0 } }
    }

    /// The view once the window `window` with inner size `inner_size` has
    /// been created: the first window sets the size to start with, a later
    /// one leaves the size last seen.
    pub open spec fn resumed(self, window: u64, inner_size: Size) -> AppView {
        AppView {
            window: Some(window),
            last_size: if self.window is None {
                inner_size
            } else {
                self.last_size
            },
            ..self
        }
    }

    /// The view after a window event, and what is asked for in answer.
    ///
    /// Events of other windows, and all but closing before the state has
    /// arrived, are passed over. A new size goes to the state, zero or not,
    /// and is remembered.
    pub open spec fn on_window_event(self, window: u64, event: WindowEvent) -> (AppView, AppAction) {
        if self.window != Some(window) {
            (self, AppAction::Nothing)
        } else {
            match (event, self.state) {
                (WindowEvent::CloseRequested, _) => (self, AppAction::Exit),
                (WindowEvent::Resized(size), Some(state)) => (
                    AppView { state: Some(state.resized(size)), last_size: size, ..self },
                    AppAction::Redraw {
                        reconfigure: if size.drawable() {
                            Some(state.resized(size).config)
                        } else {
                            None
                        },
                    },
                ),
                (WindowEvent::RedrawRequested, Some(_)) => (self, AppAction::Render),
                _ => (self, AppAction::Nothing),
            }
        }
    }

    /// The view after an event of a frame, and what is asked for in answer:
    /// the state's own answer, or nothing while there is no state.
    pub open spec fn on_frame_event(self, event: FrameEvent) -> (AppView, FrameAction) {
        match self.state {
            Some(state) => (
                AppView { state: Some(state.after(event)), ..self },
                state.phase.action(event),
            ),
            None => (self, FrameAction::Ignored),
        }
    }

    /// What follows the end of a frame: after a dropped frame the stored
    /// configuration is applied again and a redraw asked for; a fatal outcome
    /// ends the event loop; otherwise nothing.
    pub open spec fn after_frame(self, outcome: FrameOutcome) -> AppAction {
        match (outcome, self.state) {
            (FrameOutcome::Dropped, Some(state)) => AppAction::Redraw { reconfigure: Some(state.config) },
            (FrameOutcome::Fatal(_), _) => AppAction::Exit,
            _ => AppAction::Nothing,
        }
    }
}

/// The application: at most one window and, once start-up is through, its
/// rendering state.
pub struct App {
    window: Option<u64>,
    state: Option<State>,
    last_size: Size,
}

impl View for App {
    type V = AppView;

    closed spec fn view(&self) -> AppView {
        AppView {
            window: self.window,
            state: match self.state {
                Some(state) => Some(state@),
                None => None,
            },
            last_size: self.last_size,
        }
    }
}

impl App {
    /// An application without window or state.
    pub fn new() -> (app: App)
        ensures
            app@ == AppView::initial(),
    {
        App { window: None, state: None, last_size: Size { width: 0, height: 0 } }
    }

    /// A window was created. Returns the size that start-up is to be begun
    /// with.
    pub fn resumed(&mut self, window: u64, inner_size: Size) -> (size: Size)
        ensures
            final(self)@ == old(self)@.resumed(window, inner_size),
            size == final(self)@.last_size,
    {
        if self.window.is_none() {
            self.last_size = inner_size;
        }
        self.window = Some(window);
        self.last_size
    }

    /// Start-up reports back: the state is taken.
    pub fn user_event(&mut self, event: AppEvent)
        ensures
            event matches AppEvent::StateReady(state) && final(self)@ == (AppView {
                state: Some(state@),
                ..old(self)@
            }),
    {
        match event {
            AppEvent::StateReady(state) => {
                self.state = Some(state);
            },
        }
    }

    /// Takes an event of the window `window`. While the application has no
    /// window, no event is its own.
    pub fn window_event(&mut self, window: u64, event: WindowEvent) -> (action: AppAction)
        ensures
            final(self)@ == old(self)@.on_window_event(window, event).0,
            action == old(self)@.on_window_event(window, event).1,
    {
        let own = match self.window {
            Some(own) => own,
            None => { return AppAction::Nothing; },
        };
        if own != window {
            return AppAction::Nothing;
        }
        match event {
            WindowEvent::CloseRequested => AppAction::Exit,
            WindowEvent::Resized(size) => match &mut self.state {
                Some(state) => {
                    let reconfigure = state.resize(size);
                    self.last_size = size;
                    AppAction::Redraw { reconfigure }
                },
                None => AppAction::Nothing,
            },
            WindowEvent::RedrawRequested => match &self.state {
                Some(_) => AppAction::Render,
                None => AppAction::Nothing,
            },
            WindowEvent::Other => AppAction::Nothing,
        }
    }

    /// Takes one event of a frame and says what is to be done next. While
    /// there is no state, every event is passed over.
    pub fn frame(&mut self, event: FrameEvent) -> (action: FrameAction)
        ensures
            final(self)@ == old(self)@.on_frame_event(event).0,
            action == old(self)@.on_frame_event(event).1,
    {
        match &mut self.state {
            Some(state) => state.render(event),
            None => FrameAction::Ignored,
        }
    }

    /// What is to be done now that a frame has ended as `outcome`.
    pub fn frame_ended(&self, outcome: FrameOutcome) -> (action: AppAction)
        ensures
            action == self@.after_frame(outcome),
    {
        match outcome {
            FrameOutcome::Dropped => match &self.state {
                Some(state) => AppAction::Redraw { reconfigure: Some(state.config()) },
                None => AppAction::Nothing,
            },
            FrameOutcome::Fatal(_) => AppAction::Exit,
            _ => AppAction::Nothing,
        }
    }

    /// The last size the window is known to have had.
    pub fn last_size(&self) -> (size: Size)
        ensures
            size == self@.last_size,
    {
        self.last_size
    }

    /// Whether the rendering state has arrived.
    pub fn is_ready(&self) -> (ready: bool)
        ensures
            ready == self@.state is Some,
    {
        self.state.is_some()
    }

    /// The rendering state, if it has arrived.
    pub fn state(&self) -> (state: Option<&State>)
        ensures
            state matches Some(state) ==> self@.state == Some(state@),
            state is None ==> self@.state is None,
    {
        self.state.as_ref()
    }
}

/// Nothing is drawn before the rendering state has arrived: no window event
/// asks for a frame, and no event of a frame is answered.
pub proof fn no_frame_without_state(app: AppView, window: u64, event: WindowEvent, frame: FrameEvent)
    requires
        app.state is None,
    ensures
        app.on_window_event(window, event).1 != AppAction::Render,
        app.on_window_event(window, event).0 == app,
        app.on_frame_event(frame) == (app, FrameAction::Ignored),
{
}

/// Closing the application's window always ends the event loop; no event of
/// another window does anything.
pub proof fn close_exits(app: AppView, window: u64, other: u64, event: WindowEvent)
    requires
        app.window == Some(window),
        other != window,
    ensures
        app.on_window_event(window, WindowEvent::CloseRequested) == (app, AppAction::Exit),
        app.on_window_event(other, event) == (app, AppAction::Nothing),
{
}

} // verus!
