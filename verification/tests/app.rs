use render_state::app::{App, AppAction, AppEvent, WindowEvent};
use render_state::error::AcquireError;
use render_state::frame::{FrameAction, FrameEvent, FrameOutcome};
use render_state::size::Size;
use render_state::state::State;
use render_state::surface::{Capabilities, PresentationSurface};
use render_state::vertex::{Vertex, VertexBuffer};
use wgpu::{CompositeAlphaMode, PresentMode, TextureFormat};

const WINDOW: u64 = 7;

fn state_of(size: Size) -> State {
    let capabilities = Capabilities {
        formats: vec![TextureFormat::Rgba8UnormSrgb],
        present_modes: vec![PresentMode::Fifo],
        alpha_modes: vec![CompositeAlphaMode::Auto],
    };
    let surface = PresentationSurface::configure(&capabilities, size).unwrap();
    let buffer = VertexBuffer::build(&vec![Vertex { position: [0; 3], color: [0; 3] }; 3]).unwrap();
    State::new(surface, &buffer)
}

fn ready_app() -> App {
    let mut app = App::new();
    let size = app.resumed(WINDOW, Size::new(450, 400));
    app.user_event(AppEvent::StateReady(state_of(size)));
    app
}

#[test]
fn new_app_has_nothing() {
    let app = App::new();
    assert!(!app.is_ready());
    assert!(app.state().is_none());
    assert_eq!(app.last_size(), Size::new(0, 0));
}

#[test]
fn first_window_sets_the_starting_size() {
    let mut app = App::new();
    assert_eq!(app.resumed(WINDOW, Size::new(450, 400)), Size::new(450, 400));
    assert_eq!(app.last_size(), Size::new(450, 400));
}

#[test]
fn later_window_keeps_the_last_size() {
    let mut app = ready_app();
    assert_eq!(
        app.window_event(WINDOW, WindowEvent::Resized(Size::new(640, 480))),
        AppAction::Redraw { reconfigure: Some(app.state().unwrap().config()) }
    );
    assert_eq!(app.resumed(8, Size::new(100, 100)), Size::new(640, 480));
    assert_eq!(app.window_event(WINDOW, WindowEvent::CloseRequested), AppAction::Nothing);
    assert_eq!(app.window_event(8, WindowEvent::CloseRequested), AppAction::Exit);
}

#[test]
fn state_arrives_by_user_event() {
    let mut app = App::new();
    app.resumed(WINDOW, Size::new(450, 400));
    assert!(!app.is_ready());
    app.user_event(AppEvent::StateReady(state_of(Size::new(450, 400))));
    assert!(app.is_ready());
    assert_eq!(app.state().unwrap().size(), Size::new(450, 400));
}

#[test]
fn nothing_is_drawn_before_the_state_arrives() {
    let mut app = App::new();
    app.resumed(WINDOW, Size::new(450, 400));
    assert_eq!(app.window_event(WINDOW, WindowEvent::RedrawRequested), AppAction::Nothing);
    assert_eq!(app.window_event(WINDOW, WindowEvent::Resized(Size::new(10, 10))), AppAction::Nothing);
    assert_eq!(app.last_size(), Size::new(450, 400));
    assert_eq!(app.frame(FrameEvent::RedrawRequested), FrameAction::Ignored);
    assert_eq!(app.window_event(WINDOW, WindowEvent::CloseRequested), AppAction::Exit);
}

#[test]
fn events_of_other_windows_are_passed_over() {
    let mut app = ready_app();
    for event in [
        WindowEvent::CloseRequested,
        WindowEvent::Resized(Size::new(10, 10)),
        WindowEvent::RedrawRequested,
        WindowEvent::Other,
    ] {
        assert_eq!(app.window_event(WINDOW + 1, event), AppAction::Nothing);
    }
    assert_eq!(app.last_size(), Size::new(450, 400));
    assert_eq!(app.state().unwrap().size(), Size::new(450, 400));
}

#[test]
fn close_request_exits() {
    let mut app = ready_app();
    assert_eq!(app.window_event(WINDOW, WindowEvent::CloseRequested), AppAction::Exit);
}

#[test]
fn resize_reconfigures_and_asks_for_a_redraw() {
    let mut app = ready_app();
    let action = app.window_event(WINDOW, WindowEvent::Resized(Size::new(800, 600)));
    match action {
        AppAction::Redraw { reconfigure: Some(config) } => {
            assert_eq!((config.width, config.height), (800, 600));
            assert_eq!(config, app.state().unwrap().config());
        }
        other => panic!("expected a reconfiguration, got {:?}", other),
    }
    assert_eq!(app.last_size(), Size::new(800, 600));
}

#[test]
fn resize_to_zero_only_asks_for_a_redraw() {
    let mut app = ready_app();
    assert_eq!(
        app.window_event(WINDOW, WindowEvent::Resized(Size::new(0, 300))),
        AppAction::Redraw { reconfigure: None }
    );
    assert_eq!(app.last_size(), Size::new(0, 300));
    assert_eq!(app.state().unwrap().size(), Size::new(450, 400));
}

#[test]
fn redraw_request_renders_a_frame() {
    let mut app = ready_app();
    assert_eq!(app.window_event(WINDOW, WindowEvent::RedrawRequested), AppAction::Render);
    assert_eq!(app.frame(FrameEvent::RedrawRequested), FrameAction::Acquire);
    assert_eq!(app.frame(FrameEvent::Acquired), FrameAction::Record);
    assert_eq!(app.frame(FrameEvent::Submitted), FrameAction::Present);
    assert_eq!(app.frame(FrameEvent::Presented), FrameAction::Done(FrameOutcome::Presented));
    assert_eq!(app.frame_ended(FrameOutcome::Presented), AppAction::Nothing);
}

#[test]
fn dropped_frame_schedules_a_reconfiguration() {
    let mut app = ready_app();
    assert_eq!(app.frame(FrameEvent::RedrawRequested), FrameAction::Acquire);
    let action = app.frame(FrameEvent::AcquireFailed(AcquireError::Outdated));
    assert_eq!(action, FrameAction::Done(FrameOutcome::Dropped));
    assert_eq!(
        app.frame_ended(FrameOutcome::Dropped),
        AppAction::Redraw { reconfigure: Some(app.state().unwrap().config()) }
    );
}

#[test]
fn fatal_frame_ends_the_loop() {
    let app = ready_app();
    assert_eq!(app.frame_ended(FrameOutcome::Fatal(AcquireError::DeviceLost)), AppAction::Exit);
    assert_eq!(app.frame_ended(FrameOutcome::Fatal(AcquireError::OutOfMemory)), AppAction::Exit);
    assert_eq!(app.frame_ended(FrameOutcome::Failed), AppAction::Nothing);
    assert_eq!(App::new().frame_ended(FrameOutcome::Dropped), AppAction::Nothing);
}

#[test]
fn other_window_events_do_nothing() {
    let mut app = ready_app();
    assert_eq!(app.window_event(WINDOW, WindowEvent::Other), AppAction::Nothing);
}

#[test]
fn events_before_any_window_are_passed_over() {
    let mut app = App::new();
    assert_eq!(app.window_event(WINDOW, WindowEvent::CloseRequested), AppAction::Nothing);
    assert_eq!(app.window_event(0, WindowEvent::RedrawRequested), AppAction::Nothing);
    assert_eq!(app.last_size(), Size::new(0, 0));
}
