use game_renderer::app::{window_command, GameApp, GameState, WindowCommand};
use game_renderer::input::{DeviceSignal, InputEvent, InputEventHandler, InputState, KeyState, WindowSignal};
use game_renderer::state::GameState as RendererState;

/// Test handler: records each event it sees, together with the focus flag
/// it observed, in the renderer slot of the game state.
#[derive(Clone, Copy)]
struct Recorder;

impl InputEventHandler for Recorder {
    type GameState = GameState<Vec<String>>;
    type Key = u32;
    type Coord = f64;
    type Error = String;

    fn handle(
        &self,
        event: &InputEvent<u32, f64>,
        state: &mut GameState<Vec<String>>,
        _input: &mut InputState<Self>,
    ) -> Result<(), String> {
        let focused = state.is_focused;
        let entry = match event {
            InputEvent::FocusChange(f) => format!("focus {f} (seen {focused})"),
            InputEvent::KeyboardKeyPress { key, state } => format!("key {key} {state:?}"),
            InputEvent::MouseMovement { x, y } => format!("mouse {x} {y}"),
            InputEvent::CursorMovement { x, y } => format!("cursor {x} {y}"),
        };
        state.renderer.get_or_insert_with(Vec::new).push(entry);
        Ok(())
    }
}

fn log_of(app: &GameApp<Vec<String>, Recorder>) -> Vec<String> {
    app.state().renderer.clone().unwrap_or_default()
}

#[test]
fn close_request_exits() {
    let mut app: GameApp<Vec<String>, Recorder> = GameApp::new();
    app.register_input_handler(Recorder);
    let (command, failures) = app.window_event(WindowSignal::CloseRequested);
    assert_eq!(command, WindowCommand::Exit);
    assert!(failures.is_empty());
    assert!(log_of(&app).is_empty());
}

#[test]
fn redraw_renders_only_with_a_renderer() {
    let mut app: GameApp<Vec<String>, Recorder> = GameApp::new();
    assert!(app.needs_renderer());
    assert_eq!(app.window_event(WindowSignal::RedrawRequested).0, WindowCommand::Continue);
    app.install_renderer(Vec::new());
    assert!(!app.needs_renderer());
    assert_eq!(app.window_event(WindowSignal::RedrawRequested).0, WindowCommand::Render);
}

#[test]
fn focus_is_recorded_before_handlers_run() {
    let mut app: GameApp<Vec<String>, Recorder> = GameApp::default();
    app.register_input_handler(Recorder);
    assert!(!app.state().is_focused);
    let (command, _) = app.window_event(WindowSignal::Focused(true));
    assert_eq!(command, WindowCommand::Continue);
    assert!(app.state().is_focused);
    assert_eq!(log_of(&app), vec!["focus true (seen true)".to_string()]);
}

#[test]
fn keyboard_and_cursor_reach_handlers() {
    let mut app: GameApp<Vec<String>, Recorder> = GameApp::new();
    app.register_input_handler(Recorder);
    app.window_event(WindowSignal::KeyboardInput { key: 32, state: KeyState::Pressed });
    app.window_event(WindowSignal::CursorMoved { x: 10.0, y: 20.0 });
    app.window_event(WindowSignal::Other);
    assert_eq!(log_of(&app), vec!["key 32 Pressed".to_string(), "cursor 10 20".to_string()]);
}

#[test]
fn mouse_motion_needs_focus() {
    let mut app: GameApp<Vec<String>, Recorder> = GameApp::new();
    app.register_input_handler(Recorder);
    app.device_event(&DeviceSignal::MouseMotion { x: 1.0, y: 2.0 });
    assert!(log_of(&app).is_empty());
    app.window_event(WindowSignal::Focused(true));
    app.device_event(&DeviceSignal::MouseMotion { x: 1.0, y: 2.0 });
    assert_eq!(log_of(&app).last().cloned(), Some("mouse 1 2".to_string()));
}

#[test]
fn renderer_is_installed_only_once() {
    let mut app: GameApp<Vec<String>, Recorder> = GameApp::new();
    app.install_renderer(vec!["first".to_string()]);
    app.install_renderer(vec!["second".to_string()]);
    assert_eq!(log_of(&app), vec!["first".to_string()]);
}

#[test]
fn window_command_table() {
    let close: WindowSignal<u32, f64> = WindowSignal::CloseRequested;
    assert_eq!(window_command(false, &close), WindowCommand::Exit);
    assert_eq!(window_command(true, &close), WindowCommand::Exit);
    let redraw: WindowSignal<u32, f64> = WindowSignal::RedrawRequested;
    assert_eq!(window_command(true, &redraw), WindowCommand::Render);
    assert_eq!(window_command(false, &redraw), WindowCommand::Continue);
    let focus: WindowSignal<u32, f64> = WindowSignal::Focused(true);
    assert_eq!(window_command(true, &focus), WindowCommand::Continue);
}

#[test]
fn renderer_state_creates_renderer_once() {
    let mut state: RendererState<&str> = RendererState::new();
    assert!(state.needs_renderer());
    assert!(state.renderer().is_none());
    let redraw: WindowSignal<u32, f64> = WindowSignal::RedrawRequested;
    assert_eq!(state.window_event(&redraw), WindowCommand::Continue);
    state.install_renderer("first");
    state.install_renderer("second");
    assert_eq!(state.renderer(), Some(&"first"));
    assert!(!state.needs_renderer());
    assert_eq!(state.window_event(&redraw), WindowCommand::Render);
    let close: WindowSignal<u32, f64> = WindowSignal::CloseRequested;
    assert_eq!(state.window_event(&close), WindowCommand::Exit);
    let other: WindowSignal<u32, f64> = WindowSignal::Focused(true);
    assert_eq!(state.window_event(&other), WindowCommand::Continue);
}

#[test]
fn fresh_game_state_is_empty() {
    let state: GameState<u8> = GameState::default();
    assert!(state.renderer.is_none());
    assert!(!state.is_focused);
}
