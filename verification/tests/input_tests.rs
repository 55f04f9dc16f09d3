use game_renderer::input::{
    device_input_event, window_input_event, DeviceSignal, InputEvent, InputEventHandler,
    InputState, KeyState, WindowSignal,
};

fn describe(event: &InputEvent<u32, f64>) -> String {
    match event {
        InputEvent::FocusChange(f) => format!("focus {f}"),
        InputEvent::KeyboardKeyPress { key, state } => format!("key {key} {state:?}"),
        InputEvent::MouseMovement { x, y } => format!("mouse {x} {y}"),
        InputEvent::CursorMovement { x, y } => format!("cursor {x} {y}"),
    }
}

#[derive(Clone, Copy)]
struct Logger {
    id: u8,
    fail: bool,
    spawn: bool,
}

impl InputEventHandler for Logger {
    type GameState = Vec<String>;
    type Key = u32;
    type Coord = f64;
    type Error = String;

    fn handle(
        &self,
        event: &InputEvent<u32, f64>,
        log: &mut Vec<String>,
        input: &mut InputState<Self>,
    ) -> Result<(), String> {
        log.push(format!("{}: {}", self.id, describe(event)));
        if self.spawn {
            input.register_handler(Logger { id: 99, fail: false, spawn: false });
        }
        if self.fail {
            Err(format!("handler {} failed", self.id))
        } else {
            Ok(())
        }
    }
}

fn logger(id: u8) -> Logger {
    Logger { id, fail: false, spawn: false }
}

#[test]
fn window_signals_become_input_events() {
    let e = window_input_event::<u32, f64>(WindowSignal::Focused(true));
    assert!(matches!(e, Some(InputEvent::FocusChange(true))));
    let e = window_input_event::<u32, f64>(WindowSignal::KeyboardInput { key: 17, state: KeyState::Pressed });
    assert!(matches!(e, Some(InputEvent::KeyboardKeyPress { key: 17, state: KeyState::Pressed })));
    let e = window_input_event::<u32, f64>(WindowSignal::CursorMoved { x: 3.5, y: -2.0 });
    assert!(matches!(e, Some(InputEvent::CursorMovement { x, y }) if x == 3.5 && y == -2.0));
}

#[test]
fn other_window_signals_produce_no_input_event() {
    assert!(window_input_event::<u32, f64>(WindowSignal::CloseRequested).is_none());
    assert!(window_input_event::<u32, f64>(WindowSignal::RedrawRequested).is_none());
    assert!(window_input_event::<u32, f64>(WindowSignal::Other).is_none());
}

#[test]
fn mouse_motion_passes_only_while_focused() {
    let e = device_input_event::<u32, f64>(true, DeviceSignal::MouseMotion { x: 1.0, y: 2.0 });
    assert!(matches!(e, Some(InputEvent::MouseMovement { x, y }) if x == 1.0 && y == 2.0));
    assert!(device_input_event::<u32, f64>(false, DeviceSignal::MouseMotion { x: 1.0, y: 2.0 }).is_none());
    assert!(device_input_event::<u32, f64>(true, DeviceSignal::Other).is_none());
}

#[test]
fn handlers_receive_events_in_registration_order() {
    let mut input = InputState::new();
    input.register_handler(logger(1));
    input.register_handler(logger(2));
    assert_eq!(input.handler_count(), 2);
    let mut log = Vec::new();
    let failures = input.on_window_event(&mut log, WindowSignal::Focused(false));
    assert!(failures.is_empty());
    assert_eq!(log, vec!["1: focus false".to_string(), "2: focus false".to_string()]);
}

#[test]
fn failing_handlers_are_reported_and_others_still_run() {
    let mut input = InputState::new();
    input.register_handler(Logger { id: 1, fail: true, spawn: false });
    input.register_handler(logger(2));
    input.register_handler(Logger { id: 3, fail: true, spawn: false });
    let mut log = Vec::new();
    let failures = input.on_device_event(&mut log, true, &DeviceSignal::MouseMotion { x: 0.5, y: 0.25 });
    assert_eq!(log.len(), 3);
    let reported: Vec<(usize, String)> =
        failures.into_iter().map(|f| (f.handler_index, f.error)).collect();
    assert_eq!(
        reported,
        vec![(0, "handler 1 failed".to_string()), (2, "handler 3 failed".to_string())]
    );
}

#[test]
fn ignored_signals_reach_no_handler() {
    let mut input = InputState::new();
    input.register_handler(logger(1));
    let mut log = Vec::new();
    assert!(input.on_window_event(&mut log, WindowSignal::Other).is_empty());
    assert!(input.on_window_event(&mut log, WindowSignal::RedrawRequested).is_empty());
    assert!(input
        .on_device_event(&mut log, false, &DeviceSignal::MouseMotion { x: 1.0, y: 1.0 })
        .is_empty());
    assert!(input.on_device_event(&mut log, true, &DeviceSignal::Other).is_empty());
    assert!(log.is_empty());
}

#[test]
fn handlers_registered_during_delivery_wait_for_the_next_event() {
    let mut input = InputState::new();
    input.register_handler(Logger { id: 1, fail: false, spawn: true });
    let mut log = Vec::new();
    input.emit_event(&mut log, InputEvent::FocusChange(true));
    assert_eq!(log, vec!["1: focus true".to_string()]);
    assert_eq!(input.handler_count(), 2);
    log.clear();
    input.emit_event(&mut log, InputEvent::CursorMovement { x: 1.0, y: 2.0 });
    assert_eq!(log, vec!["1: cursor 1 2".to_string(), "99: cursor 1 2".to_string()]);
}

#[test]
fn end_frame_keeps_handlers() {
    let mut input: InputState<Logger> = InputState::default();
    input.register_handler(logger(4));
    input.end_frame();
    assert_eq!(input.handler_count(), 1);
}

#[test]
fn no_handlers_means_no_failures() {
    let mut input: InputState<Logger> = InputState::new();
    let mut log = Vec::new();
    let failures = input.on_window_event(
        &mut log,
        WindowSignal::KeyboardInput { key: 1, state: KeyState::Released },
    );
    assert!(failures.is_empty());
    assert!(log.is_empty());
}
