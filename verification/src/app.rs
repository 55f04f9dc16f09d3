//! The game application's state and the decisions it takes on window and
//! device events.

use vstd::prelude::*;

use crate::input::{
    DeliveryTrace, DeviceSignal, HandlerFailure, InputEventHandler, InputState, WindowSignal,
    delivered, failures_in_order, spec_device_input_event, spec_window_input_event,
};

verus! {

/// Holds the current state of the game.
///
/// `R` is the game renderer.
pub struct GameState<R> {
    /// Instance of the game renderer.
    ///
    /// This field is initialized when the window is first created, and can
    /// be mutated afterwards, but it is not initialized more than once.
    pub renderer: Option<R>,
    /// Indicates whether the game's window is currently focused or not.
    pub is_focused: bool,
}

impl<R> GameState<R> {
    /// Creates a state with no renderer and an unfocused window.
    pub fn new() -> (s: Self)
        ensures
            s.renderer is None,
            !s.is_focused,
    {
        GameState { renderer: None, is_focused: false }
    }
}

impl<R> Default for GameState<R> {
    fn default() -> (s: Self)
        ensures
            s.renderer is None,
            !s.is_focused,
    {
        GameState::new()
    }
}

/// What the application has to do after a window event, besides input
/// handling.
#[derive(Clone, Copy, Debug, PartialEq, Eq, Structural)]
pub enum WindowCommand {
    /// Leave the event loop: the window was asked to close.
    Exit,
    /// Draw a frame with the renderer.
    Render,
    /// Nothing beyond input handling.
    Continue,
}

/// The command that a window signal calls for: closing exits, a redraw
/// renders when there is a renderer, and everything else needs nothing.
pub open spec fn spec_window_command<K, C>(has_renderer: bool, signal: WindowSignal<K, C>) -> WindowCommand {
    match signal {
        WindowSignal::CloseRequested => WindowCommand::Exit,
        WindowSignal::RedrawRequested => if has_renderer {
            WindowCommand::Render
        } else {
            WindowCommand::Continue
        },
        _ => WindowCommand::Continue,
    }
}

/// The game state after the application itself has taken a window signal
/// into account (before input handlers see it): a focus change is recorded,
/// nothing else changes.
pub open spec fn spec_record_focus<R, K, C>(state: GameState<R>, signal: WindowSignal<K, C>) -> GameState<R> {
    match signal {
        WindowSignal::Focused(focused) => GameState { is_focused: focused, ..state },
        _ => state,
    }
}

/// The game state after a renderer is offered to it: the renderer is kept
/// only when there is none yet.
pub open spec fn spec_install_renderer<R>(state: GameState<R>, renderer: R) -> GameState<R> {
    if state.renderer is Some {
        state
    } else {
        GameState { renderer: Some(renderer), ..state }
    }
}

/// Only a close request exits; a redraw renders exactly when there is a
/// renderer; every other signal, keyboard and focus included, continues.
pub proof fn lemma_window_command_cases<K, C>(has_renderer: bool, signal: WindowSignal<K, C>)
    ensures
        (spec_window_command(has_renderer, signal) == WindowCommand::Exit) <==> signal is CloseRequested,
        (spec_window_command(has_renderer, signal) == WindowCommand::Render) <==> (signal is RedrawRequested
            && has_renderer),
        (spec_window_command(has_renderer, signal) == WindowCommand::Continue) <==> (!(signal is CloseRequested)
            && !(signal is RedrawRequested && has_renderer)),
{
}

/// A focus signal sets the recorded focus to the signal's value, whatever the
/// focus was before, and leaves the renderer alone; any other signal leaves
/// the state as it was.
pub proof fn lemma_focus_recorded<R, K, C>(state: GameState<R>, focused: bool, signal: WindowSignal<K, C>)
    ensures
        spec_record_focus(state, WindowSignal::<K, C>::Focused(focused)).is_focused == focused,
        spec_record_focus(state, WindowSignal::<K, C>::Focused(focused)).renderer == state.renderer,
        !(signal is Focused) ==> spec_record_focus(state, signal) == state,
{
}

/// Decides the command for a window signal, given whether a renderer exists.
pub fn window_command<K, C>(has_renderer: bool, signal: &WindowSignal<K, C>) -> (command: WindowCommand)
    ensures
        command == spec_window_command(has_renderer, *signal),
{
    match signal {
        WindowSignal::CloseRequested => WindowCommand::Exit,
        WindowSignal::RedrawRequested => if has_renderer {
            WindowCommand::Render
        } else {
            WindowCommand::Continue
        },
        _ => WindowCommand::Continue,
    }
}

/// A renderer is offered at most once to take effect: offering a second one
/// changes nothing, so the renderer is never initialized twice.
pub proof fn lemma_renderer_installed_once<R>(state: GameState<R>, first: R, second: R)
    ensures
        spec_install_renderer(spec_install_renderer(state, first), second) == spec_install_renderer(
            state,
            first,
        ),
        state.renderer is None ==> spec_install_renderer(
            spec_install_renderer(state, first),
            second,
        ).renderer == Some(first),
{
}

/// Holds the central controller for the game's application: the game state
/// and the input state with its handlers.
pub struct GameApp<R, H> {
    state: GameState<R>,
    input_state: InputState<H>,
}

impl<R, H: InputEventHandler<GameState = GameState<R>>> GameApp<R, H> {
    /// The current game state.
    pub closed spec fn game_state(self) -> GameState<R> {
        self.state
    }

    /// The registered input handlers, in registration order.
    pub closed spec fn handlers(self) -> Seq<H> {
        self.input_state@
    }

    /// Creates an application with no renderer, an unfocused window and no
    /// input handlers.
    pub fn new() -> (app: Self)
        ensures
            app.game_state().renderer is None,
            !app.game_state().is_focused,
            app.handlers() == Seq::<H>::empty(),
    {
        GameApp { state: GameState::new(), input_state: InputState::new() }
    }

    /// The current game state.
    pub fn state(&self) -> (state: &GameState<R>)
        ensures
            *state == self.game_state(),
    {
        &self.state
    }

    /// Registers a new input handler for the underlying input state.
    pub fn register_input_handler(&mut self, handler: H)
        ensures
            final(self).handlers() == old(self).handlers().push(handler),
            final(self).game_state() == old(self).game_state(),
    {
        self.input_state.register_handler(handler);
    }

    /// Whether the application still has to create its window and renderer
    /// when it is resumed.
    pub fn needs_renderer(&self) -> (needed: bool)
        ensures
            needed == (self.game_state().renderer is None),
    {
        self.state.renderer.is_none()
    }

    /// Offers a freshly created renderer; it is kept only when there is no
    /// renderer yet.
    pub fn install_renderer(&mut self, renderer: R)
        ensures
            final(self).game_state() == spec_install_renderer(old(self).game_state(), renderer),
            final(self).handlers() == old(self).handlers(),
    {
        if self.state.renderer.is_none() {
            self.state.renderer = Some(renderer);
        }
    }

    /// Handles a window signal: records focus changes, passes input events to
    /// the handlers, and returns the command the signal calls for, along
    /// with the handlers that failed.
    ///
    /// Input handlers may change the game state; when no handler runs, the
    /// state afterwards is the recorded one.
    pub fn window_event(&mut self, signal: WindowSignal<H::Key, H::Coord>) -> (result: (
        WindowCommand,
        Vec<HandlerFailure<H::Error>>,
    ))
        ensures
            result.0 == spec_window_command(old(self).game_state().renderer is Some, signal),
            failures_in_order(result.1@, old(self).handlers().len()),
            (spec_window_input_event(signal) is None || old(self).handlers().len() == 0) ==> {
                &&& final(self).game_state() == spec_record_focus(old(self).game_state(), signal)
                &&& final(self).handlers() == old(self).handlers()
                &&& result.1@.len() == 0
            },
            spec_window_input_event(signal) matches Some(event) ==> exists|trace: DeliveryTrace<H>|
                #[trigger] delivered(
                    event,
                    spec_record_focus(old(self).game_state(), signal),
                    old(self).handlers(),
                    final(self).game_state(),
                    final(self).handlers(),
                    result.1@,
                    trace,
                ),
    {
        let command = window_command(self.state.renderer.is_some(), &signal);
        let ghost handlers_before = self.input_state@;
        let ghost recorded = spec_record_focus(self.state, signal);
        let failures = match signal {
            WindowSignal::CloseRequested => Vec::new(),
            WindowSignal::RedrawRequested => Vec::new(),
            WindowSignal::Focused(focused) => {
                self.state.is_focused = focused;
                self.input_state.on_window_event(&mut self.state, signal)
            },
            _ => self.input_state.on_window_event(&mut self.state, signal),
        };
        proof {
            assert(recorded == spec_record_focus(old(self).game_state(), signal));
            assert(handlers_before == old(self).handlers());
            if let Some(event) = spec_window_input_event(signal) {
                let trace = choose|trace: DeliveryTrace<H>|
                    delivered(
                        event,
                        recorded,
                        handlers_before,
                        self.state,
                        self.input_state@,
                        failures@,
                        trace,
                    );
                assert(delivered(
                    event,
                    recorded,
                    handlers_before,
                    self.game_state(),
                    self.handlers(),
                    failures@,
                    trace,
                ));
            }
        }
        let result = (command, failures);
        assert(result.1@ == failures@);
        result
    }

    /// Handles a device signal, passing the input event it produces to the
    /// handlers while the window is focused; returns the handlers that
    /// failed.
    pub fn device_event(&mut self, signal: &DeviceSignal<H::Coord>) -> (failures: Vec<
        HandlerFailure<H::Error>,
    >)
        ensures
            failures_in_order(failures@, old(self).handlers().len()),
            (spec_device_input_event::<H::Key, H::Coord>(old(self).game_state().is_focused, *signal) is None
                || old(self).handlers().len() == 0) ==> {
                &&& final(self).game_state() == old(self).game_state()
                &&& final(self).handlers() == old(self).handlers()
                &&& failures@.len() == 0
            },
            spec_device_input_event::<H::Key, H::Coord>(old(self).game_state().is_focused, *signal)
                matches Some(event) ==> exists|trace: DeliveryTrace<H>|
                #[trigger] delivered(
                    event,
                    old(self).game_state(),
                    old(self).handlers(),
                    final(self).game_state(),
                    final(self).handlers(),
                    failures@,
                    trace,
                ),
    {
        let is_focused = self.state.is_focused;
        let failures = self.input_state.on_device_event(&mut self.state, is_focused, signal);
        proof {
            if let Some(event) = spec_device_input_event::<H::Key, H::Coord>(is_focused, *signal) {
                let trace = choose|trace: DeliveryTrace<H>|
                    delivered(
                        event,
                        old(self).state,
                        old(self).input_state@,
                        self.state,
                        self.input_state@,
                        failures@,
                        trace,
                    );
                assert(delivered(
                    event,
                    old(self).game_state(),
                    old(self).handlers(),
                    self.game_state(),
                    self.handlers(),
                    failures@,
                    trace,
                ));
            }
        }
        failures
    }
}

impl<R, H: InputEventHandler<GameState = GameState<R>>> Default for GameApp<R, H> {
    fn default() -> (app: Self)
        ensures
            app.game_state().renderer is None,
            !app.game_state().is_focused,
            app.handlers() == Seq::<H>::empty(),
    {
        GameApp::new()
    }
}

} // verus!
