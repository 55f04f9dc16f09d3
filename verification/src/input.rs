//! Input events, how window and device signals become input events, and the
//! registry of input handlers that receive them.

use vstd::prelude::*;

verus! {

/// State of a keyboard key.
#[derive(Clone, Copy, Debug, PartialEq, Eq, Structural)]
pub enum KeyState {
    /// The key is pressed down.
    Pressed,
    /// The key is released.
    Released,
}

/// Describes a single unique input event.
///
/// `K` identifies a physical keyboard key and `C` is the coordinate type of
/// pointer positions and movements.
#[derive(Clone, Copy, Debug, PartialEq)]
pub enum InputEvent<K, C> {
    /// Indicates that focus of the outer window has changed. The boolean
    /// tells whether the window is now active (focused) or not.
    FocusChange(bool),
    /// Indicates that a key of the keyboard is pressed or released.
    KeyboardKeyPress {
        /// Physical keyboard key that was pressed.
        ///
        /// This value already includes all modifiers and is
        /// language-independent.
        key: K,
        /// State of the key.
        state: KeyState,
    },
    /// Represents mouse movement inside the window.
    ///
    /// Coordinates are deltas to the previous location.
    MouseMovement {
        /// Position delta along the X axis.
        x: C,
        /// Position delta along the Y axis.
        y: C,
    },
    /// Represents cursor movement inside the window.
    ///
    /// Coordinates are absolute coordinates of the cursor's position in the
    /// window.
    CursorMovement {
        /// Absolute cursor coordinate on the X axis.
        x: C,
        /// Absolute cursor coordinate on the Y axis.
        y: C,
    },
}

/// What the window reports to the application.
#[derive(Clone, Copy, Debug)]
pub enum WindowSignal<K, C> {
    /// The user asked to close the window.
    CloseRequested,
    /// The window needs to be drawn again.
    RedrawRequested,
    /// The window gained (`true`) or lost (`false`) focus.
    Focused(bool),
    /// A keyboard key changed state.
    KeyboardInput {
        /// Physical keyboard key.
        key: K,
        /// New state of the key.
        state: KeyState,
    },
    /// The cursor moved to a new position inside the window.
    CursorMoved {
        /// Absolute cursor coordinate on the X axis.
        x: C,
        /// Absolute cursor coordinate on the Y axis.
        y: C,
    },
    /// Any other window event, which input handling ignores.
    Other,
}

/// What an input device reports to the application.
#[derive(Clone, Copy, Debug)]
pub enum DeviceSignal<C> {
    /// The mouse moved by the given deltas.
    MouseMotion {
        /// Movement along the X axis.
        x: C,
        /// Movement along the Y axis.
        y: C,
    },
    /// Any other device event, which input handling ignores.
    Other,
}

/// The input event that a window signal produces, if any: focus changes,
/// keyboard input and cursor movement are passed on, everything else is not.
pub open spec fn spec_window_input_event<K, C>(signal: WindowSignal<K, C>) -> Option<
    InputEvent<K, C>,
> {
    match signal {
        WindowSignal::Focused(focused) => Some(InputEvent::FocusChange(focused)),
        WindowSignal::KeyboardInput { key, state } => Some(
            InputEvent::KeyboardKeyPress { key, state },
        ),
        WindowSignal::CursorMoved { x, y } => Some(InputEvent::CursorMovement { x, y }),
        _ => None,
    }
}

/// The input event that a device signal produces, if any: mouse motion is
/// passed on while the window is focused, everything else is not.
pub open spec fn spec_device_input_event<K, C>(is_focused: bool, signal: DeviceSignal<C>) -> Option<
    InputEvent<K, C>,
> {
    if !is_focused {
        None
    } else {
        match signal {
            DeviceSignal::MouseMotion { x, y } => Some(InputEvent::MouseMovement { x, y }),
            DeviceSignal::Other => None,
        }
    }
}

/// A key signal reaches the handlers as a key event for the same key in the
/// same state: a release is reported as a release, a press as a press.
pub proof fn lemma_key_signal_keeps_key_and_state<K, C>(key: K, state: KeyState)
    ensures
        spec_window_input_event::<K, C>(WindowSignal::KeyboardInput { key, state }) == Some(
            InputEvent::<K, C>::KeyboardKeyPress { key, state },
        ),
{
}

/// Every key event that a window signal produces repeats the key and state
/// of a key signal, and only key signals produce key events.
pub proof fn lemma_key_events_come_from_key_signals<K, C>(signal: WindowSignal<K, C>)
    ensures
        spec_window_input_event(signal) matches Some(InputEvent::KeyboardKeyPress { key, state })
            ==> (signal == (WindowSignal::<K, C>::KeyboardInput { key, state })),
        signal matches WindowSignal::KeyboardInput { key, state } ==> (spec_window_input_event(signal)
            == Some((InputEvent::<K, C>::KeyboardKeyPress { key, state }))),
{
}

/// A focus signal reaches the handlers as a focus event with the same value,
/// and cursor movement as cursor movement to the same position.
pub proof fn lemma_focus_and_cursor_signals_keep_their_values<K, C>(focused: bool, x: C, y: C)
    ensures
        spec_window_input_event::<K, C>(WindowSignal::Focused(focused)) == Some(
            InputEvent::<K, C>::FocusChange(focused),
        ),
        spec_window_input_event::<K, C>(WindowSignal::CursorMoved { x, y }) == Some(
            InputEvent::<K, C>::CursorMovement { x, y },
        ),
{
}

/// Closing, redrawing and other window signals reach no handler.
pub proof fn lemma_non_input_signals_produce_nothing<K, C>()
    ensures
        spec_window_input_event::<K, C>(WindowSignal::CloseRequested) is None,
        spec_window_input_event::<K, C>(WindowSignal::RedrawRequested) is None,
        spec_window_input_event::<K, C>(WindowSignal::Other) is None,
{
}

/// Mouse motion reaches the handlers with its deltas while the window is
/// focused, and not at all while it is not.
pub proof fn lemma_mouse_motion_needs_focus<K, C>(focused: bool, x: C, y: C)
    ensures
        focused ==> spec_device_input_event::<K, C>(focused, DeviceSignal::MouseMotion { x, y })
            == Some(InputEvent::<K, C>::MouseMovement { x, y }),
        !focused ==> spec_device_input_event::<K, C>(focused, DeviceSignal::MouseMotion { x, y })
            is None,
{
}

/// Turns a window signal into the input event it produces, if any.
pub fn window_input_event<K, C>(signal: WindowSignal<K, C>) -> (event: Option<InputEvent<K, C>>)
    ensures
        event == spec_window_input_event(signal),
{
    match signal {
        WindowSignal::Focused(focused) => Some(InputEvent::FocusChange(focused)),
        WindowSignal::KeyboardInput { key, state } => Some(
            InputEvent::KeyboardKeyPress { key, state },
        ),
        WindowSignal::CursorMoved { x, y } => Some(InputEvent::CursorMovement { x, y }),
        _ => None,
    }
}

/// Turns a device signal into the input event it produces, if any.
pub fn device_input_event<K, C>(is_focused: bool, signal: DeviceSignal<C>) -> (event: Option<
    InputEvent<K, C>,
>)
    ensures
        event == spec_device_input_event::<K, C>(is_focused, signal),
{
    if !is_focused {
        return None;
    }
    match signal {
        DeviceSignal::MouseMotion { x, y } => Some(InputEvent::MouseMovement { x, y }),
        DeviceSignal::Other => None,
    }
}

/// A handler of input events, registered with an [`InputState`].
///
/// The handler receives all events that input state changes produce, and it
/// is up to the handler to pick the events it is interested in. Alongside
/// the event it receives the game state and the input state itself.
///
/// Handlers are written by the library's users. Each kind of handler may
/// describe one call of [`InputEventHandler::handle`] by its own relation
/// [`InputEventHandler::handles`], and `handle` promises to act within it.
/// A handler that gives no description keeps the default, which allows
/// anything, so its promise holds of any code. A description that a handler
/// type does give is believed, not proved, where that type is written
/// outside this library.
pub trait InputEventHandler: Sized + Copy {
    /// The game state that handlers act on.
    type GameState;
    /// Identifies a physical keyboard key.
    type Key: Copy;
    /// Coordinate type of pointer positions and movements.
    type Coord: Copy;
    /// What a failed handler reports.
    type Error;

    /// What one call of `handle` may do: handling `event`, it turns the game
    /// state `game_before` and the handler list `handlers_before` into
    /// `game_after` and `handlers_after`, and returns `result`.
    open spec fn handles(
        &self,
        event: InputEvent<Self::Key, Self::Coord>,
        game_before: Self::GameState,
        handlers_before: Seq<Self>,
        game_after: Self::GameState,
        handlers_after: Seq<Self>,
        result: Result<(), Self::Error>,
    ) -> bool {
        true
    }

    /// Handles a single input event.
    fn handle(
        &self,
        event: &InputEvent<Self::Key, Self::Coord>,
        game_state: &mut Self::GameState,
        input_state: &mut InputState<Self>,
    ) -> (result: Result<(), Self::Error>)
        ensures
            self.handles(
                *event,
                *old(game_state),
                old(input_state)@,
                *final(game_state),
                final(input_state)@,
                result,
            ),
    ;
}

/// The record of delivering one event: the game states and handler lists
/// before the first call and after each call, and each call's result.
pub type DeliveryTrace<H> = (
    Seq<<H as InputEventHandler>::GameState>,
    Seq<Seq<H>>,
    Seq<Result<(), <H as InputEventHandler>::Error>>,
);

/// The failures that a run of handler results reports: one per error, with
/// the position of the handler that returned it, in order.
pub open spec fn failure_list<E>(results: Seq<Result<(), E>>) -> Seq<HandlerFailure<E>>
    decreases results.len(),
{
    if results.len() == 0 {
        Seq::empty()
    } else {
        let earlier = failure_list(results.drop_last());
        match results.last() {
            Ok(()) => earlier,
            Err(error) => earlier.push(
                HandlerFailure { handler_index: (results.len() - 1) as usize, error },
            ),
        }
    }
}

/// `trace` records the delivery of `event`: starting from the game state
/// `game_before` and the handlers `handlers_before`, the handler at position
/// `k` of the list as it stands after `k` calls is called as call number `k`
/// and acts as it describes, once for every handler registered at the start,
/// stopping early only where fewer than `k + 1` handlers are left. The game
/// state and handlers end as `game_after` and `handlers_after`, and
/// `failures` are the errors of the calls.
pub open spec fn delivered<H: InputEventHandler>(
    event: InputEvent<H::Key, H::Coord>,
    game_before: H::GameState,
    handlers_before: Seq<H>,
    game_after: H::GameState,
    handlers_after: Seq<H>,
    failures: Seq<HandlerFailure<H::Error>>,
    trace: DeliveryTrace<H>,
) -> bool {
    let (games, lists, results) = trace;
    let n = results.len();
    &&& games.len() == n + 1
    &&& lists.len() == n + 1
    &&& n <= handlers_before.len()
    &&& games[0] == game_before
    &&& lists[0] == handlers_before
    &&& games[n as int] == game_after
    &&& lists[n as int] == handlers_after
    &&& forall|k: int|
        0 <= k < n ==> k < lists[k].len() && (#[trigger] lists[k][k]).handles(
            event,
            games[k],
            lists[k],
            games[k + 1],
            lists[k + 1],
            results[k],
        )
    &&& n < handlers_before.len() ==> lists[n as int].len() <= n
    &&& failures == failure_list(results)
}

/// A handler that failed on an event, and what it reported.
pub struct HandlerFailure<E> {
    /// Position of the handler in registration order.
    pub handler_index: usize,
    /// The error the handler returned.
    pub error: E,
}

/// Holds the current state of all user inputs (keyboard, mouse): the input
/// handlers, in the order in which they were registered.
pub struct InputState<H> {
    handlers: Vec<H>,
}

impl<H> View for InputState<H> {
    type V = Seq<H>;

    /// The registered handlers, in registration order.
    closed spec fn view(&self) -> Seq<H> {
        self.handlers@
    }
}

impl<H: InputEventHandler> Default for InputState<H> {
    fn default() -> (s: Self)
        ensures
            s@ == Seq::<H>::empty(),
    {
        InputState::new()
    }
}

/// The failures of one round of event delivery name handlers in increasing
/// order, each of them among the first `count` handlers.
pub open spec fn failures_in_order<E>(failures: Seq<HandlerFailure<E>>, count: nat) -> bool {
    &&& forall|k: int| 0 <= k < failures.len() ==> (#[trigger] failures[k]).handler_index < count
    &&& forall|k: int, l: int|
        0 <= k < l < failures.len() ==> (#[trigger] failures[k]).handler_index
            < (#[trigger] failures[l]).handler_index
}

impl<H: InputEventHandler> InputState<H> {
    /// Creates an input state with no handlers.
    pub fn new() -> (s: Self)
        ensures
            s@ == Seq::<H>::empty(),
    {
        InputState { handlers: Vec::new() }
    }

    /// Registers a new input event handler, after all earlier ones.
    pub fn register_handler(&mut self, handler: H)
        ensures
            final(self)@ == old(self)@.push(handler),
    {
        self.handlers.push(handler);
    }

    /// The number of registered handlers.
    pub fn handler_count(&self) -> (count: usize)
        ensures
            count == self@.len(),
    {
        self.handlers.len()
    }

    /// Cleans up the current state, marking the end of the frame.
    ///
    /// This method should only be called by the state controller once per
    /// frame. There is nothing to clean up yet, so nothing changes.
    pub fn end_frame(&mut self)
        ensures
            final(self)@ == old(self)@,
    {
    }

    /// Delivers `event` to the registered handlers in registration order and
    /// reports the handlers that failed.
    ///
    /// Handlers may register further handlers while the event is delivered;
    /// those do not receive it. Should a handler leave fewer handlers behind
    /// than there were, delivery stops there.
    pub fn emit_event(
        &mut self,
        game_state: &mut H::GameState,
        event: InputEvent<H::Key, H::Coord>,
    ) -> (failures: Vec<HandlerFailure<H::Error>>)
        ensures
            failures_in_order(failures@, old(self)@.len()),
            old(self)@.len() == 0 ==> failures@.len() == 0 && final(self)@ == old(self)@
                && *final(game_state) == *old(game_state),
            exists|trace: DeliveryTrace<H>|
                #[trigger] delivered(
                    event,
                    *old(game_state),
                    old(self)@,
                    *final(game_state),
                    final(self)@,
                    failures@,
                    trace,
                ),
    {
        let mut failures: Vec<HandlerFailure<H::Error>> = Vec::new();
        let count = self.handlers.len();
        let mut i: usize = 0;
        let ghost mut games: Seq<H::GameState> = seq![*game_state];
        let ghost mut lists: Seq<Seq<H>> = seq![self@];
        let ghost mut results: Seq<Result<(), H::Error>> = Seq::empty();
        while i < count && i < self.handlers.len()
            invariant
                i <= count,
                count == old(self)@.len(),
                failures_in_order(failures@, i as nat),
                count == 0 ==> *game_state == *old(game_state) && self@ == old(self)@
                    && failures@.len() == 0,
                results.len() == i,
                games.len() == i + 1,
                lists.len() == i + 1,
                games[0] == *old(game_state),
                lists[0] == old(self)@,
                games[i as int] == *game_state,
                lists[i as int] == self@,
                forall|k: int| 0 <= k < i ==> k < (#[trigger] lists[k]).len(),
                forall|k: int|
                    0 <= k < i ==> (#[trigger] lists[k][k]).handles(
                        event,
                        games[k],
                        lists[k],
                        games[k + 1],
                        lists[k + 1],
                        results[k],
                    ),
                failures@ == failure_list(results),
            decreases count - i,
        {
            let handler = self.handlers[i];
            let ghost handlers_before = self@;
            let ghost game_before = *game_state;
            let result = handler.handle(&event, game_state, self);
            let ghost r = result;
            if let Err(error) = result {
                failures.push(HandlerFailure { handler_index: i, error });
            }
            let ghost old_games = games;
            let ghost old_lists = lists;
            let ghost old_results = results;
            proof {
                games = games.push(*game_state);
                lists = lists.push(self@);
                results = results.push(r);
                assert(results.drop_last() =~= old_results);
            }
            i = i + 1;
            assert forall|k: int|
                0 <= k < i implies k < lists[k].len() && (#[trigger] lists[k][k]).handles(
                event,
                games[k],
                lists[k],
                games[k + 1],
                lists[k + 1],
                results[k],
            ) by {
                if k < i - 1 {
                    assert(lists[k] == old_lists[k]);
                    assert(games[k] == old_games[k]);
                    assert(results[k] == old_results[k]);
                    assert(lists[k + 1] == old_lists[k + 1]);
                    assert(games[k + 1] == old_games[k + 1]);
                    assert(lists[k][k] == old_lists[k][k]);
                    assert(k < old_lists[k].len() && old_lists[k][k].handles(
                        event,
                        old_games[k],
                        old_lists[k],
                        old_games[k + 1],
                        old_lists[k + 1],
                        old_results[k],
                    ));
                } else {
                    assert(lists[k] == handlers_before);
                    assert(games[k] == game_before);
                    assert(handler == handlers_before[k]);
                    assert(games[k + 1] == *game_state);
                    assert(lists[k + 1] == self@);
                    assert(results[k] == r);
                    assert(lists[k][k] == handler);
                }
            }
        }
        proof {
            let trace: DeliveryTrace<H> = (games, lists, results);
            assert(delivered(
                event,
                *old(game_state),
                old(self)@,
                *game_state,
                self@,
                failures@,
                trace,
            ));
        }
        failures
    }

    /// Processes the given window signal, delivering the input event it
    /// produces (if any) to the handlers.
    pub fn on_window_event(
        &mut self,
        game_state: &mut H::GameState,
        signal: WindowSignal<H::Key, H::Coord>,
    ) -> (failures: Vec<HandlerFailure<H::Error>>)
        ensures
            failures_in_order(failures@, old(self)@.len()),
            (spec_window_input_event(signal) is None || old(self)@.len() == 0) ==> failures@.len()
                == 0 && final(self)@ == old(self)@ && *final(game_state) == *old(game_state),
            spec_window_input_event(signal) matches Some(event) ==> exists|trace: DeliveryTrace<H>|
                #[trigger] delivered(
                    event,
                    *old(game_state),
                    old(self)@,
                    *final(game_state),
                    final(self)@,
                    failures@,
                    trace,
                ),
    {
        match window_input_event(signal) {
            Some(event) => self.emit_event(game_state, event),
            None => Vec::new(),
        }
    }

    /// Processes the given device signal, delivering the input event it
    /// produces (if any) to the handlers. Nothing is delivered while the
    /// window is not focused.
    pub fn on_device_event(
        &mut self,
        game_state: &mut H::GameState,
        is_focused: bool,
        signal: &DeviceSignal<H::Coord>,
    ) -> (failures: Vec<HandlerFailure<H::Error>>)
        ensures
            failures_in_order(failures@, old(self)@.len()),
            (spec_device_input_event::<H::Key, H::Coord>(is_focused, *signal) is None || old(self)@.len()
                == 0) ==> failures@.len() == 0 && final(self)@ == old(self)@ && *final(game_state)
                == *old(game_state),
            spec_device_input_event::<H::Key, H::Coord>(is_focused, *signal) matches Some(event)
                ==> exists|trace: DeliveryTrace<H>|
                #[trigger] delivered(
                    event,
                    *old(game_state),
                    old(self)@,
                    *final(game_state),
                    final(self)@,
                    failures@,
                    trace,
                ),
    {
        match device_input_event(is_focused, *signal) {
            Some(event) => self.emit_event(game_state, event),
            None => Vec::new(),
        }
    }
}

} // verus!
