//! A minimal game state that only owns the renderer: it creates the
//! renderer once and decides what window events call for.

use vstd::prelude::*;

use crate::app::{WindowCommand, spec_window_command, window_command};
use crate::input::WindowSignal;

verus! {

/// Holds the game renderer `R`, once it exists.
pub struct GameState<R> {
    renderer: Option<R>,
}

impl<R> GameState<R> {
    /// The renderer, once it exists.
    pub closed spec fn spec_renderer(self) -> Option<R> {
        self.renderer
    }

    /// Creates a state with no renderer.
    pub fn new() -> (s: Self)
        ensures
            s.spec_renderer() is None,
    {
        GameState { renderer: None }
    }

    /// The renderer, once it exists.
    pub fn renderer(&self) -> (r: Option<&R>)
        ensures
            r == match self.spec_renderer() {
                Some(x) => Some(&x),
                None => None,
            },
    {
        self.renderer.as_ref()
    }

    /// Whether the window and renderer still have to be created when the
    /// application is resumed.
    pub fn needs_renderer(&self) -> (needed: bool)
        ensures
            needed == (self.spec_renderer() is None),
    {
        self.renderer.is_none()
    }

    /// Offers a freshly created renderer; it is kept only when there is no
    /// renderer yet, so the renderer is created at most once.
    pub fn install_renderer(&mut self, renderer: R)
        ensures
            final(self).spec_renderer() == (if old(self).spec_renderer() is Some {
                old(self).spec_renderer()
            } else {
                Some(renderer)
            }),
    {
        if self.renderer.is_none() {
            self.renderer = Some(renderer);
        }
    }

    /// The command a window signal calls for: closing exits, a redraw renders
    /// when there is a renderer, everything else is ignored.
    pub fn window_event<K, C>(&self, signal: &WindowSignal<K, C>) -> (command: WindowCommand)
        ensures
            command == spec_window_command(self.spec_renderer() is Some, *signal),
    {
        window_command(self.renderer.is_some(), signal)
    }
}

impl<R> Default for GameState<R> {
    fn default() -> (s: Self)
        ensures
            s.spec_renderer() is None,
    {
        GameState::new()
    }
}

} // verus!
