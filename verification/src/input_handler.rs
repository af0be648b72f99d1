//! The input handler: translates discrete key events into mutations of the
//! shared control state. The surrounding binary polls the terminal event
//! source with a bounded wait and hands each event here as a plain [`Key`];
//! a poll that times out hands over nothing and mutates nothing.

use vstd::prelude::*;

use crate::control::{dec_clamped, inc_clamped, step, ControlState, Key};

verus! {

/// The update loop's event translator. It holds no state of its own: all
/// state it touches lives in the shared [`ControlState`].
pub struct InputHandler;

impl InputHandler {
    pub fn new() -> InputHandler {
        InputHandler {}
    }

    /// Dispatch one key event: mutate the control state exactly as the
    /// [`step`] state machine says, clamping offsets at mutation time so
    /// they stay inside `[0, width - vw]` and `[0, height - vh]`.
    pub fn handle_key(
        &self,
        state: &mut ControlState,
        key: Key,
        width: u16,
        height: u16,
        vw: u16,
        vh: u16,
    )
        requires
            vw <= width,
            vh <= height,
        ensures
            *final(state) == step(*old(state), key, width, height, vw, vh),
    {
        match key {
            Key::Escape => {
                state.running = false;
            },
            Key::Enter => {
                state.dialog_visible = !state.dialog_visible;
            },
            Key::Char(c) => {
                if c == 'w' {
                    state.y_offset = dec_clamped(state.y_offset, height, vh);
                } else if c == 's' {
                    state.y_offset = inc_clamped(state.y_offset, height, vh);
                } else if c == 'a' {
                    state.x_offset = dec_clamped(state.x_offset, width, vw);
                } else if c == 'd' {
                    state.x_offset = inc_clamped(state.x_offset, width, vw);
                }
            },
            Key::Other => {},
        }
    }
}

} // verus!
