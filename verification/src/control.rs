//! The shared control state, the clamping policy for scroll offsets, and the
//! key-dispatch state machine of the update loop.
//!
//! Offsets are signed; every mutation clamps its result into
//! `[0, extent - view]`, so the windowing precondition holds whenever the
//! render loop samples the grid. The update loop owns all mutations; the
//! render loop only reads.

use vstd::prelude::*;

verus! {

/// The nearest value to `off` inside `[0, limit]` (for `limit >= 0`).
pub open spec fn clamped(off: int, limit: int) -> int {
    if off < 0 {
        0
    } else if off > limit {
        limit
    } else {
        off
    }
}

/// Clamp an offset into `[0, extent - view]`, the offsets from which a
/// window of `view` cells fits inside an extent of `extent` cells.
pub fn clamp_offset(off: i64, extent: u16, view: u16) -> (r: i64)
    requires
        view <= extent,
    ensures
        r == clamped(off as int, extent - view),
{
    let limit: i64 = (extent - view) as i64;
    if off < 0 {
        0
    } else if off > limit {
        limit
    } else {
        off
    }
}

/// Clamp `off - 1` into `[0, extent - view]`, without ever computing an
/// out-of-range intermediate value.
pub fn dec_clamped(off: i64, extent: u16, view: u16) -> (r: i64)
    requires
        view <= extent,
    ensures
        r == clamped(off - 1, extent - view),
{
    let limit: i64 = (extent - view) as i64;
    if off <= 0 {
        0
    } else if off - 1 > limit {
        limit
    } else {
        off - 1
    }
}

/// Clamp `off + 1` into `[0, extent - view]`, without ever computing an
/// out-of-range intermediate value.
pub fn inc_clamped(off: i64, extent: u16, view: u16) -> (r: i64)
    requires
        view <= extent,
    ensures
        r == clamped(off + 1, extent - view),
{
    let limit: i64 = (extent - view) as i64;
    if off < 0 {
        0
    } else if off >= limit {
        limit
    } else {
        off + 1
    }
}

/// A discrete key event, as the update loop sees it. The event source hands
/// over raw terminal events; anything that is not one of the keys the state
/// machine reacts to arrives as `Other` and is ignored.
#[derive(Clone, Copy, PartialEq, Eq, Structural, Debug)]
pub enum Key {
    Escape,
    Enter,
    Char(char),
    Other,
}

/// The shared control state: created once at startup, mutated only by the
/// update loop, read by the render loop. In the running program each field
/// sits behind its own exclusive lock; this struct is the value those cells
/// hold together.
#[derive(Clone, Copy, PartialEq, Eq, Structural, Debug)]
pub struct ControlState {
    pub running: bool,
    pub dialog_visible: bool,
    pub x_offset: i64,
    pub y_offset: i64,
}

impl ControlState {
    /// The startup state: running, no dialog, viewport at the origin.
    pub open spec fn initial() -> ControlState {
        ControlState { running: true, dialog_visible: false, x_offset: 0, y_offset: 0 }
    }

    /// Both offsets admit a full viewport: `x_offset` in
    /// `[0, width - vw]` and `y_offset` in `[0, height - vh]`.
    pub open spec fn offsets_in_range(self, width: int, height: int, vw: int, vh: int) -> bool {
        &&& 0 <= self.x_offset <= width - vw
        &&& 0 <= self.y_offset <= height - vh
    }

    pub fn new() -> (s: ControlState)
        ensures
            s == ControlState::initial(),
    {
        ControlState { running: true, dialog_visible: false, x_offset: 0, y_offset: 0 }
    }
}

/// The key-dispatch state machine: what one key event does to the control
/// state, for a level of `width` by `height` tiles seen through a viewport
/// of `vw` by `vh` cells. `Escape` clears the run flag, `Enter` toggles the
/// dialog, `w`/`s` and `a`/`d` move the viewport one cell, clamped; every
/// other key changes nothing.
pub open spec fn step(
    s: ControlState,
    key: Key,
    width: u16,
    height: u16,
    vw: u16,
    vh: u16,
) -> ControlState {
    match key {
        Key::Escape => ControlState { running: false, ..s },
        Key::Enter => ControlState { dialog_visible: !s.dialog_visible, ..s },
        Key::Char(c) => if c == 'w' {
            ControlState { y_offset: clamped(s.y_offset - 1, height - vh) as i64, ..s }
        } else if c == 's' {
            ControlState { y_offset: clamped(s.y_offset + 1, height - vh) as i64, ..s }
        } else if c == 'a' {
            ControlState { x_offset: clamped(s.x_offset - 1, width - vw) as i64, ..s }
        } else if c == 'd' {
            ControlState { x_offset: clamped(s.x_offset + 1, width - vw) as i64, ..s }
        } else {
            s
        },
        Key::Other => s,
    }
}

/// Clamping an already-in-range offset is a no-op.
pub proof fn lemma_clamp_noop(off: int, limit: int)
    requires
        0 <= off <= limit,
    ensures
        clamped(off, limit) == off,
{
}

/// A clamped offset lies in range, and clamping is a fixed point: clamping
/// again changes nothing.
pub proof fn lemma_clamp_idempotent(off: int, limit: int)
    requires
        0 <= limit,
    ensures
        0 <= clamped(off, limit) <= limit,
        clamped(clamped(off, limit), limit) == clamped(off, limit),
{
}

/// How far apart two integers lie.
pub open spec fn distance(a: int, b: int) -> int {
    if a >= b {
        a - b
    } else {
        b - a
    }
}

/// The clamped offset is the in-range value nearest to the original one.
pub proof fn lemma_clamp_nearest(off: int, limit: int, v: int)
    requires
        0 <= v <= limit,
    ensures
        distance(off, clamped(off, limit)) <= distance(off, v),
{
}

/// Dispatch keeps the offsets in range: movement keys clamp their result,
/// and no other key touches an offset.
pub proof fn lemma_step_offsets_in_range(
    s: ControlState,
    key: Key,
    width: u16,
    height: u16,
    vw: u16,
    vh: u16,
)
    requires
        vw <= width,
        vh <= height,
        s.offsets_in_range(width as int, height as int, vw as int, vh as int),
    ensures
        step(s, key, width, height, vw, vh).offsets_in_range(
            width as int,
            height as int,
            vw as int,
            vh as int,
        ),
{
}

/// `Enter` toggles the dialog flag and touches nothing else; a second
/// `Enter` restores the state exactly.
pub proof fn lemma_enter_toggles(s: ControlState, width: u16, height: u16, vw: u16, vh: u16)
    ensures
        step(s, Key::Enter, width, height, vw, vh).dialog_visible == !s.dialog_visible,
        step(s, Key::Enter, width, height, vw, vh).running == s.running,
        step(s, Key::Enter, width, height, vw, vh).x_offset == s.x_offset,
        step(s, Key::Enter, width, height, vw, vh).y_offset == s.y_offset,
        step(step(s, Key::Enter, width, height, vw, vh), Key::Enter, width, height, vw, vh) == s,
{
}

/// Scrolling right then left from the left edge is a net no-op, whatever
/// the viewport: the first step is clamped at the right edge if the level
/// is no wider than the viewport, and the second clamps back at zero.
pub proof fn lemma_move_right_left_net_zero(
    s: ControlState,
    width: u16,
    height: u16,
    vw: u16,
    vh: u16,
)
    requires
        vw <= width,
        vh <= height,
        s.x_offset == 0,
    ensures
        step(
            step(s, Key::Char('d'), width, height, vw, vh),
            Key::Char('a'),
            width,
            height,
            vw,
            vh,
        ).x_offset == 0,
{
}

/// `Escape` clears the run flag, and no key raises it again: once one loop
/// has seen `Escape`, every later dispatch leaves the state stopped, so
/// both loops exit at their next check of the flag.
pub proof fn lemma_escape_stops(
    s: ControlState,
    key: Key,
    width: u16,
    height: u16,
    vw: u16,
    vh: u16,
)
    ensures
        !step(s, Key::Escape, width, height, vw, vh).running,
        !s.running ==> !step(s, key, width, height, vw, vh).running,
{
}

} // verus!
