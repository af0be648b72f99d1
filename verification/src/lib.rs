//! A terminal tile-world viewer core: a fixed-size grid of styled character
//! tiles is scrolled through a viewport by keyboard input, with an optional
//! overlay dialog.
//!
//! This crate holds the verified logic: the data model (tiles, levels,
//! dialogs), the viewport windowing arithmetic, the offset clamping policy,
//! and the key-dispatch state machine that drives the shared control state.
//! Terminal drawing, raw-mode handling, event polling, threads and timing are
//! left to the surrounding binary, which calls into this crate with plain
//! values.

pub mod control;
pub mod dialog;
pub mod frame;
pub mod input_handler;
pub mod level;
pub mod tile;
