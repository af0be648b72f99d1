//! The overlay dialog: an opaque text block with an age counter.

use vstd::prelude::*;

verus! {

/// A transient text block painted above the tile layer. The age counter is
/// tracked but does not yet drive expiry; it is kept for future use.
#[derive(Clone)]
pub struct Dialog {
    pub contents: String,
    pub age_milliseconds: i32,
}

impl Dialog {
    /// A fresh dialog holding `contents`, with its age at zero.
    pub fn new(contents: String) -> (d: Dialog)
        ensures
            d.contents == contents,
            d.age_milliseconds == 0,
    {
        Dialog { contents, age_milliseconds: 0 }
    }
}

} // verus!
