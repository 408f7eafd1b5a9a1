//! Questions that more than one stage asks.

use vstd::prelude::*;
use crate::cursor_control::{CursorGrabMode, Window};

verus! {

/// Whether `window` holds the pointer in place.
pub open spec fn window_is_grabbed(window: &Window) -> bool {
    window.cursor_options.grab_mode == CursorGrabMode::Locked
}

/// Whether `window` holds the pointer in place.
#[verifier::when_used_as_spec(window_is_grabbed)]
pub fn is_window_grabbed(window: &Window) -> (r: bool)
    ensures
        r == window_is_grabbed(window),
{
    window.cursor_options.grab_mode == CursorGrabMode::Locked
}

} // verus!
