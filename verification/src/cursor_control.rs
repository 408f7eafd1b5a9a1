//! Capturing the pointer in the window and letting it go again.

use vstd::prelude::*;
use crate::schedule::Schedule;

verus! {

/// How a window holds the pointer.
#[derive(Clone, Copy, Debug, PartialEq, Eq, Structural)]
pub enum CursorGrabMode {
    /// The pointer moves freely in and out of the window.
    Free,
    /// The pointer cannot leave the window.
    Confined,
    /// The pointer is held in place and only its movement is passed on.
    Locked,
}

/// What a window does with the pointer.
#[derive(Clone, Copy, Debug, PartialEq, Eq, Structural)]
pub struct CursorOptions {
    pub grab_mode: CursorGrabMode,
    pub visible: bool,
}

/// The window that the scene is shown in.
#[derive(Clone, Copy, Debug, PartialEq, Eq, Structural)]
pub struct Window {
    pub cursor_options: CursorOptions,
}

/// The keys that capture and release the pointer, as they stand during one
/// tick.
#[derive(Clone, Copy, Debug, PartialEq, Eq, Structural)]
pub struct CursorInput {
    /// The exit key went down in this tick.
    pub exit: bool,
    /// The primary button of the pointer went down in this tick.
    pub primary_click: bool,
}

/// Enters the capture of the pointer into a schedule.
#[derive(Clone, Copy, Debug, PartialEq, Eq, Structural)]
pub struct CursorControl;

impl CursorControl {
    /// Enters the stages of this plug-in into `schedule`.
    pub fn build(&self, schedule: &mut Schedule)
        ensures
            *final(schedule) == (Schedule {
                grab_cursor_at_startup: true,
                control_cursor_grab: true,
                ..*old(schedule)
            }),
    {
        schedule.grab_cursor_at_startup = true;
        schedule.control_cursor_grab = true;
    }
}

/// A window that holds the pointer: locked and hidden.
pub open spec fn grabbed() -> CursorOptions {
    CursorOptions { grab_mode: CursorGrabMode::Locked, visible: false }
}

/// A window that has let the pointer go: free and shown.
pub open spec fn released() -> CursorOptions {
    CursorOptions { grab_mode: CursorGrabMode::Free, visible: true }
}

/// What the window does with the pointer after the keys of one tick: a click
/// captures it, the exit key alone releases it, and without either nothing
/// changes.
pub open spec fn cursor_after_input(options: CursorOptions, input: CursorInput) -> CursorOptions {
    if input.primary_click {
        grabbed()
    } else if input.exit {
        released()
    } else {
        options
    }
}

/// The window, if there is one, after the keys of one tick.
pub open spec fn window_after_input(window: Option<Window>, input: CursorInput) -> Option<Window> {
    match window {
        Some(window) => Some(
            Window { cursor_options: cursor_after_input(window.cursor_options, input) },
        ),
        None => None,
    }
}

/// The window, if there is one, holding the pointer.
pub open spec fn window_grabbed(window: Option<Window>) -> Option<Window> {
    match window {
        Some(window) => Some(Window { cursor_options: grabbed() }),
        None => None,
    }
}

/// Captures the pointer.
pub fn grab_cursor(window: &mut Window)
    ensures
        final(window).cursor_options == grabbed(),
{
    window.cursor_options.grab_mode = CursorGrabMode::Locked;
    window.cursor_options.visible = false;
}

/// Lets the pointer go.
pub fn release_cursor(window: &mut Window)
    ensures
        final(window).cursor_options == released(),
{
    window.cursor_options.grab_mode = CursorGrabMode::Free;
    window.cursor_options.visible = true;
}

/// Captures the pointer when the scene starts. Without a window nothing
/// happens.
pub fn grab_cursor_at_startup_system(window: &mut Option<Window>)
    ensures
        *final(window) == window_grabbed(*old(window)),
{
    if let Some(primary_window) = *window {
        let mut primary_window = primary_window;
        grab_cursor(&mut primary_window);
        *window = Some(primary_window);
    }
}

/// Releases the pointer when the exit key goes down and captures it when the
/// primary button goes down. Without a window nothing happens.
pub fn control_cursor_grab_system(input: &CursorInput, window: &mut Option<Window>)
    ensures
        *final(window) == window_after_input(*old(window), *input),
{
    if let Some(primary_window) = *window {
        let mut primary_window = primary_window;
        if input.exit {
            release_cursor(&mut primary_window);
        }
        if input.primary_click {
            grab_cursor(&mut primary_window);
        }
        *window = Some(primary_window);
    }
}

} // verus!
