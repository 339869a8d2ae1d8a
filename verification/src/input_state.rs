//! Application-activation state for the input subsystem.

use vstd::prelude::*;

verus! {

/// Whether the application and its pointer capture are active.  The OS
/// delivers focus changes on the window thread; the mouse driver itself is
/// an external collaborator, so the library tracks the activation decision
/// — the driver is captured exactly while the application is active — and
/// the shell applies it to the device.
pub struct InputState {
    /// Whether the application currently holds the foreground.
    pub app_active: bool,
    /// Whether the pointer device is captured for the application.
    pub mouse_active: bool,
}

impl InputState {
    /// The state at startup: inactive until the first activation arrives.
    pub fn new() -> (input: InputState)
        ensures
            input == (InputState { app_active: false, mouse_active: false }),
    {
        InputState { app_active: false, mouse_active: false }
    }
}

/// Records an application activation change: the pointer device is captured
/// exactly when the application becomes active, and released when it
/// deactivates.
pub fn activate(input: &mut InputState, app_active: bool)
    ensures
        final(input).app_active == app_active,
        final(input).mouse_active == app_active,
{
    input.app_active = app_active;
    input.mouse_active = app_active;
}

} // verus!
