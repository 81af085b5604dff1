//! The window-chrome state derived from the kiosk mode: whether the host
//! window stays above all others and whether the taskbar is shown. The
//! engine only decides the state; applying it is an OS call of the
//! surrounding shell, whose failure is non-fatal.
use vstd::prelude::*;

use crate::engine::KioskMode;

verus! {

/// The chrome the host window should have.
#[derive(Clone, Copy, Debug, PartialEq, Eq, Structural)]
pub struct WindowChromeState {
    /// Keep the host window above all others.
    pub always_on_top: bool,
    /// Leave the taskbar visible.
    pub taskbar_visible: bool,
}

/// The chrome for a mode: the window pins itself on top, and the taskbar
/// hides, exactly in strict mode with no dialog allowance in force.
pub open spec fn spec_chrome_for(mode: KioskMode, dialog_allowance: bool) -> WindowChromeState {
    WindowChromeState {
        always_on_top: mode == KioskMode::Strict && !dialog_allowance,
        taskbar_visible: !(mode == KioskMode::Strict && !dialog_allowance),
    }
}

/// Computes the chrome for a mode.
pub fn chrome_for_mode(mode: KioskMode, dialog_allowance: bool) -> (r: WindowChromeState)
    ensures
        r == spec_chrome_for(mode, dialog_allowance),
{
    let locked = mode == KioskMode::Strict && !dialog_allowance;
    WindowChromeState { always_on_top: locked, taskbar_visible: !locked }
}

} // verus!
