//! The per-key decision of the low-level input callback: block or forward,
//! from a snapshot of the current mode, the dialog allowance, and whether
//! the registry of launched processes is empty.
//!
//! The decision is a pure function of plain values so that the OS-driven
//! callback can evaluate it without allocation, locking or I/O.
use vstd::prelude::*;

use crate::engine::KioskMode;

verus! {

/// Virtual-key code of the left meta (OS) key.
pub const VK_LEFT_META: u32 = 0x5B;

/// Virtual-key code of the right meta (OS) key.
pub const VK_RIGHT_META: u32 = 0x5C;

/// Virtual-key code of the tab key.
pub const VK_TAB: u32 = 0x09;

/// Virtual-key code of the escape key.
pub const VK_ESCAPE: u32 = 0x1B;

/// Virtual-key code of the enter key.
pub const VK_ENTER: u32 = 0x0D;

/// Virtual-key code of the space key.
pub const VK_SPACE: u32 = 0x20;

/// Virtual-key code of the first function key, F1.
pub const VK_F1: u32 = 0x70;

/// Virtual-key code of the last function key recognised here, F24.
pub const VK_F24: u32 = 0x87;

/// What the input callback does with one key event.
#[derive(Clone, Copy, Debug, PartialEq, Eq, Structural)]
pub enum KeyDecision {
    /// Suppress the event: no other application sees it.
    Block,
    /// Hand the event on to the rest of the system.
    Forward,
}

/// The meta (OS) keys, suppressed for security whenever suppression is on.
pub open spec fn spec_is_meta_key(vk: u32) -> bool {
    vk == VK_LEFT_META || vk == VK_RIGHT_META
}

/// The alt-modified combinations that strict mode suppresses: alt-tab,
/// alt-escape, alt-enter, alt-space and the alt-function keys
/// (alt-F4 among them).
pub open spec fn spec_is_blocked_alt_combo(vk: u32) -> bool {
    vk == VK_TAB || vk == VK_ESCAPE || vk == VK_ENTER || vk == VK_SPACE || (VK_F1 <= vk && vk
        <= VK_F24)
}

/// The decision table, applied per key-down event. `alt_pressed` says the
/// event arrived as a system key event, i.e. with the alt modifier held.
///
/// With suppression disabled, or under a dialog allowance, everything is
/// forwarded. Otherwise the meta keys are always blocked; with at least
/// one launched application running (`registry_nonempty`) every other key
/// is forwarded, and with none the listed alt combinations are blocked too.
pub open spec fn spec_decide_key(
    mode: KioskMode,
    dialog_allowance: bool,
    registry_nonempty: bool,
    vk: u32,
    alt_pressed: bool,
) -> KeyDecision {
    if mode == KioskMode::Disabled || dialog_allowance {
        KeyDecision::Forward
    } else if spec_is_meta_key(vk) {
        KeyDecision::Block
    } else if registry_nonempty {
        KeyDecision::Forward
    } else if alt_pressed && spec_is_blocked_alt_combo(vk) {
        KeyDecision::Block
    } else {
        KeyDecision::Forward
    }
}

/// Evaluates the decision table on one key event.
pub fn decide_key(
    mode: KioskMode,
    dialog_allowance: bool,
    registry_nonempty: bool,
    vk: u32,
    alt_pressed: bool,
) -> (r: KeyDecision)
    ensures
        r == spec_decide_key(mode, dialog_allowance, registry_nonempty, vk, alt_pressed),
{
    if mode == KioskMode::Disabled || dialog_allowance {
        KeyDecision::Forward
    } else if vk == VK_LEFT_META || vk == VK_RIGHT_META {
        KeyDecision::Block
    } else if registry_nonempty {
        KeyDecision::Forward
    } else if alt_pressed && (vk == VK_TAB || vk == VK_ESCAPE || vk == VK_ENTER || vk == VK_SPACE
        || (VK_F1 <= vk && vk <= VK_F24)) {
        KeyDecision::Block
    } else {
        KeyDecision::Forward
    }
}

/// Law: while suppression is on and no dialog allowance is in force, a meta
/// key is blocked regardless of the mode, strict or permissive.
pub proof fn lemma_meta_keys_always_blocked(
    mode: KioskMode,
    registry_nonempty: bool,
    vk: u32,
    alt_pressed: bool,
)
    requires
        mode != KioskMode::Disabled,
        spec_is_meta_key(vk),
    ensures
        spec_decide_key(mode, false, registry_nonempty, vk, alt_pressed) == KeyDecision::Block,
{
}

/// Law: while the registry is non-empty, every key other than the meta keys
/// is forwarded, whatever the mode and the modifiers.
pub proof fn lemma_nonempty_registry_forwards_other_keys(
    mode: KioskMode,
    dialog_allowance: bool,
    vk: u32,
    alt_pressed: bool,
)
    requires
        !spec_is_meta_key(vk),
    ensures
        spec_decide_key(mode, dialog_allowance, true, vk, alt_pressed) == KeyDecision::Forward,
{
}

} // verus!
