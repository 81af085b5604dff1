//! The kiosk state machine end to end: enable, launch, prune, dialog
//! allowance, focus, and the key-event decision table.
use kiosk_engine::engine::{
    HookInstallOutcome, KioskEngine, KioskMode, SpawnOutcome, TableLivenessInspector,
};
use kiosk_engine::error::EngineError;
use kiosk_engine::chrome::chrome_for_mode;
use kiosk_engine::interceptor::{decide_key, KeyDecision};

fn enabled_engine() -> KioskEngine {
    let mut e = KioskEngine::new();
    e.enable_suppression(HookInstallOutcome::Installed).unwrap();
    e
}

#[test]
fn fresh_engine_is_disabled_and_empty() {
    let e = KioskEngine::new();
    assert_eq!(e.mode, KioskMode::Disabled);
    assert!(!e.hook_is_live());
    assert!(!e.dialog_allowance);
    assert_eq!(e.registry.count(), 0);
    assert!(e.may_close_host_window());
}

#[test]
fn enable_installs_hook_and_goes_strict() {
    let mut e = KioskEngine::new();
    let r = e.enable_suppression(HookInstallOutcome::Installed);
    assert_eq!(r.unwrap(), "kiosk suppression enabled");
    assert_eq!(e.mode, KioskMode::Strict);
    assert!(e.hook_is_live());
    assert!(e.chrome_state().always_on_top);
    assert!(!e.chrome_state().taskbar_visible);
}

#[test]
fn enable_twice_is_idempotent_with_one_live_hook() {
    let mut e = enabled_engine();
    // The shell asks first and attempts no second install.
    assert!(e.hook_is_live());
    let r = e.enable_suppression(HookInstallOutcome::Unsupported);
    assert!(r.is_ok());
    assert!(e.hook_is_live());
    assert_eq!(e.mode, KioskMode::Strict);
}

#[test]
fn enable_failure_leaves_engine_disabled() {
    let mut e = KioskEngine::new();
    let r = e.enable_suppression(HookInstallOutcome::Failed("access denied".to_string()));
    assert_eq!(
        r.unwrap_err(),
        EngineError::HookInstallFailed("access denied".to_string())
    );
    assert_eq!(e.mode, KioskMode::Disabled);
    assert!(!e.hook_is_live());
}

#[test]
fn enable_unsupported_platform_reports_and_stays_disabled() {
    let mut e = KioskEngine::new();
    let r = e.enable_suppression(HookInstallOutcome::Unsupported);
    assert_eq!(r.unwrap_err(), EngineError::PlatformUnsupported);
    assert_eq!(
        EngineError::PlatformUnsupported.message(),
        "operation not supported on this platform"
    );
    assert_eq!(e.mode, KioskMode::Disabled);
}

#[test]
fn launch_missing_executable_is_rejected_before_spawn() {
    // Scenario: registry empty, the executable does not exist.
    let e = enabled_engine();
    let r = e.launch_precheck("nonexistent.bin", false);
    let err = r.unwrap_err();
    assert_eq!(
        err,
        EngineError::ExecutableNotFound("nonexistent.bin".to_string())
    );
    assert_eq!(err.message(), "executable not found: nonexistent.bin");
    assert_eq!(e.registry.count(), 0);
    assert_eq!(e.mode, KioskMode::Strict);
}

#[test]
fn launch_goes_permissive_and_tracks_pid() {
    // Scenario: enable succeeds, then a valid launch.
    let mut e = enabled_engine();
    assert_eq!(e.mode, KioskMode::Strict);
    assert!(e.chrome_state().always_on_top);
    assert!(e.launch_precheck("game.exe", true).is_ok());
    let r = e.complete_launch(SpawnOutcome::Spawned(4242), 1_700_000_000);
    assert_eq!(r.unwrap(), "launched managed app (pid 4242)");
    assert_eq!(e.mode, KioskMode::Permissive);
    assert!(!e.chrome_state().always_on_top);
    assert!(e.registry.contains(4242));
    assert_eq!(e.registry.count(), 1);
}

#[test]
fn failed_spawn_surfaces_os_error_and_changes_nothing() {
    let mut e = enabled_engine();
    let r = e.complete_launch(SpawnOutcome::Failed("no such file".to_string()), 0);
    assert_eq!(r.unwrap_err(), EngineError::SpawnFailed("no such file".to_string()));
    assert_eq!(e.mode, KioskMode::Strict);
    assert_eq!(e.registry.count(), 0);
}

#[test]
fn duplicate_launch_of_same_pid_tracks_once() {
    let mut e = enabled_engine();
    e.complete_launch(SpawnOutcome::Spawned(7), 10).unwrap();
    e.complete_launch(SpawnOutcome::Spawned(7), 20).unwrap();
    assert_eq!(e.registry.count(), 1);
}

#[test]
fn prune_removes_exactly_the_dead_entries() {
    // Of three tracked processes, two are reported dead.
    let mut e = enabled_engine();
    e.complete_launch(SpawnOutcome::Spawned(11), 1).unwrap();
    e.complete_launch(SpawnOutcome::Spawned(22), 2).unwrap();
    e.complete_launch(SpawnOutcome::Spawned(33), 3).unwrap();
    let inspector = TableLivenessInspector { live: vec![22] };
    let r = e.prune_dead_managed_apps(&inspector);
    assert_eq!(r.unwrap(), "cleaned up 2 closed apps, 1 still running");
    assert_eq!(e.registry.count(), 1);
    assert!(e.registry.contains(22));
    assert!(!e.registry.contains(11));
    assert!(!e.registry.contains(33));
    assert_eq!(e.mode, KioskMode::Permissive);
}

#[test]
fn prune_after_external_termination_restores_strict() {
    // Scenario: permissive with one tracked pid; it dies externally.
    let mut e = enabled_engine();
    e.complete_launch(SpawnOutcome::Spawned(5001), 1).unwrap();
    assert_eq!(e.mode, KioskMode::Permissive);
    let nothing_alive = TableLivenessInspector { live: vec![] };
    let r = e.prune_dead_managed_apps(&nothing_alive);
    assert_eq!(r.unwrap(), "cleaned up 1 closed apps, 0 still running");
    assert_eq!(e.registry.count(), 0);
    assert_eq!(e.mode, KioskMode::Strict);
    assert!(e.chrome_state().always_on_top);
}

#[test]
fn dialog_allowance_relaxes_without_changing_mode() {
    // Scenario: allowance while strict, then focus returns.
    let mut e = enabled_engine();
    let r = e.request_dialog_allowance();
    assert_eq!(r.unwrap(), "dialog allowance enabled until the window regains focus");
    assert_eq!(e.mode, KioskMode::Strict);
    assert!(e.dialog_allowance);
    assert!(!e.chrome_state().always_on_top);
    // Every key is forwarded while the allowance is in force.
    assert_eq!(e.key_decision(0x5B, false), KeyDecision::Forward);
    let r2 = e.reconcile_chrome_for_focus();
    assert_eq!(r2.unwrap(), "strict kiosk mode, no managed apps running");
    assert_eq!(e.mode, KioskMode::Strict);
    assert!(!e.dialog_allowance);
    assert!(e.chrome_state().always_on_top);
    assert_eq!(e.key_decision(0x5B, false), KeyDecision::Block);
}

#[test]
fn disable_releases_hook_but_keeps_tracked_apps() {
    let mut e = enabled_engine();
    e.complete_launch(SpawnOutcome::Spawned(9), 1).unwrap();
    let r = e.disable_suppression();
    assert_eq!(r.unwrap(), "kiosk suppression disabled");
    assert_eq!(e.mode, KioskMode::Disabled);
    assert!(!e.hook_is_live());
    assert_eq!(e.registry.count(), 1);
    // A registered app keeps the host window open even after disable.
    assert!(!e.may_close_host_window());
}

#[test]
fn reenabling_with_tracked_apps_goes_permissive() {
    let mut e = enabled_engine();
    e.complete_launch(SpawnOutcome::Spawned(9), 1).unwrap();
    e.disable_suppression().unwrap();
    e.enable_suppression(HookInstallOutcome::Installed).unwrap();
    assert_eq!(e.mode, KioskMode::Permissive);
}

#[test]
fn status_reports_mode_and_count() {
    let mut e = KioskEngine::new();
    assert_eq!(e.suppression_status().unwrap(), "suppression disabled");
    e.enable_suppression(HookInstallOutcome::Installed).unwrap();
    assert_eq!(
        e.suppression_status().unwrap(),
        "strict kiosk mode, no managed apps running"
    );
    e.complete_launch(SpawnOutcome::Spawned(1), 1).unwrap();
    e.complete_launch(SpawnOutcome::Spawned(2), 2).unwrap();
    assert_eq!(
        e.suppression_status().unwrap(),
        "permissive kiosk mode, 2 managed apps running"
    );
}

#[test]
fn focus_while_disabled_changes_nothing() {
    let mut e = KioskEngine::new();
    let r = e.reconcile_chrome_for_focus();
    assert_eq!(r.unwrap(), "suppression disabled");
    assert_eq!(e.mode, KioskMode::Disabled);
    assert!(!e.hook_is_live());
}

#[test]
fn meta_keys_blocked_in_both_modes() {
    // Left and right meta are blocked whether the registry is empty or not.
    for &vk in &[0x5Bu32, 0x5C] {
        for &nonempty in &[false, true] {
            let mode = if nonempty { KioskMode::Permissive } else { KioskMode::Strict };
            assert_eq!(decide_key(mode, false, nonempty, vk, false), KeyDecision::Block);
            assert_eq!(decide_key(mode, false, nonempty, vk, true), KeyDecision::Block);
        }
    }
}

#[test]
fn nonempty_registry_forwards_everything_but_meta() {
    // Alt-tab, alt-F4, alt-enter, plain letters: all forwarded.
    for &(vk, alt) in &[(0x09u32, true), (0x73, true), (0x0D, true), (0x41, false)] {
        assert_eq!(
            decide_key(KioskMode::Permissive, false, true, vk, alt),
            KeyDecision::Forward
        );
    }
}

#[test]
fn strict_mode_blocks_listed_alt_combos() {
    // Alt-tab, alt-escape, alt-F4, alt-F1, alt-F24, alt-enter, alt-space.
    for &vk in &[0x09u32, 0x1B, 0x73, 0x70, 0x87, 0x0D, 0x20] {
        assert_eq!(
            decide_key(KioskMode::Strict, false, false, vk, true),
            KeyDecision::Block
        );
    }
    // The same keys without alt are forwarded.
    for &vk in &[0x09u32, 0x1B, 0x73, 0x70, 0x87, 0x0D, 0x20] {
        assert_eq!(
            decide_key(KioskMode::Strict, false, false, vk, false),
            KeyDecision::Forward
        );
    }
    // An ordinary letter is forwarded even in strict mode.
    assert_eq!(
        decide_key(KioskMode::Strict, false, false, 0x41, false),
        KeyDecision::Forward
    );
}

#[test]
fn disabled_mode_forwards_everything() {
    for &vk in &[0x5Bu32, 0x5C, 0x09, 0x73] {
        assert_eq!(
            decide_key(KioskMode::Disabled, false, false, vk, true),
            KeyDecision::Forward
        );
    }
}

#[test]
fn engine_key_decision_follows_its_state() {
    let mut e = enabled_engine();
    assert_eq!(e.key_decision(0x09, true), KeyDecision::Block);
    e.complete_launch(SpawnOutcome::Spawned(3), 1).unwrap();
    assert_eq!(e.key_decision(0x09, true), KeyDecision::Forward);
    assert_eq!(e.key_decision(0x5B, false), KeyDecision::Block);
}

#[test]
fn mode_matches_registry_while_enabled() {
    // The invariant observed at runtime across a whole command sequence.
    let mut e = enabled_engine();
    let check = |e: &KioskEngine| {
        if e.mode != KioskMode::Disabled {
            assert_eq!(e.mode == KioskMode::Permissive, e.registry.count() > 0);
        }
    };
    check(&e);
    e.complete_launch(SpawnOutcome::Spawned(1), 1).unwrap();
    check(&e);
    e.request_dialog_allowance().unwrap();
    check(&e);
    e.reconcile_chrome_for_focus().unwrap();
    check(&e);
    let none = TableLivenessInspector { live: vec![] };
    e.prune_dead_managed_apps(&none).unwrap();
    check(&e);
    e.disable_suppression().unwrap();
    check(&e);
}

#[test]
fn elevation_probe_gates_lockdown_setup() {
    assert!(kiosk_engine::error::require_elevation(true).is_ok());
    let err = kiosk_engine::error::require_elevation(false).unwrap_err();
    assert_eq!(err, EngineError::PrivilegeRequired);
    assert_eq!(err.message(), "administrator privileges required");
}

#[test]
fn os_error_texts_are_carried_in_messages() {
    assert_eq!(
        EngineError::HookInstallFailed("code 5".to_string()).message(),
        "failed to install keyboard hook: code 5"
    );
    assert_eq!(
        EngineError::SpawnFailed("not found".to_string()).message(),
        "failed to launch: not found"
    );
}

#[test]
fn chrome_follows_mode_and_allowance() {
    for &(mode, allowance, on_top) in &[
        (KioskMode::Disabled, false, false),
        (KioskMode::Disabled, true, false),
        (KioskMode::Strict, false, true),
        (KioskMode::Strict, true, false),
        (KioskMode::Permissive, false, false),
        (KioskMode::Permissive, true, false),
    ] {
        let c = chrome_for_mode(mode, allowance);
        assert_eq!(c.always_on_top, on_top);
        assert_eq!(c.taskbar_visible, !on_top);
    }
}

#[test]
fn launch_while_disabled_tracks_but_stays_disabled() {
    let mut e = KioskEngine::new();
    let r = e.complete_launch(SpawnOutcome::Spawned(77), 1);
    assert!(r.is_ok());
    assert_eq!(e.mode, KioskMode::Disabled);
    assert_eq!(e.registry.count(), 1);
    assert!(!e.may_close_host_window());
}
