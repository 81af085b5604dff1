//! The process registry on its own, and the process-list and path
//! filters.
use kiosk_engine::error::EngineError;
use kiosk_engine::procs::{
    add_manual_game, filter_gui_processes, filter_installed_paths, is_game_executable_name,
    str_contains, str_ends_with, str_starts_with, ProcessEntry,
};
use kiosk_engine::registry::LaunchedProcessRegistry;

#[test]
fn registry_add_is_set_like() {
    let mut r = LaunchedProcessRegistry::new();
    assert!(r.is_empty());
    assert!(r.add(10, 100));
    assert!(r.add(20, 200));
    assert!(!r.add(10, 300));
    assert_eq!(r.count(), 2);
    assert!(r.contains(10));
    assert!(r.contains(20));
    assert!(!r.contains(30));
}

#[test]
fn registry_prune_with_reports_counts() {
    let mut r = LaunchedProcessRegistry::new();
    r.add(1, 0);
    r.add(2, 0);
    r.add(3, 0);
    r.add(4, 0);
    // Entries 2 and 3 are dead.
    let (removed, remaining) = r.prune_with(&vec![true, false, false, true]);
    assert_eq!(removed, 2);
    assert_eq!(remaining, 2);
    assert!(r.contains(1));
    assert!(!r.contains(2));
    assert!(!r.contains(3));
    assert!(r.contains(4));
}

#[test]
fn registry_snapshot_keeps_insertion_order() {
    let mut r = LaunchedProcessRegistry::new();
    r.add(5, 50);
    r.add(6, 60);
    let snap = r.snapshot();
    assert_eq!(snap.len(), 2);
    assert_eq!(snap[0].process_id, 5);
    assert_eq!(snap[0].launched_at, 50);
    assert_eq!(snap[1].process_id, 6);
}

#[test]
fn prefix_and_suffix_checks() {
    assert!(str_starts_with("svchost.exe", "svchost"));
    assert!(!str_starts_with("sv", "svchost"));
    assert!(!str_starts_with("games.exe", "svchost"));
    assert!(str_ends_with("saver.scr", ".scr"));
    assert!(!str_ends_with("scr", ".scr"));
    assert!(!str_ends_with("saver.exe", ".scr"));
    assert!(str_starts_with("anything", ""));
    assert!(str_ends_with("anything", ""));
}

fn entry(name: &str, pid: u32) -> ProcessEntry {
    ProcessEntry { name: name.to_string(), pid }
}

#[test]
fn gui_process_filter_drops_system_entries() {
    let entries = vec![
        entry("game.exe", 1),
        entry("svchost.exe", 2),
        entry("System", 3),
        entry("saver.scr", 4),
        entry("", 5),
        entry("tool.exe", 6),
    ];
    let kept = filter_gui_processes(&entries, 20);
    let names: Vec<&str> = kept.iter().map(|e| e.name.as_str()).collect();
    assert_eq!(names, vec!["game.exe", "tool.exe"]);
}

#[test]
fn gui_process_filter_caps_the_list() {
    let mut entries = Vec::new();
    for i in 0..30u32 {
        entries.push(entry(&format!("app{}.exe", i), i));
    }
    let kept = filter_gui_processes(&entries, 20);
    assert_eq!(kept.len(), 20);
    assert_eq!(kept[0].name, "app0.exe");
    assert_eq!(kept[19].name, "app19.exe");
}

#[test]
fn installed_path_filter_keeps_existing_nonempty_paths() {
    let paths = vec![
        "C:\\a.exe".to_string(),
        "".to_string(),
        "C:\\b.exe".to_string(),
        "C:\\c.exe".to_string(),
    ];
    let exists = vec![true, true, false, true];
    let kept = filter_installed_paths(&paths, &exists);
    assert_eq!(kept, vec!["C:\\a.exe".to_string(), "C:\\c.exe".to_string()]);
}

#[test]
fn manual_game_requires_existing_executable() {
    let ok = add_manual_game("Chess", "C:\\chess.exe", true);
    assert_eq!(ok.unwrap(), "game 'Chess' added");
    let err = add_manual_game("Chess", "C:\\chess.exe", false);
    assert_eq!(
        err.unwrap_err(),
        EngineError::ExecutableNotFound("C:\\chess.exe".to_string())
    );
}

#[test]
fn substring_search_finds_runs() {
    assert!(str_contains("uninstall helper", "unins"));
    assert!(str_contains("abc", ""));
    assert!(str_contains("abc", "abc"));
    assert!(!str_contains("abc", "abcd"));
    assert!(!str_contains("game.exe", "setup"));
    assert!(str_contains("xxsetupxx", "setup"));
}

#[test]
fn game_executable_names_are_recognised() {
    assert!(is_game_executable_name("Chess.exe"));
    assert!(!is_game_executable_name("Chess.dll"));
    assert!(!is_game_executable_name("uninstall.exe"));
    assert!(!is_game_executable_name("setup.exe"));
    assert!(!is_game_executable_name("game-installer.exe"));
}
