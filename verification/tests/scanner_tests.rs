use game_scanner::catalog::{build_catalog, DetectableGame, GameExecutable};
use game_scanner::detect::{find_match, Detection};
use game_scanner::scanner::{scan_cycle, set_scanner_enabled, store_catalog, ScannerState};
use game_scanner::transition::compute_transition;

fn game(id: &str, name: &str, exes: &[(&str, &str)]) -> DetectableGame {
    DetectableGame {
        id: id.to_owned(),
        name: name.to_owned(),
        executables: Some(
            exes.iter()
                .map(|(os, name)| GameExecutable { os: (*os).to_owned(), name: (*name).to_owned() })
                .collect(),
        ),
    }
}

fn procs(names: &[&str]) -> Vec<String> {
    names.iter().map(|n| (*n).to_owned()).collect()
}

#[test]
fn new_state_is_idle_and_empty() {
    let s = ScannerState::new();
    assert!(s.watch_list.is_empty());
    assert!(s.current_game.is_none());
    assert!(!s.is_enabled);
}

#[test]
fn enabling_raises_wake_once() {
    let mut s = ScannerState::new();
    assert!(set_scanner_enabled(&mut s, true));
    assert!(s.is_enabled);
    assert!(set_scanner_enabled(&mut s, false));
    assert!(!s.is_enabled);
}

#[test]
fn no_op_toggle_never_wakes() {
    let mut s = ScannerState::new();
    assert!(!set_scanner_enabled(&mut s, false));
    assert!(!s.is_enabled);
    set_scanner_enabled(&mut s, true);
    assert!(!set_scanner_enabled(&mut s, true));
    assert!(s.is_enabled);
}

#[test]
fn started_event_on_first_detection() {
    let prev = None;
    let det = Some(Detection { name: "Game One".to_owned(), executable_name: "game1".to_owned() });
    let ev = compute_transition(&prev, &det).expect("a start must be emitted");
    assert_eq!(ev.name, "Game One");
    assert_eq!(ev.executable_name.as_deref(), Some("game1"));
    assert!(ev.is_running);
}

#[test]
fn stopped_event_carries_no_executable() {
    let prev = Some("Game One".to_owned());
    let ev = compute_transition(&prev, &None).expect("a stop must be emitted");
    assert_eq!(ev.name, "Game One");
    assert_eq!(ev.executable_name, None);
    assert!(!ev.is_running);
}

#[test]
fn switch_emits_single_start_for_new_game() {
    let prev = Some("Game One".to_owned());
    let det = Some(Detection { name: "Game Two".to_owned(), executable_name: "game2".to_owned() });
    let ev = compute_transition(&prev, &det).expect("a switch must emit a start");
    assert_eq!(ev.name, "Game Two");
    assert_eq!(ev.executable_name.as_deref(), Some("game2"));
    assert!(ev.is_running);
}

#[test]
fn unchanged_detection_emits_nothing() {
    let prev = Some("Game One".to_owned());
    let det = Some(Detection { name: "Game One".to_owned(), executable_name: "other".to_owned() });
    assert!(compute_transition(&prev, &det).is_none());
    assert!(compute_transition(&None, &None).is_none());
}

#[test]
fn transition_sequence_emits_exactly_three_events() {
    let mut s = ScannerState::new();
    store_catalog(&mut s, vec![game("a", "Alpha", &[("all", "alpha")]), game("b", "Beta", &[("all", "beta")])]);

    let mut events = Vec::new();
    for names in [&[][..], &["alpha"][..], &["alpha"][..], &["beta"][..], &[][..]] {
        if let Some(ev) = scan_cycle(&mut s, &procs(names)) {
            events.push(ev);
        }
    }
    assert_eq!(events.len(), 3);
    assert_eq!(events[0].name, "Alpha");
    assert!(events[0].is_running);
    assert_eq!(events[0].executable_name.as_deref(), Some("alpha"));
    assert_eq!(events[1].name, "Beta");
    assert!(events[1].is_running);
    assert_eq!(events[1].executable_name.as_deref(), Some("beta"));
    assert_eq!(events[2].name, "Beta");
    assert!(!events[2].is_running);
    assert_eq!(events[2].executable_name, None);
}

#[test]
fn fetched_game_detected_once_while_running() {
    let mut s = ScannerState::new();
    store_catalog(&mut s, vec![game("g1", "Game One", &[("all", "game1")])]);

    let running = procs(&["Game1.EXE"]);
    let ev = scan_cycle(&mut s, &running).expect("the running game must be detected");
    assert_eq!(ev.name, "Game One");
    assert_eq!(ev.executable_name.as_deref(), Some("game1"));
    assert!(ev.is_running);

    assert!(scan_cycle(&mut s, &running).is_none());
    assert!(scan_cycle(&mut s, &running).is_none());
    assert_eq!(s.current_game.as_deref(), Some("Game One"));
}

#[test]
fn reenabling_emits_nothing_without_new_detection() {
    let mut s = ScannerState::new();
    store_catalog(&mut s, vec![game("a", "Alpha", &[("all", "alpha")]), game("b", "Beta", &[("all", "beta")])]);
    set_scanner_enabled(&mut s, true);
    assert!(scan_cycle(&mut s, &procs(&["alpha"])).is_some());

    assert!(set_scanner_enabled(&mut s, false));
    assert_eq!(s.current_game.as_deref(), Some("Alpha"));
    assert!(set_scanner_enabled(&mut s, true));
    assert_eq!(s.current_game.as_deref(), Some("Alpha"));

    assert!(scan_cycle(&mut s, &procs(&["alpha"])).is_none());
    let ev = scan_cycle(&mut s, &procs(&["beta"])).expect("a new detection must emit");
    assert_eq!(ev.name, "Beta");
}

#[test]
fn ties_resolved_by_catalog_order() {
    let catalog = vec![game("a", "Alpha", &[("all", "alpha")]), game("b", "Beta", &[("all", "beta")])];
    let d = find_match(&catalog, &procs(&["beta", "alpha"])).expect("both games are running");
    assert_eq!(d.name, "Alpha");
    assert_eq!(d.executable_name, "alpha");
}

#[test]
fn signature_without_executables_never_matches() {
    let catalog = vec![DetectableGame { id: "x".to_owned(), name: "X".to_owned(), executables: None }];
    assert!(find_match(&catalog, &procs(&["x", "X"])).is_none());
}

#[test]
fn empty_catalog_or_no_processes_yields_nothing() {
    assert!(find_match(&Vec::new(), &procs(&["anything"])).is_none());
    let catalog = vec![game("a", "Alpha", &[("all", "alpha")])];
    assert!(find_match(&catalog, &Vec::new()).is_none());
}

#[test]
fn first_entry_of_a_signature_wins() {
    let catalog = vec![game("a", "Alpha", &[("win32", "one"), ("darwin", "two")])];
    let d = find_match(&catalog, &procs(&["two", "one"])).expect("both entries are running");
    assert_eq!(d.executable_name, "two");
}

#[test]
fn synthetic_signature_is_detectable() {
    let mut s = ScannerState::new();
    store_catalog(&mut s, Vec::new());
    let ev = scan_cycle(&mut s, &procs(&["calculator.exe"])).expect("the synthetic entry must match");
    assert_eq!(ev.name, "Calculator");
    assert_eq!(ev.executable_name.as_deref(), Some("Calculator"));
    assert!(ev.is_running);
}

#[test]
fn platform_tag_is_ignored() {
    let catalog = vec![game("w", "Windows Only", &[("win32", "wingame")])];
    let d = find_match(&catalog, &procs(&["WinGame.exe"])).expect("tag must not restrict matching");
    assert_eq!(d.name, "Windows Only");
}
