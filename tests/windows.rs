use richdad::command::Command;
use richdad::factory::{window_descriptor, INNER_HEIGHT, INNER_WIDTH, MIN_INNER_HEIGHT, MIN_INNER_WIDTH};
use richdad::label::{push_decimal, window_label};
use richdad::live::LiveWindows;
use richdad::window::{WindowAction, WindowState};

fn live_of(labels: &[&str]) -> LiveWindows {
    LiveWindows::from_labels(labels.iter().map(|l| l.to_string()).collect())
}

fn labels_of(live: &LiveWindows) -> Vec<String> {
    (0..live.len()).map(|i| live.label(i).clone()).collect()
}

#[test]
fn label_formed_from_count() {
    assert_eq!(window_label(0), "richdad_0");
    assert_eq!(window_label(1), "richdad_1");
    assert_eq!(window_label(9), "richdad_9");
    assert_eq!(window_label(10), "richdad_10");
    assert_eq!(window_label(305), "richdad_305");
}

#[test]
fn label_of_largest_count() {
    assert_eq!(window_label(usize::MAX), format!("richdad_{}", usize::MAX));
}

#[test]
fn decimal_appends_to_existing_text() {
    let mut s = String::from("n=");
    push_decimal(&mut s, 4096);
    assert_eq!(s, "n=4096");
}

#[test]
fn descriptor_has_fixed_window_defaults() {
    let d = window_descriptor(3);
    assert_eq!(d.label, "richdad_3");
    assert_eq!(d.title, "RichDad");
    assert_eq!(d.url, "/");
    assert_eq!((d.width, d.height), (1600, 1000));
    assert_eq!((d.min_width, d.min_height), (1200, 800));
    assert_eq!((INNER_WIDTH, INNER_HEIGHT, MIN_INNER_WIDTH, MIN_INNER_HEIGHT), (1600, 1000, 1200, 800));
    assert!(d.resizable);
}

#[test]
fn create_from_one_window() {
    let mut live = live_of(&["main"]);
    let d = live.next_window();
    assert_eq!(d.label, "richdad_1");
    let r = live.record_build(d.label.clone(), Ok(()));
    assert_eq!(r, Ok(()));
    assert_eq!(live.len(), 2);
    assert_eq!(labels_of(&live), vec!["main", "richdad_1"]);
}

#[test]
fn create_twice_from_one_window() {
    let mut live = live_of(&["main"]);
    for _ in 0..2 {
        let d = live.next_window();
        live.record_build(d.label, Ok(())).unwrap();
    }
    assert_eq!(labels_of(&live), vec!["main", "richdad_1", "richdad_2"]);
}

#[test]
fn factory_labels_on_empty_start() {
    let mut live = LiveWindows::new();
    let mut made = Vec::new();
    for _ in 0..3 {
        let d = live.next_window();
        made.push(d.label.clone());
        live.record_build(d.label, Ok(())).unwrap();
    }
    assert_eq!(made, vec!["richdad_0", "richdad_1", "richdad_2"]);
}

#[test]
fn failed_build_surfaces_message_and_keeps_set() {
    let mut live = live_of(&["main", "richdad_1"]);
    let d = live.next_window();
    let r = live.record_build(d.label, Err("a webview window with label `richdad_2` already exists".to_string()));
    assert_eq!(r, Err("a webview window with label `richdad_2` already exists".to_string()));
    assert_eq!(labels_of(&live), vec!["main", "richdad_1"]);
}

#[test]
fn closing_only_window_exits() {
    let mut live = live_of(&["main"]);
    assert!(live.close(&"main".to_string()));
    assert_eq!(live.len(), 0);
}

#[test]
fn closing_one_of_several_keeps_running() {
    let mut live = live_of(&["main", "richdad_1", "richdad_2"]);
    assert!(!live.close(&"richdad_1".to_string()));
    assert_eq!(labels_of(&live), vec!["main", "richdad_2"]);
}

#[test]
fn close_churn_reuses_count_label() {
    let mut live = live_of(&["main", "richdad_1", "richdad_2"]);
    live.close(&"richdad_1".to_string());
    assert_eq!(live.next_window().label, "richdad_2");
}

#[test]
fn query_then_maximize_then_query() {
    let mut w = WindowState::new();
    assert!(!w.is_maximized());
    assert_eq!(w.maximize_window(), WindowAction::Maximize);
    assert!(w.is_maximized());
}

#[test]
fn maximize_twice_restores_flag() {
    for start in [false, true] {
        let mut w = WindowState { maximized: start, minimized: false };
        let first = w.maximize_window();
        assert_eq!(w.is_maximized(), !start);
        let second = w.maximize_window();
        assert_ne!(first, second);
        assert_eq!(w.is_maximized(), start);
    }
    let mut w = WindowState { maximized: true, minimized: false };
    assert_eq!(w.maximize_window(), WindowAction::Unmaximize);
    assert!(!w.is_maximized());
}

#[test]
fn minimize_twice_stays_minimized() {
    let mut w = WindowState::new();
    assert_eq!(w.minimize_window(), WindowAction::Minimize);
    assert!(w.minimized);
    let once = w;
    w.minimize_window();
    assert_eq!(w, once);
    assert!(!w.maximized);
}

#[test]
fn close_command_asks_to_close() {
    let mut w = WindowState::new();
    w.apply(WindowAction::Maximize);
    assert_eq!(w.close_window(), WindowAction::Close);
    assert!(w.maximized);
}

#[test]
fn five_commands_registered() {
    let names = ["minimize_window", "maximize_window", "close_window", "is_maximized", "create_new_window"];
    let expected = [
        Command::MinimizeWindow,
        Command::MaximizeWindow,
        Command::CloseWindow,
        Command::IsMaximized,
        Command::CreateNewWindow,
    ];
    for (n, c) in names.iter().zip(expected.iter()) {
        assert_eq!(Command::from_name(n), Some(*c));
        assert_eq!(c.name(), *n);
    }
}

#[test]
fn unknown_command_rejected() {
    assert_eq!(Command::from_name("nonexistent"), None);
    assert_eq!(Command::from_name(""), None);
    assert_eq!(Command::from_name("Minimize_window"), None);
    assert_eq!(Command::from_name("close_window "), None);
}

#[test]
fn creations_without_closes_keep_labels_unique() {
    let mut live = live_of(&["main"]);
    for _ in 0..12 {
        let d = live.next_window();
        live.record_build(d.label, Ok(())).unwrap();
    }
    let mut labels = labels_of(&live);
    assert_eq!(labels.len(), 13);
    labels.sort();
    labels.dedup();
    assert_eq!(labels.len(), 13);
    assert_ne!(window_label(1), window_label(10));
    assert_ne!(window_label(11), window_label(1));
}
