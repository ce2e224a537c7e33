use intero::text::same_text;
use intero::tray::{handle_tray_event, make_tray, MenuItem, TrayCommand, OPEN, QUIT, TOGGLE};

#[test]
fn tray_menu_offers_open_and_quit() {
    assert_eq!(
        make_tray(),
        vec![
            MenuItem { id: "open", title: "Open Intero" },
            MenuItem { id: "quit", title: "Quit" },
        ]
    );
}

#[test]
fn tray_identifiers_are_the_plain_words() {
    assert_eq!(OPEN, "open");
    assert_eq!(TOGGLE, "toggle");
    assert_eq!(QUIT, "quit");
}

#[test]
fn tray_event_of_each_item() {
    assert_eq!(handle_tray_event("quit"), TrayCommand::Quit);
    assert_eq!(handle_tray_event("open"), TrayCommand::Open);
    assert_eq!(handle_tray_event("toggle"), TrayCommand::Toggle);
}

#[test]
fn tray_event_of_every_menu_item_is_a_command() {
    for item in make_tray() {
        assert_ne!(handle_tray_event(item.id), TrayCommand::Ignore);
    }
}

#[test]
fn tray_event_of_anything_else_is_ignored() {
    assert_eq!(handle_tray_event("settings"), TrayCommand::Ignore);
    assert_eq!(handle_tray_event(""), TrayCommand::Ignore);
    assert_eq!(handle_tray_event("Quit"), TrayCommand::Ignore);
    assert_eq!(handle_tray_event("quit "), TrayCommand::Ignore);
    assert_eq!(handle_tray_event("ope"), TrayCommand::Ignore);
}

#[test]
fn same_text_compares_characters() {
    assert!(same_text("", ""));
    assert!(same_text("panel", "panel"));
    assert!(!same_text("panel", "panes"));
    assert!(!same_text("panel", "pane"));
    assert!(!same_text("pane", "panel"));
    assert!(same_text("fenêtre ✓", "fenêtre ✓"));
    assert!(!same_text("fenêtre", "fenetre"));
}

#[test]
fn greet_names_the_one_greeted() {
    assert_eq!(intero::text::greet("Ada"), "Hello, Ada! You've been greeted from Rust!");
    assert_eq!(intero::text::greet(""), "Hello, ! You've been greeted from Rust!");
}

#[test]
fn append_decimal_writes_base_ten() {
    let cases: [(u64, &str); 8] = [
        (0, "0"),
        (7, "7"),
        (10, "10"),
        (99, "99"),
        (100, "100"),
        (1234567890, "1234567890"),
        (9007199254740993, "9007199254740993"),
        (u64::MAX, "18446744073709551615"),
    ];
    for (n, text) in cases {
        let mut out = String::from("n=");
        intero::text::append_decimal(&mut out, n);
        assert_eq!(out, format!("n={}", text));
        assert_eq!(out, format!("n={}", n));
    }
}
