use tray_shell::lifecycle::{parse_tray_tag, tray_config, visibility_of_query, launch_request_event};
use tray_shell::lifecycle::{Action, AppState, Event, TrayTag, Visibility};

#[test]
fn initial_state_visible_and_running() {
    let s = AppState::new();
    assert_eq!(s.visibility, Visibility::Visible);
    assert!(s.running);
    assert!(s.is_visible());
}

#[test]
fn close_request_hides_and_keeps_running() {
    let mut s = AppState::new();
    let a = s.step(Event::CloseRequested, true);
    assert_eq!(a, Action::PreventCloseAndHide);
    assert_eq!(s.visibility, Visibility::Hidden);
    assert!(s.running);
}

#[test]
fn repeated_close_requests_stay_hidden_and_running() {
    let mut s = AppState::new();
    for _ in 0..5 {
        let a = s.step(Event::CloseRequested, true);
        assert_eq!(a, Action::PreventCloseAndHide);
        assert_eq!(s.visibility, Visibility::Hidden);
        assert!(s.running);
    }
}

#[test]
fn hide_then_tray_show_ends_visible() {
    let mut s = AppState::new();
    s.step(Event::CloseRequested, true);
    let a = s.step(Event::TrayMenu(TrayTag::Show), true);
    assert_eq!(a, Action::ShowWindow);
    assert_eq!(s.visibility, Visibility::Visible);
    assert!(s.running);
}

#[test]
fn tray_show_when_visible_focuses() {
    let mut s = AppState::new();
    let a = s.step(Event::TrayMenu(TrayTag::Show), true);
    assert_eq!(a, Action::FocusWindow);
    assert_eq!(s.visibility, Visibility::Visible);
}

#[test]
fn tray_show_without_window_only_logs() {
    let mut s = AppState::new();
    s.step(Event::CloseRequested, true);
    let a = s.step(Event::TrayMenu(TrayTag::Show), false);
    assert_eq!(a, Action::LogWindowMissing);
    assert_eq!(s.visibility, Visibility::Hidden);
    assert!(s.running);
}

#[test]
fn tray_quit_exits_zero_when_visible() {
    let mut s = AppState::new();
    let a = s.step(Event::TrayMenu(TrayTag::Quit), true);
    assert_eq!(a, Action::Exit(0));
    assert!(!s.running);
}

#[test]
fn tray_quit_exits_zero_when_hidden() {
    let mut s = AppState::new();
    s.step(Event::CloseRequested, true);
    let a = s.step(Event::TrayMenu(TrayTag::Quit), true);
    assert_eq!(a, Action::Exit(0));
    assert!(!s.running);
}

#[test]
fn unknown_tray_tag_changes_nothing() {
    let mut s = AppState::new();
    let before = s;
    let a = s.step(Event::TrayMenu(TrayTag::Other), true);
    assert_eq!(a, Action::LogUnhandled);
    assert_eq!(s, before);
    assert!(s.running);
}

#[test]
fn second_launch_while_hidden_focuses_only() {
    let mut s = AppState::new();
    s.step(Event::CloseRequested, true);
    let a = s.step(Event::SecondLaunch, true);
    assert_eq!(a, Action::FocusWindow);
    assert_ne!(a, Action::ShowWindow);
    assert_eq!(s.visibility, Visibility::Hidden);
    assert!(!s.is_visible());
}

#[test]
fn second_launch_without_window_is_silent() {
    let mut s = AppState::new();
    let a = s.step(Event::SecondLaunch, false);
    assert_eq!(a, Action::NoOp);
    assert_eq!(s.visibility, Visibility::Visible);
}

#[test]
fn window_ready_asks_one_injection_per_event() {
    let mut s = AppState::new();
    let a = s.step(Event::WindowReady, true);
    assert_eq!(a, Action::InjectStyle);
    let others = [
        Event::CloseRequested,
        Event::TrayMenu(TrayTag::Show),
        Event::SecondLaunch,
        Event::TrayMenu(TrayTag::Other),
    ];
    for e in others {
        let a = s.step(e, true);
        assert_ne!(a, Action::InjectStyle);
    }
}

#[test]
fn window_ready_without_window_skips_injection() {
    let mut s = AppState::new();
    let a = s.step(Event::WindowReady, false);
    assert_eq!(a, Action::NoOp);
}

#[test]
fn no_event_reaches_an_exited_process() {
    let mut s = AppState::new();
    s.step(Event::TrayMenu(TrayTag::Quit), true);
    let dead = s;
    let events = [
        Event::CloseRequested,
        Event::TrayMenu(TrayTag::Show),
        Event::TrayMenu(TrayTag::Quit),
        Event::SecondLaunch,
        Event::WindowReady,
    ];
    for e in events {
        let a = s.step(e, true);
        assert_eq!(a, Action::NoOp);
        assert_eq!(s, dead);
    }
}

#[test]
fn close_to_tray_full_scenario() {
    // Startup: the window is created visible.
    let mut s = AppState::new();
    assert!(s.is_visible());
    // The user closes the window: hidden, process alive.
    let a = s.step(Event::CloseRequested, true);
    assert_eq!(a, Action::PreventCloseAndHide);
    assert!(s.running);
    // The user clicks the tray's show entry: the visibility query
    // answers no, so the window is shown, not merely focused.
    assert!(!s.is_visible());
    let a = s.step(Event::TrayMenu(TrayTag::Show), true);
    assert_eq!(a, Action::ShowWindow);
    assert_eq!(s.visibility, Visibility::Visible);
}

#[test]
fn quit_scenario_exits_with_code_zero() {
    // Startup, then the tray's quit entry: exit code 0.
    let mut s = AppState::new();
    let a = s.step(Event::TrayMenu(TrayTag::Quit), true);
    match a {
        Action::Exit(code) => assert_eq!(code, 0),
        _ => panic!("quit must terminate the process"),
    }
}

#[test]
fn parse_tray_tag_recognizes_the_two_entries() {
    assert_eq!(parse_tray_tag("show"), TrayTag::Show);
    assert_eq!(parse_tray_tag("quit"), TrayTag::Quit);
}

#[test]
fn parse_tray_tag_maps_anything_else_to_other() {
    assert_eq!(parse_tray_tag(""), TrayTag::Other);
    assert_eq!(parse_tray_tag("Show"), TrayTag::Other);
    assert_eq!(parse_tray_tag("restart"), TrayTag::Other);
    assert_eq!(parse_tray_tag("quit "), TrayTag::Other);
}

#[test]
fn tray_menu_has_the_two_fixed_entries() {
    let config = tray_config();
    assert_eq!(config.entries.len(), 2);
    assert_eq!(config.entries[0].tag, "show");
    assert_eq!(config.entries[0].label, "Show");
    assert!(config.entries[0].enabled);
    assert_eq!(config.entries[1].tag, "quit");
    assert_eq!(config.entries[1].label, "Quit");
    assert!(config.entries[1].enabled);
    assert!(config.menu_on_primary_click);
}

#[test]
fn tray_menu_tags_are_exactly_the_recognized_ones() {
    let config = tray_config();
    assert_eq!(parse_tray_tag(config.entries[0].tag.as_str()), TrayTag::Show);
    assert_eq!(parse_tray_tag(config.entries[1].tag.as_str()), TrayTag::Quit);
}

#[test]
fn visibility_query_defaults_to_hidden_on_failure() {
    assert!(visibility_of_query(Some(true)));
    assert!(!visibility_of_query(Some(false)));
    assert!(!visibility_of_query(None));
}

#[test]
fn launch_request_payload_is_ignored() {
    let no_args: Vec<String> = Vec::new();
    let args = vec![String::from("--flag1"), String::from("--flag2")];
    let cwd1 = String::from("/");
    let cwd2 = String::from("/tmp");
    assert_eq!(launch_request_event(&no_args, &cwd1), Event::SecondLaunch);
    assert_eq!(launch_request_event(&args, &cwd2), Event::SecondLaunch);
}
