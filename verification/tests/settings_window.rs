use curosu::choices::{
    collect_visible_window, enumerate_visible_windows, sort_choices, WindowChoice, WindowSeen,
};
use curosu::overlay::window::Rect;
use curosu::settings::Settings;
use curosu::settings_ui::{
    ensure_started, font_order, frame_outcome, hit_test, message_point, queried_path, quit, show,
    CloseAction, CommandAction, ProgramPicker, SettingsThread, ShowAction, UiCmd, HTBOTTOM,
    HTBOTTOMLEFT, HTBOTTOMRIGHT, HTLEFT, HTRIGHT, HTTOP, HTTOPLEFT, HTTOPRIGHT,
};

fn seen(visible: bool, title: &str, executable: Option<&str>) -> WindowSeen {
    WindowSeen {
        visible,
        title: title.encode_utf16().collect(),
        executable: executable.map(str::to_string),
    }
}

fn choice(executable: &str, label: &str) -> WindowChoice {
    WindowChoice { executable: executable.to_string(), label: label.to_string() }
}

fn labels(list: &[WindowChoice]) -> Vec<&str> {
    list.iter().map(|c| c.label.as_str()).collect()
}

#[test]
fn the_thread_is_started_once() {
    let mut thread = SettingsThread::new();
    assert_eq!(show(&thread), ShowAction::Nothing);
    assert_eq!(quit(&thread), None);
    assert!(ensure_started(&mut thread));
    assert!(!ensure_started(&mut thread));
    assert_eq!(show(&thread), ShowAction::Send(UiCmd::Show));
    assert_eq!(quit(&thread), Some(UiCmd::Quit));
}

#[test]
fn a_known_window_is_raised() {
    let mut thread = SettingsThread::new();
    ensure_started(&mut thread);
    assert_eq!(thread.handle_command(UiCmd::Show), CommandAction::ShowViewport);
    assert_eq!(thread.close_requested(), CloseAction::HideViewport);
    let mut found = false;
    assert!(!thread.find_own_hwnd(&mut found, 0));
    assert!(!found);
    assert!(thread.find_own_hwnd(&mut found, 42));
    assert!(found);
    assert!(!thread.find_own_hwnd(&mut found, 43));
    assert_eq!(show(&thread), ShowAction::Raise(42));
    assert_eq!(thread.handle_command(UiCmd::Show), CommandAction::Raise(42));
    assert_eq!(thread.handle_command(UiCmd::Quit), CommandAction::CloseViewport);
}

#[test]
fn closing_only_hides_the_window() {
    let mut thread = SettingsThread::new();
    let mut found = false;
    thread.find_own_hwnd(&mut found, 7);
    assert_eq!(thread.close_requested(), CloseAction::Hide(7));
}

#[test]
fn quitting_closes_the_window() {
    for window in [0, 7] {
        let mut thread = SettingsThread { started: true, window, quitting: false };
        thread.handle_command(UiCmd::Show);
        assert_ne!(thread.close_requested(), CloseAction::LetClose);
        assert_eq!(thread.handle_command(UiCmd::Quit), CommandAction::CloseViewport);
        assert_eq!(thread.close_requested(), CloseAction::LetClose);
        thread.handle_command(UiCmd::Show);
        assert_eq!(thread.close_requested(), CloseAction::LetClose);
    }
}

#[test]
fn points_of_messages_are_signed() {
    assert_eq!(message_point(0x0002_0001), (1, 2));
    assert_eq!(message_point(0xFFFE_FFFF), (-1, -2));
    assert_eq!(message_point(0x8000_7FFF), (32767, -32768));
}

#[test]
fn borders_are_eight_pixels_wide() {
    let rect = Rect { left: 100, top: 200, right: 300, bottom: 400 };
    assert_eq!(hit_test(rect, 100, 200), Some(HTTOPLEFT));
    assert_eq!(hit_test(rect, 299, 207), Some(HTTOPRIGHT));
    assert_eq!(hit_test(rect, 200, 207), Some(HTTOP));
    assert_eq!(hit_test(rect, 107, 399), Some(HTBOTTOMLEFT));
    assert_eq!(hit_test(rect, 293, 393), Some(HTBOTTOMRIGHT));
    assert_eq!(hit_test(rect, 200, 393), Some(HTBOTTOM));
    assert_eq!(hit_test(rect, 107, 300), Some(HTLEFT));
    assert_eq!(hit_test(rect, 293, 300), Some(HTRIGHT));
    assert_eq!(hit_test(rect, 108, 208), None);
    assert_eq!(hit_test(rect, 292, 392), None);
}

#[test]
fn windows_that_do_not_count_are_left_out() {
    let mut list = Vec::new();
    collect_visible_window(&mut list, &seen(false, "hidden", Some("a.exe")));
    collect_visible_window(&mut list, &seen(true, "", Some("b.exe")));
    collect_visible_window(&mut list, &seen(true, "unknown", None));
    collect_visible_window(&mut list, &seen(true, "own", Some("CurOsu.EXE")));
    assert!(list.is_empty());
    collect_visible_window(&mut list, &seen(true, "first", Some("game.exe")));
    collect_visible_window(&mut list, &seen(true, "second", Some("GAME.exe")));
    assert_eq!(labels(&list), ["game.exe — first"]);
}

#[test]
fn programs_are_offered_in_the_order_of_their_labels() {
    let windows = vec![
        seen(true, "z", Some("b.exe")),
        seen(true, "设置", Some("é.exe")),
        seen(true, "y", Some("a.exe")),
        seen(true, "x", Some("B.exe")),
        seen(true, "w", Some("Z.exe")),
    ];
    let list = enumerate_visible_windows(&windows);
    assert_eq!(
        labels(&list),
        ["Z.exe — w", "a.exe — y", "b.exe — z", "é.exe — 设置"]
    );
}

#[test]
fn equal_labels_keep_their_order() {
    let list = vec![
        choice("1", "same"),
        choice("2", "before"),
        choice("3", "same"),
        choice("4", "sam"),
        choice("5", "same"),
    ];
    let sorted = sort_choices(&list);
    let order: Vec<&str> = sorted.iter().map(|c| c.executable.as_str()).collect();
    assert_eq!(order, ["2", "4", "1", "3", "5"]);
}

#[test]
fn a_choice_that_is_gone_is_dropped() {
    let both = vec![seen(true, "1", Some("a.exe")), seen(true, "2", Some("b.exe"))];
    let mut picker = ProgramPicker::new(&both);
    assert_eq!(picker.selected_label(), "选择窗口…");
    assert!(!picker.can_add());
    picker.select(1);
    assert!(picker.is_selected(1));
    assert!(!picker.is_selected(0));
    assert_eq!(picker.selected_label(), "b.exe — 2");
    picker.refresh_selectable_windows(&vec![seen(true, "3", Some("b.exe"))]);
    assert!(picker.can_add());
    assert_eq!(picker.selected_label(), "b.exe — 3");
    picker.refresh_selectable_windows(&vec![seen(true, "4", Some("B.exe"))]);
    assert!(!picker.can_add());
    assert_eq!(picker.selected_label(), "选择窗口…");
    picker.refresh_selectable_windows(&Vec::new());
    assert!(picker.is_empty());
}

#[test]
fn the_chosen_program_is_added_once() {
    let mut settings = Settings::default();
    let mut picker = ProgramPicker::new(&vec![seen(true, "1", Some("a.exe"))]);
    picker.add_selected(&mut settings);
    assert!(settings.fullscreen_overlay_exclusion_executables.is_empty());
    picker.select(0);
    picker.add_selected(&mut settings);
    picker.add_selected(&mut settings);
    assert_eq!(settings.fullscreen_overlay_exclusion_executables, ["a.exe"]);
}

#[test]
fn fonts_are_put_before_the_others() {
    let others = vec!["Hack".to_string(), "Emoji".to_string()];
    assert_eq!(font_order(true, others.clone()), ["torus", "msyh", "Hack", "Emoji"]);
    assert_eq!(font_order(false, others), ["torus", "Hack", "Emoji"]);
}

#[test]
fn only_changed_settings_are_stored() {
    let before = Settings::default();
    assert!(frame_outcome(&before, &before.clone()).is_none());
    let mut after = before.clone();
    after.add_exclusion("game.exe");
    after.auto_start = true;
    let stored = frame_outcome(&before, &after).expect("a change");
    assert!(stored.auto_start);
    assert_eq!(stored.fullscreen_overlay_exclusion_executables, Some(vec!["game.exe".to_string()]));
    assert!(Settings::load(Some(stored)).same_as(&after));
    assert!(frame_outcome(&after, &before).is_some());
    after = before.clone();
    after.tap_sound_volume.bits = f64::NAN.to_bits();
    assert!(frame_outcome(&after, &after.clone()).is_some());
}

#[test]
fn failed_queries_give_no_path() {
    let units: Vec<u16> = r"C:\games\game.exe".encode_utf16().collect();
    let path = queried_path(1, &units, units.len() as u32).expect("a path");
    assert_eq!(path, r"C:\games\game.exe");
    assert_eq!(queried_path(1, &units, 2).expect("its start"), "C:");
    assert!(queried_path(1, &units, 0).is_none());
    assert!(queried_path(0, &units, 2).is_none());
    assert!(queried_path(0, &[], 1024).is_none());
}
