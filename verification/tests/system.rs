use curosu::autostart::{applied, apply, startup_command, startup_path, RunEntry};
use curosu::log::log;
use curosu::overlay::{MSG_EXIT, MSG_OPEN_SETTINGS, MSG_TOGGLE_CURSOR};
use curosu::system_cursor::{
    blank_masks, cursor_ids, fallback_size, SystemCursors, OCR_HAND, OCR_HELP, OCR_NORMAL,
};
use curosu::text::{equal_ignoring_case, from_wide, to_wide};
use curosu::tray::{
    menu_message, menu_position, show_menu, tip, Tray, MENU_EXIT, MENU_SETTINGS, MENU_TOGGLE,
    TIP_ROOM,
};

#[test]
fn startup_command_quotes_paths_with_spaces() {
    assert_eq!(
        startup_command(r"C:\Program Files\Curosu\curosu.exe"),
        r#""C:\Program Files\Curosu\curosu.exe""#
    );
}

#[test]
fn installed_program_is_started_before_the_running_one() {
    let running = Some("D:\\build\\curosu.exe".to_string());
    assert_eq!(startup_path(true, running.clone()), r"C:\Program Files\Curosu\curosu.exe");
    assert_eq!(startup_path(false, running), "D:\\build\\curosu.exe");
    assert_eq!(startup_path(false, None), "");
}

#[test]
fn run_entry_is_written_erased_or_refused() {
    match apply(true, "C:\\a b.exe") {
        RunEntry::Write { command } => assert_eq!(command, "\"C:\\a b.exe\""),
        _ => panic!("the entry is to be written"),
    }
    assert!(matches!(apply(true, ""), RunEntry::Refuse));
    assert!(matches!(apply(false, ""), RunEntry::Erase));
    assert!(matches!(apply(false, "C:\\a.exe"), RunEntry::Erase));
}

#[test]
fn switching_the_start_succeeds_if_the_call_does() {
    for enabled in [true, false] {
        for path in ["", "C:\\a.exe"] {
            let entry = apply(enabled, path);
            for opened in [true, false] {
                for code in [0, 5, -1] {
                    let expected = opened && (!enabled || !path.is_empty()) && code == 0;
                    assert_eq!(applied(&entry, opened, code), expected);
                }
            }
        }
    }
}

#[test]
fn logging_is_silent() {
    log("nothing happens");
}

#[test]
fn wide_strings_match_those_of_std() {
    for s in ["", "Curosu", "设置", "a😀b", "\u{10FFFF}\u{E000}"] {
        let mut expected: Vec<u16> = s.encode_utf16().collect();
        assert_eq!(from_wide(&expected), s);
        expected.push(0);
        assert_eq!(to_wide(s), expected);
    }
}

#[test]
fn lone_surrogates_become_the_replacement() {
    let cases: [&[u16]; 6] = [
        &[0xD800],
        &[0xDC00, 0x41],
        &[0xD800, 0x41],
        &[0xD800, 0xD83D, 0xDE00],
        &[0x41, 0xDBFF],
        &[0xDC00, 0xD800],
    ];
    for units in cases {
        assert_eq!(from_wide(units), String::from_utf16_lossy(units));
    }
}

#[test]
fn installed_cursors_are_found_again() {
    let mut cursors = SystemCursors::new();
    assert!(cursors.wants_install());
    assert_eq!(cursors.get_blank_handle(OCR_NORMAL), 0);
    let results: Vec<Option<usize>> = (0..14).map(|i| Some(100 + i)).collect();
    assert!(cursors.install(&results));
    assert!(!cursors.wants_install());
    assert_eq!(cursors.get_blank_handle(OCR_NORMAL), 100);
    assert_eq!(cursors.get_blank_handle(OCR_HAND), 111);
    assert_eq!(cursors.get_blank_handle(OCR_HELP), 113);
    assert_eq!(cursors.get_blank_handle(1), 0);
    assert!(cursors.restore());
    assert_eq!(cursors.get_blank_handle(OCR_NORMAL), 0);
    assert!(!cursors.restore());
    assert!(cursors.wants_install());
}

#[test]
fn only_the_ordinary_cursor_counts_as_installed() {
    let mut cursors = SystemCursors::new();
    let mut results: Vec<Option<usize>> = vec![None; 14];
    results[11] = Some(7);
    assert!(!cursors.install(&results));
    assert_eq!(cursors.get_blank_handle(OCR_HAND), 7);
    assert!(!cursors.restore());
}

#[test]
fn fallback_counts_if_the_ordinary_cursor_was_replaced() {
    let mut cursors = SystemCursors::new();
    assert!(!cursors.install_static_fallback(None));
    let mut results = [true; 14];
    assert!(cursors.install_static_fallback(Some(&results)));
    assert!(cursors.restore());
    results[0] = false;
    assert!(!cursors.install_static_fallback(Some(&results)));
    assert!(!cursors.restore());
}

#[test]
fn fallback_sizes_stay_in_range() {
    assert_eq!(fallback_size(3), 16);
    assert_eq!(fallback_size(30), 30);
    assert_eq!(fallback_size(100), 64);
}

#[test]
fn blank_cursor_is_transparent() {
    let (and_mask, xor_mask) = blank_masks();
    assert_eq!(and_mask, vec![0xFFu8; 128]);
    assert_eq!(xor_mask, vec![0u8; 128]);
    assert_eq!(cursor_ids()[0], OCR_NORMAL);
    assert_eq!(cursor_ids()[11], OCR_HAND);
}

#[test]
fn tray_icon_is_removed_if_it_was_added() {
    let mut tray = Tray::new();
    assert!(!tray.remove());
    assert!(!tray.add(false));
    assert!(!tray.remove());
    assert!(tray.add(true));
    assert!(tray.remove());
    assert!(!tray.remove());
}

#[test]
fn menu_offers_what_the_cursor_is_not() {
    assert_eq!(show_menu(true), ["设置", "关闭光标", "退出"]);
    assert_eq!(show_menu(false), ["设置", "打开光标", "退出"]);
}

#[test]
fn menu_entries_send_their_messages() {
    assert_eq!(menu_message(MENU_SETTINGS), Some(MSG_OPEN_SETTINGS));
    assert_eq!(menu_message(MENU_TOGGLE), Some(MSG_TOGGLE_CURSOR));
    assert_eq!(menu_message(MENU_EXIT), Some(MSG_EXIT));
    assert_eq!(menu_message(0), None);
    assert_eq!(menu_position(Some((3, -4))), (3, -4));
    assert_eq!(menu_position(None), (100, 100));
}

#[test]
fn tip_has_room() {
    let expected: Vec<u16> = "Curosu\0".encode_utf16().collect();
    assert_eq!(tip(), expected);
    assert!(tip().len() <= TIP_ROOM);
}

#[test]
fn only_the_case_of_ascii_letters_is_left_aside() {
    assert!(equal_ignoring_case("", ""));
    assert!(equal_ignoring_case("Game.EXE", "gAME.exe"));
    assert!(equal_ignoring_case("AZ", "az"));
    assert!(!equal_ignoring_case("@[", "`{"));
    assert!(!equal_ignoring_case("\u{C4}", "\u{E4}"));
    assert!(!equal_ignoring_case("\u{212A}", "k"));
    assert!(!equal_ignoring_case("game", "game.exe"));
    assert!(equal_ignoring_case("\u{8BBE}\u{7F6E}A", "\u{8BBE}\u{7F6E}a"));
}
