use curosu::audio::{Request, TapPlayer};
use curosu::number::Number;
use curosu::overlay::hook::{
    cursor_pos, event_count, press_pos, take_press, take_release, HookState, WM_LBUTTONDOWN,
    WM_LBUTTONUP, WM_RBUTTONUP, WM_XBUTTONDOWN,
};
use curosu::overlay::pointer::{CursorLook, Taps, LEFTMOST, RIGHTMOST};
use curosu::overlay::window::{
    handle_tray, is_resizable, is_resize_cursor, is_task_list_thumbnail, preview_below, wnd_proc,
    PreviewWindow,
    Rect, RootWindow, TrayAction, WindowAction, WM_CONTEXTMENU, WM_CREATE, WM_DESTROY,
    WM_DPICHANGED, WM_PAINT, WM_TIMER,
};
use curosu::overlay::{
    configure, FramePlan, Overlay, Step, ToggleAction, MSG_EXIT, MSG_OPEN_SETTINGS,
    MSG_SETTINGS_CHANGED, MSG_TOGGLE_CURSOR, WIDTH_CHANGE, WM_TRAY,
};
use curosu::settings::Settings;

const SECOND: u64 = 1_000_000_000;

fn number(value: f64) -> Number {
    Number::from_bits(value.to_bits())
}

fn overlay() -> Overlay {
    Overlay::new(number(30.0))
}

fn request() -> Request {
    Request { freq: number(1.0), volume: number(1.0), balance: number(0.0) }
}

fn look(handle: usize) -> CursorLook {
    CursorLook { handle, normal: 10, hand: 20, resize: None }
}

#[test]
fn the_first_frame_puts_and_draws_the_window() {
    let mut o = overlay();
    assert_eq!(o.begin_frame(100 * SECOND, 5, true), Some(Step::Nominal));
    let place = Overlay::window_place((500, 400), 64, 160, 160);
    assert_eq!(place, (436, 336, 160, 160));
    assert_eq!(o.render_frame(100 * SECOND, place, false), FramePlan { put: true, draw: true });
    assert_eq!(o.render_frame(100 * SECOND, place, false), FramePlan { put: false, draw: false });
    assert_eq!(o.render_frame(100 * SECOND, place, true), FramePlan { put: false, draw: true });
    let moved = Overlay::window_place((501, 400), 64, 160, 160);
    assert_eq!(o.render_frame(100 * SECOND, moved, false), FramePlan { put: true, draw: false });
}

#[test]
fn steps_of_time_are_bounded() {
    let mut o = overlay();
    o.begin_frame(100 * SECOND, 0, true);
    assert_eq!(o.begin_frame(100 * SECOND + 8_000_000, 0, true), Some(Step::Elapsed(8_000_000)));
    assert_eq!(
        o.begin_frame(100 * SECOND + 108_000_000, 0, true),
        Some(Step::Elapsed(100_000_000))
    );
    assert_eq!(o.begin_frame(100 * SECOND + 208_000_001, 0, true), Some(Step::Nominal));
    assert_eq!(o.begin_frame(100 * SECOND + 208_000_001, 0, true), Some(Step::Nominal));
    assert_eq!(o.begin_frame(99 * SECOND, 0, true), Some(Step::Nominal));
}

#[test]
fn the_window_returns_to_the_top() {
    let mut o = overlay();
    let place = (0, 0, 160, 160);
    o.begin_frame(100 * SECOND, 1, true);
    o.render_frame(100 * SECOND, place, false);
    o.begin_frame(100 * SECOND + 199_999_999, 1, true);
    assert!(!o.render_frame(100 * SECOND + 199_999_999, place, false).put);
    o.begin_frame(100 * SECOND + 200_000_000, 1, true);
    assert!(o.render_frame(100 * SECOND + 200_000_000, place, false).put);
    o.begin_frame(100 * SECOND + 200_000_001, 2, true);
    assert!(o.render_frame(100 * SECOND + 200_000_001, place, false).put);
    o.begin_frame(100 * SECOND + 200_000_002, 2, false);
    assert!(o.render_frame(100 * SECOND + 200_000_002, place, false).put);
}

#[test]
fn other_dots_per_inch_are_drawn_at_once() {
    let mut o = overlay();
    let place = (0, 0, 160, 160);
    o.render_frame(SECOND, place, false);
    assert!(o.wants_dpi(7));
    assert!(!o.wants_dpi(0));
    o.update_dpi(7, None);
    assert!(o.wants_dpi(7));
    o.update_dpi(7, Some(96));
    assert!(!o.wants_dpi(7));
    assert_eq!(o.render_frame(SECOND, place, false), FramePlan { put: false, draw: false });
    o.update_dpi(7, Some(144));
    assert_eq!(o.dpi, 96);
    o.update_dpi(8, Some(144));
    assert_eq!(o.dpi, 144);
    assert_eq!(o.render_frame(SECOND, place, false), FramePlan { put: true, draw: true });
}

#[test]
fn a_silent_hook_is_put_in_place_anew() {
    let mut o = overlay();
    o.hook_installed(true, 3, 100 * SECOND);
    assert!(!o.check_hook_health(120 * SECOND, 3, (1, 1)));
    assert!(!o.check_hook_health(121 * SECOND, 3, (1, 1)));
    assert!(o.check_hook_health(121 * SECOND, 3, (2, 1)));
    o.hook_installed(true, 3, 121 * SECOND);
    assert!(!o.check_hook_health(122 * SECOND, 3, (3, 1)));
    assert!(!o.check_hook_health(150 * SECOND, 4, (4, 1)));
    assert!(!o.check_hook_health(170 * SECOND, 4, (5, 1)));
    assert!(o.check_hook_health(170 * SECOND + 1, 4, (6, 1)));
    o.hook_installed(false, 4, 171 * SECOND);
    assert!(!o.check_hook_health(300 * SECOND, 4, (7, 1)));
}

#[test]
fn reports_of_the_hook_are_taken_once() {
    let mut hook = HookState::new();
    hook.low_level_mouse_proc(-1, WM_LBUTTONDOWN, (9, 9));
    assert_eq!(event_count(&hook), 0);
    hook.low_level_mouse_proc(0, WM_XBUTTONDOWN, (3, 4));
    hook.low_level_mouse_proc(0, 0x0200, (5, 6));
    hook.low_level_mouse_proc(0, WM_RBUTTONUP, (7, 8));
    assert_eq!(cursor_pos(&hook), (7, 8));
    assert_eq!(press_pos(&hook), (3, 4));
    assert_eq!(event_count(&hook), 3);
    assert!(take_press(&mut hook));
    assert!(!take_press(&mut hook));
    assert!(take_release(&mut hook));
    assert!(!take_release(&mut hook));
    hook.poll_position(Some((1, 2)));
    assert_eq!(cursor_pos(&hook), (1, 2));
    hook.poll_position(None);
    assert_eq!(cursor_pos(&hook), (1, 2));
    hook.events = u64::MAX;
    hook.low_level_mouse_proc(0, 0x0200, (0, 0));
    assert_eq!(event_count(&hook), 0);
}

#[test]
fn a_press_and_a_release_in_one_frame_are_both_seen() {
    let mut o = overlay();
    o.hook_installed(true, 0, SECOND);
    let mut hook = HookState::new();
    hook.low_level_mouse_proc(0, WM_LBUTTONDOWN, (10, 20));
    hook.low_level_mouse_proc(0, WM_LBUTTONUP, (11, 21));
    let taps = o.update_mouse_state(&mut hook, false, false, number(1080.0));
    assert_eq!(taps, Taps { down: true, up: true });
    assert!(!o.anim.mouse_down);
    assert_eq!(o.down_start, (10, 20));
    assert_eq!(
        o.update_mouse_state(&mut hook, true, false, number(1080.0)),
        Taps { down: false, up: false }
    );
}

#[test]
fn without_a_hook_the_button_is_polled() {
    let mut o = overlay();
    let mut hook = HookState::new();
    hook.poll_position(Some((30, 40)));
    let end = number(1080.0);
    assert_eq!(o.update_mouse_state(&mut hook, true, false, end), Taps { down: true, up: false });
    assert!(o.anim.mouse_down);
    assert_eq!(o.down_start, (30, 40));
    assert_eq!(o.update_mouse_state(&mut hook, true, false, end), Taps { down: false, up: false });
    assert_eq!(o.update_mouse_state(&mut hook, false, false, end), Taps { down: false, up: true });
    assert!(!o.anim.mouse_down);
}

#[test]
fn the_windows_key_puts_the_window_on_top() {
    let mut o = overlay();
    let mut hook = HookState::new();
    o.render_frame(SECOND, (0, 0, 1, 1), false);
    o.update_mouse_state(&mut hook, false, false, number(0.0));
    assert!(!o.force_topmost);
    o.update_mouse_state(&mut hook, false, true, number(0.0));
    assert!(o.force_topmost);
}

#[test]
fn a_press_becomes_a_drag_beyond_the_width() {
    let mut o = overlay();
    assert_eq!(o.drag_distance((3, 4)), None);
    o.begin_press((100, 100));
    assert_eq!(o.drag_offset((103, 96)), (3, -4));
    assert_eq!(o.drag_distance((103, 96)), Some(25));
    o.update_drag(number(900.0), number(900.0));
    assert!(!o.anim.drag_active);
    o.update_drag(number(901.0), number(900.0));
    assert!(o.anim.drag_active);
    assert_eq!(o.drag_distance((103, 96)), None);
    o.end_press(number(1080.0));
    assert!(!o.anim.drag_active);
}

#[test]
fn hovering_sounds_when_it_begins() {
    let mut o = overlay();
    assert!(!o.update_hover(look(10)));
    assert!(o.update_hover(look(20)));
    assert!(o.anim.pointer_hover);
    assert!(!o.update_hover(look(20)));
    assert!(!o.update_hover(look(10)));
    assert!(!o.anim.pointer_hover);
    assert!(o.update_hover(look(30)));
    assert!(!o.anim.pointer_hover);
    o.update_hover(look(10));
    o.begin_press((0, 0));
    assert!(!o.update_hover(look(20)));
}

#[test]
fn the_first_cursor_is_taken_for_the_ordinary_one() {
    let mut o = overlay();
    assert!(!o.update_hover(look(30)));
    assert_eq!(o.baseline_normal_handle, 30);
    assert!(!o.update_hover(look(0)));
    assert_eq!(o.baseline_normal_handle, 0);
}

#[test]
fn borders_sound_where_that_is_asked_for() {
    let mut o = overlay();
    let on = CursorLook { resize: Some(true), ..look(20) };
    let off = CursorLook { resize: Some(false), ..look(20) };
    assert!(!o.update_hover(off));
    assert!(o.update_hover(on));
    assert!(!o.update_hover(on));
    assert!(!o.update_hover(off));
    assert!(o.update_hover(on));
}

#[test]
fn sounds_follow_the_settings() {
    let mut settings = Settings::default();
    let player = TapPlayer::new();
    assert!(Overlay::play_tap(&settings, &player, request()).is_some());
    settings.tap_sound_volume = number(0.0);
    assert!(Overlay::play_tap(&settings, &player, request()).is_none());
    settings.tap_sound_volume = number(0.1);
    settings.tap_sound_enabled = false;
    assert!(Overlay::play_tap(&settings, &player, request()).is_none());

    let mut o = overlay();
    assert!(o.play_hover(&settings, SECOND, &player, request()).is_some());
    assert!(o.play_hover(&settings, SECOND + 19_999_999, &player, request()).is_none());
    assert!(o.play_hover(&settings, SECOND + 20_000_000, &player, request()).is_some());
    settings.hover_sound_volume = number(-1.0);
    assert!(o.play_hover(&settings, 2 * SECOND, &player, request()).is_none());
    settings.hover_sound_volume = number(1.0);
    settings.hover_sound_enabled = false;
    assert!(o.play_hover(&settings, 2 * SECOND, &player, request()).is_none());
}

#[test]
fn sounds_do_not_come_from_the_very_side() {
    assert_eq!(LEFTMOST, (-0.6f64).to_bits());
    assert_eq!(RIGHTMOST, 0.6f64.to_bits());
    assert_eq!(Overlay::get_balance(number(-1.0)).bits, (-0.6f64).to_bits());
    assert_eq!(Overlay::get_balance(number(0.25)).bits, 0.25f64.to_bits());
    assert_eq!(Overlay::get_balance(number(1.0)).bits, 0.6f64.to_bits());
}

#[test]
fn previews_are_looked_for_rarely() {
    let mut o = overlay();
    assert!(o.try_bring_above_taskbar_preview(SECOND));
    assert!(!o.try_bring_above_taskbar_preview(SECOND + 249_999_999));
    assert!(o.try_bring_above_taskbar_preview(SECOND + 250_000_000));
}

#[test]
fn the_window_goes_above_a_preview() {
    let here = Rect { left: 0, top: 0, right: 10, bottom: 10 };
    let windows = [
        PreviewWindow { handle: 1, rect: None },
        PreviewWindow { handle: 2, rect: Some(Rect { left: 10, ..here }) },
        PreviewWindow { handle: 3, rect: Some(here) },
        PreviewWindow { handle: 4, rect: Some(here) },
    ];
    assert_eq!(preview_below(9, true, &windows, 5, 5), Some(9));
    assert_eq!(preview_below(9, false, &windows, 5, 5), Some(3));
    assert_eq!(preview_below(0, true, &windows, 9, 9), Some(3));
    assert_eq!(preview_below(0, false, &windows, 10, 10), None);
    let name: Vec<u16> = "TaskListThumbnailWnd".encode_utf16().collect();
    assert!(is_task_list_thumbnail(&name));
    assert!(!is_task_list_thumbnail(&name[1..]));
}

#[test]
fn switching_off_and_on_draws_anew() {
    let mut o = overlay();
    o.hook_installed(true, 1, SECOND);
    o.render_frame(SECOND, (0, 0, 1, 1), false);
    assert_eq!(o.toggle_enabled(true), ToggleAction::Nothing);
    assert_eq!(o.toggle_enabled(false), ToggleAction::Remove);
    assert!(!o.mouse_hook_active);
    assert_eq!(o.begin_frame(2 * SECOND, 0, true), None);
    assert_eq!(o.toggle_enabled(true), ToggleAction::Install);
    o.not_enabled();
    assert_eq!(o.begin_frame(2 * SECOND, 0, true), None);
    assert_eq!(o.toggle_enabled(true), ToggleAction::Install);
    o.enabled(true, 5, 3 * SECOND, (8, 9));
    assert!(o.mouse_hook_active);
    assert_eq!(o.health_pos, (8, 9));
    assert_eq!(
        o.render_frame(3 * SECOND, (0, 0, 1, 1), false),
        FramePlan { put: true, draw: true }
    );
}

#[test]
fn changed_settings_are_taken_over() {
    assert_eq!(WIDTH_CHANGE, 0.001f64.to_bits());
    let mut o = overlay();
    o.render_frame(SECOND, (0, 0, 1, 1), false);
    let mut settings = Settings::default();
    settings.tap_sound_enabled = false;
    let mut tap = TapPlayer::new();
    let mut hover = TapPlayer::new();
    o.reapply_settings(&settings, &mut tap, &mut hover, 300, 2000, number(0.001));
    assert!(!tap.enabled);
    assert_eq!(tap.volume, 300);
    assert!(hover.enabled);
    assert_eq!(hover.volume, 1000);
    assert!(!o.force_topmost);
    settings.cursor_width = number(500.0);
    o.reapply_settings(&settings, &mut tap, &mut hover, 300, 2000, number(34.0));
    assert_eq!(o.cursor_width.bits, 64.0f64.to_bits());
    assert!(o.force_topmost);
    configure(&mut tap, true, 7);
    assert!(tap.enabled);
    assert_eq!(tap.volume, 7);
}

#[test]
fn borders_of_resizable_windows_are_found() {
    let rect = Rect { left: 100, top: 100, right: 300, bottom: 200 };
    let root = RootWindow { handle: 5, style: 0x0004_0000, rect: Some(rect) };
    assert!(is_resize_cursor(root, 1, 104, 150, 4, 4));
    assert!(!is_resize_cursor(root, 1, 105, 150, 4, 4));
    assert!(is_resize_cursor(root, 1, 296, 150, 4, 4));
    assert!(is_resize_cursor(root, 1, 200, 101, 0, -3));
    assert!(!is_resize_cursor(root, 1, 200, 102, 0, 0));
    assert!(is_resize_cursor(root, 1, 200, 199, 0, 0));
    assert!(!is_resize_cursor(root, 5, 104, 150, 4, 4));
    assert!(!is_resize_cursor(RootWindow { handle: 0, ..root }, 1, 104, 150, 4, 4));
    assert!(!is_resize_cursor(RootWindow { style: 0x0104_0000, ..root }, 1, 104, 150, 4, 4));
    assert!(!is_resize_cursor(RootWindow { style: 0, ..root }, 1, 104, 150, 4, 4));
    assert!(!is_resize_cursor(RootWindow { rect: None, ..root }, 1, 104, 150, 4, 4));
}

#[test]
fn edges_of_other_windows_do_not_count() {
    let far = Rect { left: i32::MAX, top: 0, right: i32::MIN, bottom: 0 };
    let root = RootWindow { handle: 5, style: 0x0104_0000, rect: Some(far) };
    assert!(!is_resizable(root, 1));
    assert!(!is_resize_cursor(root, 1, 0, 0, 4, 4));
    let plain = RootWindow { style: 0x0004_0000, ..root };
    assert!(is_resizable(plain, 1));
    assert!(!is_resizable(plain, 5));
    assert!(!is_resizable(RootWindow { handle: 0, ..plain }, 1));
    assert!(!is_resizable(RootWindow { rect: None, ..plain }, 1));
}

#[test]
fn messages_ask_for_their_actions() {
    assert_eq!(wnd_proc(WM_CREATE, true), WindowAction::Done);
    assert_eq!(wnd_proc(WM_TIMER, true), WindowAction::Frame);
    assert_eq!(wnd_proc(WM_PAINT, true), WindowAction::Frame);
    assert_eq!(wnd_proc(WM_PAINT, false), WindowAction::Done);
    assert_eq!(wnd_proc(WM_DPICHANGED, true), WindowAction::ForceTopmost);
    assert_eq!(wnd_proc(WM_TRAY, true), WindowAction::Tray);
    assert_eq!(wnd_proc(MSG_TOGGLE_CURSOR, true), WindowAction::Toggle);
    assert_eq!(wnd_proc(MSG_OPEN_SETTINGS, true), WindowAction::OpenSettings);
    assert_eq!(wnd_proc(MSG_SETTINGS_CHANGED, true), WindowAction::Reapply);
    assert_eq!(wnd_proc(MSG_SETTINGS_CHANGED, false), WindowAction::Done);
    assert_eq!(wnd_proc(MSG_EXIT, false), WindowAction::Quit);
    assert_eq!(wnd_proc(WM_DESTROY, true), WindowAction::Quit);
    assert_eq!(wnd_proc(0x0003, true), WindowAction::PassOn);
}

#[test]
fn the_icon_opens_menu_or_settings() {
    assert_eq!(handle_tray(WM_RBUTTONUP), TrayAction::Menu);
    assert_eq!(handle_tray(WM_CONTEXTMENU), TrayAction::Menu);
    assert_eq!(handle_tray(WM_LBUTTONUP), TrayAction::Settings);
    assert_eq!(handle_tray(WM_LBUTTONDOWN), TrayAction::Nothing);
}
