//! Windows and their messages: what a message asks for, where a point lies, and which
//! window the overlay has to stand above.

use vstd::prelude::*;

use crate::overlay::hook::{WM_LBUTTONUP, WM_RBUTTONUP};
use crate::overlay::{
    MSG_EXIT, MSG_OPEN_SETTINGS, MSG_SETTINGS_CHANGED, MSG_TOGGLE_CURSOR, WM_TRAY,
};
use crate::text;

verus! {

pub const WM_CREATE: u32 = 0x0001;

pub const WM_DESTROY: u32 = 0x0002;

pub const WM_PAINT: u32 = 0x000F;

pub const WM_CONTEXTMENU: u32 = 0x007B;

pub const WM_TIMER: u32 = 0x0113;

pub const WM_DPICHANGED: u32 = 0x02E0;

/// The style of a maximized window.
pub const WS_MAXIMIZE: u32 = 0x0100_0000;

/// The style of a window with a border that can be dragged.
pub const WS_THICKFRAME: u32 = 0x0004_0000;

/// The class of the preview windows above the task bar.
pub const THUMBNAIL_CLASS: &'static str = "TaskListThumbnailWnd";

/// Whether a number can be held in 32 bits with a sign.
pub open spec fn fits_i32(value: int) -> bool {
    i32::MIN <= value <= i32::MAX
}

/// A rectangle on the screen. Its right and bottom edges are outside.
#[derive(Clone, Copy, Debug, PartialEq, Eq)]
pub struct Rect {
    pub left: i32,
    pub top: i32,
    pub right: i32,
    pub bottom: i32,
}

impl Rect {
    /// Whether a point lies in it.
    pub open spec fn holds(self, x: int, y: int) -> bool {
        self.left <= x < self.right && self.top <= y < self.bottom
    }

    /// Tells whether a point lies in it.
    pub fn contains(&self, x: i32, y: i32) -> (r: bool)
        ensures
            r == self.holds(x as int, y as int),
    {
        x >= self.left && x < self.right && y >= self.top && y < self.bottom
    }
}

/// What a message to the overlay's window asks for.
#[derive(Clone, Copy, Debug, PartialEq, Eq, Structural)]
pub enum WindowAction {
    /// Nothing more.
    Done,
    /// A frame.
    Frame,
    /// To be put on top in the next frame.
    ForceTopmost,
    /// To see to the icon in the tray.
    Tray,
    /// To switch the cursor on or off.
    Toggle,
    /// To show the settings.
    OpenSettings,
    /// To take over changed settings.
    Reapply,
    /// To end the program.
    Quit,
    /// What the system does with messages it is left with.
    PassOn,
}

/// What a message asks for. While there is no overlay yet, what is for it is dropped.
pub open spec fn action_for(message: u32, ready: bool) -> WindowAction {
    if message == WM_CREATE {
        WindowAction::Done
    } else if message == MSG_EXIT || message == WM_DESTROY {
        WindowAction::Quit
    } else if message == WM_TIMER || message == WM_PAINT {
        if ready {
            WindowAction::Frame
        } else {
            WindowAction::Done
        }
    } else if message == WM_DPICHANGED {
        if ready {
            WindowAction::ForceTopmost
        } else {
            WindowAction::Done
        }
    } else if message == WM_TRAY {
        if ready {
            WindowAction::Tray
        } else {
            WindowAction::Done
        }
    } else if message == MSG_TOGGLE_CURSOR {
        if ready {
            WindowAction::Toggle
        } else {
            WindowAction::Done
        }
    } else if message == MSG_OPEN_SETTINGS {
        if ready {
            WindowAction::OpenSettings
        } else {
            WindowAction::Done
        }
    } else if message == MSG_SETTINGS_CHANGED {
        if ready {
            WindowAction::Reapply
        } else {
            WindowAction::Done
        }
    } else {
        WindowAction::PassOn
    }
}

/// Says what a message to the overlay's window asks for.
pub fn wnd_proc(message: u32, ready: bool) -> (r: WindowAction)
    ensures
        r == action_for(message, ready),
{
    let action: WindowAction = if message == WM_TIMER || message == WM_PAINT {
        WindowAction::Frame
    } else if message == WM_DPICHANGED {
        WindowAction::ForceTopmost
    } else if message == WM_TRAY {
        WindowAction::Tray
    } else if message == MSG_TOGGLE_CURSOR {
        WindowAction::Toggle
    } else if message == MSG_OPEN_SETTINGS {
        WindowAction::OpenSettings
    } else if message == MSG_SETTINGS_CHANGED {
        WindowAction::Reapply
    } else if message == MSG_EXIT || message == WM_DESTROY {
        return WindowAction::Quit;
    } else if message == WM_CREATE {
        return WindowAction::Done;
    } else {
        return WindowAction::PassOn;
    };
    if ready {
        action
    } else {
        WindowAction::Done
    }
}

/// What an event on the icon in the tray asks for.
#[derive(Clone, Copy, Debug, PartialEq, Eq, Structural)]
pub enum TrayAction {
    /// The menu.
    Menu,
    /// The settings.
    Settings,
    /// Nothing.
    Nothing,
}

/// Says what an event on the icon asks for: the right button the menu, the left one the
/// settings.
pub fn handle_tray(event: u32) -> (r: TrayAction)
    ensures
        r == TrayAction::Menu <==> event == WM_RBUTTONUP || event == WM_CONTEXTMENU,
        r == TrayAction::Settings <==> event == WM_LBUTTONUP,
{
    if event == WM_RBUTTONUP || event == WM_CONTEXTMENU {
        TrayAction::Menu
    } else if event == WM_LBUTTONUP {
        TrayAction::Settings
    } else {
        TrayAction::Nothing
    }
}

/// The outermost window under the cursor, as far as the system knows it.
#[derive(Clone, Copy, Debug)]
pub struct RootWindow {
    /// Its handle; zero if there is none.
    pub handle: usize,
    pub style: u32,
    pub rect: Option<Rect>,
}

/// The width of a border, which is at least one pixel.
pub open spec fn border_width(metric: i32) -> int {
    if metric < 1 {
        1
    } else {
        metric as int
    }
}

/// Whether the edges of a rectangle, moved inwards by the borders, can be held.
pub open spec fn borders_fit(rect: Rect, border_x: i32, border_y: i32) -> bool {
    &&& fits_i32(rect.left + border_width(border_x))
    &&& fits_i32(rect.right - border_width(border_x))
    &&& fits_i32(rect.top + border_width(border_y))
    &&& fits_i32(rect.bottom - border_width(border_y))
}

/// Whether the window can be resized: it is not the overlay, not maximized, has a border
/// that can be dragged, and its place is known.
pub open spec fn resizable(root: RootWindow, own: usize) -> bool {
    &&& root.handle != 0
    &&& root.handle != own
    &&& root.style & WS_MAXIMIZE == 0
    &&& root.style & WS_THICKFRAME != 0
    &&& root.rect is Some
}

/// Whether a point lies on or beyond the borders of a rectangle.
pub open spec fn on_border(rect: Rect, x: int, y: int, border_x: i32, border_y: i32) -> bool {
    ||| x <= rect.left + border_width(border_x)
    ||| x >= rect.right - border_width(border_x)
    ||| y <= rect.top + border_width(border_y)
    ||| y >= rect.bottom - border_width(border_y)
}

/// Tells whether a window can be resized.
pub fn is_resizable(root: RootWindow, own: usize) -> (r: bool)
    ensures
        r == resizable(root, own),
{
    root.handle != 0 && root.handle != own && (root.style & WS_MAXIMIZE) == 0 && (root.style
        & WS_THICKFRAME) != 0 && root.rect.is_some()
}

/// Tells whether a point is on the border of a window that can be resized.
pub fn is_resize_cursor(
    root: RootWindow,
    own: usize,
    x: i32,
    y: i32,
    border_x: i32,
    border_y: i32,
) -> (r: bool)
    requires
        resizable(root, own) ==> borders_fit(root.rect->0, border_x, border_y),
    ensures
        r == (resizable(root, own) && on_border(
            root.rect->0,
            x as int,
            y as int,
            border_x,
            border_y,
        )),
{
    if !is_resizable(root, own) {
        return false;
    }
    match root.rect {
        None => false,
        Some(rect) => {
            let bx: i32 = if border_x < 1 {
                1
            } else {
                border_x
            };
            let by: i32 = if border_y < 1 {
                1
            } else {
                border_y
            };
            x <= rect.left + bx || x >= rect.right - bx || y <= rect.top + by || y >= rect.bottom
                - by
        },
    }
}

/// Tells whether a window class, given by its units, is that of the preview windows.
pub fn is_task_list_thumbnail(class: &[u16]) -> (r: bool)
    ensures
        r == (text::decoded(class@) == THUMBNAIL_CLASS@),
{
    let name: String = text::from_wide(class);
    let wanted: String = THUMBNAIL_CLASS.to_owned();
    name == wanted
}

/// A window that may be a preview, with its place where that is known.
#[derive(Clone, Copy, Debug)]
pub struct PreviewWindow {
    pub handle: usize,
    pub rect: Option<Rect>,
}

/// Whether a window lies under a point.
pub open spec fn covers(window: PreviewWindow, x: int, y: int) -> bool {
    window.rect is Some && window.rect->0.holds(x, y)
}

/// Finds the window that the overlay has to stand above: the outermost window under the
/// cursor if it is a preview, else the first one of the others that lies there.
pub fn preview_below(
    root: usize,
    root_is_preview: bool,
    others: &[PreviewWindow],
    x: i32,
    y: i32,
) -> (r: Option<usize>)
    ensures
        root != 0 && root_is_preview ==> r == Some(root),
        !(root != 0 && root_is_preview) ==> match r {
            Some(handle) => exists|i: int|
                #![trigger others@[i]]
                0 <= i < others@.len() && others@[i].handle == handle && covers(
                    others@[i],
                    x as int,
                    y as int,
                ) && forall|j: int|
                    0 <= j < i ==> !covers(#[trigger] others@[j], x as int, y as int),
            None => forall|j: int|
                0 <= j < others@.len() ==> !covers(#[trigger] others@[j], x as int, y as int),
        },
{
    if root != 0 && root_is_preview {
        return Some(root);
    }
    let mut i: usize = 0;
    while i < others.len()
        invariant
            i <= others@.len(),
            !(root != 0 && root_is_preview),
            forall|j: int| 0 <= j < i ==> !covers(#[trigger] others@[j], x as int, y as int),
        decreases others@.len() - i,
    {
        let window: PreviewWindow = others[i];
        match window.rect {
            Some(rect) => {
                if rect.contains(x, y) {
                    assert(covers(others@[i as int], x as int, y as int));
                    return Some(window.handle);
                }
            },
            None => {},
        }
        i = i + 1;
    }
    None
}

/// A point lies in a rectangle from its left and top edges on up to its right and bottom
/// edges, which are outside.
pub proof fn law_right_and_bottom_are_outside(rect: Rect, x: int, y: int)
    ensures
        rect.holds(x, y) <==> !(x < rect.left) && !(x >= rect.right) && !(y < rect.top) && !(y
            >= rect.bottom),
        !rect.holds(rect.right as int, y),
        !rect.holds(x, rect.bottom as int),
{
}

/// What each message asks for, once there is an overlay: the timer (0x113) and a paint (0xF)
/// a frame, other dots per inch (0x2E0) the top, and the program's own messages from 0x8000
/// on the tray, the switch, the settings, the end and changed settings. The end also comes
/// with the destruction of the window (2). Its creation (1) asks for nothing, and any other
/// message is passed on.
pub proof fn law_messages_are_answered(message: u32)
    ensures
        action_for(message, true) == WindowAction::Frame <==> message == 0x113 || message == 0xF,
        action_for(message, true) == WindowAction::ForceTopmost <==> message == 0x2E0,
        action_for(message, true) == WindowAction::Tray <==> message == 0x8000,
        action_for(message, true) == WindowAction::Toggle <==> message == 0x8001,
        action_for(message, true) == WindowAction::OpenSettings <==> message == 0x8002,
        action_for(message, true) == WindowAction::Quit <==> message == 0x8003 || message == 2,
        action_for(message, true) == WindowAction::Reapply <==> message == 0x8004,
        action_for(message, true) == WindowAction::Done <==> message == 1,
        MSG_TOGGLE_CURSOR == 0x8001,
        MSG_OPEN_SETTINGS == 0x8002,
        MSG_EXIT == 0x8003,
        MSG_SETTINGS_CHANGED == 0x8004,
{
}

/// While there is no overlay yet, the program still ends when it is to, messages of others
/// are still passed on, and what is for the overlay is dropped.
pub proof fn law_messages_before_the_overlay(message: u32)
    ensures
        action_for(message, false) == WindowAction::Quit <==> action_for(message, true)
            == WindowAction::Quit,
        action_for(message, false) == WindowAction::PassOn <==> action_for(message, true)
            == WindowAction::PassOn,
        action_for(message, true) != WindowAction::Quit && action_for(message, true)
            != WindowAction::PassOn ==> action_for(message, false) == WindowAction::Done,
{
}

/// A border is as wide as the system says, and at least one pixel.
pub proof fn law_borders_have_a_pixel(metric: i32)
    ensures
        border_width(metric) >= 1,
        border_width(metric) >= metric,
        border_width(metric) == 1 || border_width(metric) == metric,
{
}

/// A window can be resized if and only if there is one, it is not the overlay, it is not
/// maximized, it has a border that can be dragged, and its place is known.
pub proof fn law_windows_that_can_be_resized(root: RootWindow, own: usize)
    ensures
        root.handle == 0 ==> !resizable(root, own),
        root.handle == own ==> !resizable(root, own),
        root.style & 0x0100_0000 != 0 ==> !resizable(root, own),
        root.style & 0x0004_0000 == 0 ==> !resizable(root, own),
        root.rect is None ==> !resizable(root, own),
        root.handle != 0 && root.handle != own && root.style & 0x0100_0000 == 0 && root.style
            & 0x0004_0000 != 0 && root.rect is Some ==> resizable(root, own),
{
}

/// A point is on the border unless it keeps more than the width of the border from every
/// edge.
pub proof fn law_inside_of_a_window(
    rect: Rect,
    x: int,
    y: int,
    border_x: i32,
    border_y: i32,
)
    ensures
        !on_border(rect, x, y, border_x, border_y) <==> {
            &&& x - rect.left > border_width(border_x)
            &&& rect.right - x > border_width(border_x)
            &&& y - rect.top > border_width(border_y)
            &&& rect.bottom - y > border_width(border_y)
        },
        borders_fit(rect, border_x, border_y) <==> {
            &&& rect.left + border_width(border_x) <= 0x7FFF_FFFF
            &&& rect.right - border_width(border_x) >= -0x8000_0000
            &&& rect.top + border_width(border_y) <= 0x7FFF_FFFF
            &&& rect.bottom - border_width(border_y) >= -0x8000_0000
        },
{
}

/// A window lies under a point if its place is known and holds the point.
pub proof fn law_windows_under_a_point(window: PreviewWindow, x: int, y: int)
    ensures
        window.rect is None ==> !covers(window, x, y),
        window.rect matches Some(rect) ==> (covers(window, x, y) <==> rect.left <= x < rect.right
            && rect.top <= y < rect.bottom),
{
}

/// The numbers of 32 bits with a sign.
pub proof fn law_numbers_of_32_bits(value: int)
    ensures
        fits_i32(value) <==> -0x8000_0000 <= value < 0x8000_0000,
{
}

/// What a click on the icon is told by, and what the previews are: the right button and the
/// context menu, the left button, and the class of the preview windows.
pub proof fn law_names_of_the_taskbar()
    ensures
        WM_RBUTTONUP == 0x0205,
        WM_LBUTTONUP == 0x0202,
        WM_CONTEXTMENU == 0x007B,
        THUMBNAIL_CLASS@ == "TaskListThumbnailWnd"@,
{
}

} // verus!
