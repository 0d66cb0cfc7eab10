//! What the mouse hook reports: the position of the cursor and the edges of presses and
//! releases.

use vstd::prelude::*;

verus! {

pub const WM_LBUTTONDOWN: u32 = 0x0201;

pub const WM_LBUTTONUP: u32 = 0x0202;

pub const WM_RBUTTONDOWN: u32 = 0x0204;

pub const WM_RBUTTONUP: u32 = 0x0205;

pub const WM_MBUTTONDOWN: u32 = 0x0207;

pub const WM_MBUTTONUP: u32 = 0x0208;

pub const WM_XBUTTONDOWN: u32 = 0x020B;

pub const WM_XBUTTONUP: u32 = 0x020C;

/// What has been reported so far and not been taken yet.
#[derive(Clone, Copy, Debug)]
pub struct HookState {
    /// Where the cursor is.
    pub cursor: (i32, i32),
    /// Where the cursor was at the last press.
    pub press: (i32, i32),
    /// Whether there was a press that has not been taken.
    pub press_pending: bool,
    /// Whether there was a release that has not been taken.
    pub release_pending: bool,
    /// The number of reports, counted modulo the range of the type.
    pub events: u64,
}

/// Whether a message reports that a button went down.
pub open spec fn is_press(message: u32) -> bool {
    message == WM_LBUTTONDOWN || message == WM_RBUTTONDOWN || message == WM_MBUTTONDOWN || message
        == WM_XBUTTONDOWN
}

/// Whether a message reports that a button went up.
pub open spec fn is_release(message: u32) -> bool {
    message == WM_LBUTTONUP || message == WM_RBUTTONUP || message == WM_MBUTTONUP || message
        == WM_XBUTTONUP
}

impl HookState {
    /// The state after a report. One with a negative code is not for this hook.
    pub open spec fn after_event(
        self,
        code: i32,
        message: u32,
        at: (i32, i32),
    ) -> HookState {
        if code < 0 {
            self
        } else {
            HookState {
                cursor: at,
                press: if is_press(message) {
                    at
                } else {
                    self.press
                },
                press_pending: self.press_pending || is_press(message),
                release_pending: self.release_pending || is_release(message),
                events: if self.events == u64::MAX {
                    0
                } else {
                    (self.events + 1) as u64
                },
            }
        }
    }

    /// Nothing has been reported.
    pub fn new() -> (r: HookState)
        ensures
            r == (HookState {
                cursor: (0, 0),
                press: (0, 0),
                press_pending: false,
                release_pending: false,
                events: 0,
            }),
    {
        HookState {
            cursor: (0, 0),
            press: (0, 0),
            press_pending: false,
            release_pending: false,
            events: 0,
        }
    }

    /// Takes a report of the hook.
    pub fn low_level_mouse_proc(&mut self, code: i32, message: u32, at: (i32, i32))
        ensures
            *final(self) == old(self).after_event(code, message, at),
    {
        if code >= 0 {
            self.cursor = at;
            self.events = if self.events == u64::MAX {
                0
            } else {
                self.events + 1
            };
            if message == WM_LBUTTONDOWN || message == WM_RBUTTONDOWN || message == WM_MBUTTONDOWN
                || message == WM_XBUTTONDOWN {
                self.press = at;
                self.press_pending = true;
            } else if message == WM_LBUTTONUP || message == WM_RBUTTONUP || message
                == WM_MBUTTONUP || message == WM_XBUTTONUP {
                self.release_pending = true;
            }
        }
    }

    /// Takes the position that the system gives; where it gives none, the last one stays.
    pub fn poll_position(&mut self, at: Option<(i32, i32)>)
        ensures
            *final(self) == (HookState {
                cursor: (match at {
                    Some(p) => p,
                    None => old(self).cursor,
                }),
                ..*old(self)
            }),
    {
        match at {
            Some(p) => {
                self.cursor = p;
            },
            None => {},
        }
    }
}

/// Tells whether there was a press, once for each time that there was one.
pub fn take_press(state: &mut HookState) -> (r: bool)
    ensures
        r == old(state).press_pending,
        *final(state) == (HookState { press_pending: false, ..*old(state) }),
{
    let pending: bool = state.press_pending;
    state.press_pending = false;
    pending
}

/// Tells whether there was a release, once for each time that there was one.
pub fn take_release(state: &mut HookState) -> (r: bool)
    ensures
        r == old(state).release_pending,
        *final(state) == (HookState { release_pending: false, ..*old(state) }),
{
    let pending: bool = state.release_pending;
    state.release_pending = false;
    pending
}

/// Where the cursor is.
pub fn cursor_pos(state: &HookState) -> (r: (i32, i32))
    ensures
        r == state.cursor,
{
    state.cursor
}

/// Where the cursor was at the last press.
pub fn press_pos(state: &HookState) -> (r: (i32, i32))
    ensures
        r == state.press,
{
    state.press
}

/// How many reports there have been.
pub fn event_count(state: &HookState) -> (r: u64)
    ensures
        r == state.events,
{
    state.events
}

/// A press is told once: after it has been taken there is none, until another comes.
pub proof fn law_press_is_taken_once(state: HookState, message: u32, at: (i32, i32))
    ensures
        is_press(message) ==> state.after_event(0, message, at).press_pending,
        !is_press(message) ==> (HookState { press_pending: false, ..state }).after_event(
            0,
            message,
            at,
        ).press_pending == false,
{
}

/// A release is told once: after it has been taken there is none, until another comes.
pub proof fn law_release_is_taken_once(state: HookState, message: u32, at: (i32, i32))
    ensures
        is_release(message) ==> state.after_event(0, message, at).release_pending,
        !is_release(message) ==> (HookState { release_pending: false, ..state }).after_event(
            0,
            message,
            at,
        ).release_pending == false,
{
}

/// No report is lost on the way: a later movement of the mouse changes neither a pending
/// press nor a pending release, nor where the press was.
pub proof fn law_movement_keeps_edges(state: HookState, message: u32, at: (i32, i32))
    requires
        !is_press(message),
        !is_release(message),
    ensures
        state.after_event(0, message, at).press_pending == state.press_pending,
        state.after_event(0, message, at).release_pending == state.release_pending,
        state.after_event(0, message, at).press == state.press,
        state.after_event(0, message, at).cursor == at,
{
}

/// A press of any button is seen: after a report that the left, the right, the middle or an
/// extra button went down, a press is pending, and it took place where the report says.
pub proof fn law_every_button_presses(state: HookState, code: i32, message: u32, at: (i32, i32))
    requires
        code >= 0,
        message == WM_LBUTTONDOWN || message == WM_RBUTTONDOWN || message == WM_MBUTTONDOWN
            || message == WM_XBUTTONDOWN,
    ensures
        state.after_event(code, message, at).press_pending,
        state.after_event(code, message, at).press == at,
        state.after_event(code, message, at).cursor == at,
        state.after_event(code, message, at).release_pending == state.release_pending,
{
}

/// A release of any button is seen: after a report that the left, the right, the middle or
/// an extra button went up, a release is pending; where the press was is kept.
pub proof fn law_every_button_releases(state: HookState, code: i32, message: u32, at: (i32, i32))
    requires
        code >= 0,
        message == WM_LBUTTONUP || message == WM_RBUTTONUP || message == WM_MBUTTONUP || message
            == WM_XBUTTONUP,
    ensures
        state.after_event(code, message, at).release_pending,
        state.after_event(code, message, at).cursor == at,
        state.after_event(code, message, at).press_pending == state.press_pending,
        state.after_event(code, message, at).press == state.press,
{
}

/// Only a button that goes down is a press, and only one that goes up is a release: any
/// other report moves the cursor and leaves both as they are.
pub proof fn law_other_reports_only_move(state: HookState, code: i32, message: u32, at: (i32, i32))
    requires
        code >= 0,
        message != 0x0201 && message != 0x0204 && message != 0x0207 && message != 0x020B,
        message != 0x0202 && message != 0x0205 && message != 0x0208 && message != 0x020C,
    ensures
        state.after_event(code, message, at).cursor == at,
        state.after_event(code, message, at).press == state.press,
        state.after_event(code, message, at).press_pending == state.press_pending,
        state.after_event(code, message, at).release_pending == state.release_pending,
{
}

/// The buttons by the numbers of their messages: the left one, the right one, the middle
/// one and the extra ones, down and up.
pub proof fn law_numbers_of_the_buttons(message: u32)
    ensures
        is_press(message) <==> message == 0x0201 || message == 0x0204 || message == 0x0207
            || message == 0x020B,
        is_release(message) <==> message == 0x0202 || message == 0x0205 || message == 0x0208
            || message == 0x020C,
{
}

/// A report with a negative code is not for this hook and changes nothing; any other one is
/// counted, the count starting over after the largest number.
pub proof fn law_reports_are_counted(state: HookState, code: i32, message: u32, at: (i32, i32))
    ensures
        code < 0 ==> state.after_event(code, message, at) == state,
        code >= 0 && state.events < 0xFFFF_FFFF_FFFF_FFFF ==> state.after_event(
            code,
            message,
            at,
        ).events == state.events + 1,
        code >= 0 && state.events == 0xFFFF_FFFF_FFFF_FFFF ==> state.after_event(
            code,
            message,
            at,
        ).events == 0,
{
}

} // verus!
