//! The buttons and the shape of the system's cursor: presses, drags, hovering, and the
//! sounds that go with them.

use vstd::prelude::*;

use crate::audio::{Request, TapPlayer};
use crate::number::{Number, ZERO};
use crate::overlay;
use crate::overlay::anim;
use crate::overlay::hook;
use crate::overlay::hook::HookState;
use crate::overlay::window;
use crate::overlay::Overlay;
use crate::settings::{Settings, SettingsValue};

verus! {

/// The least time between two sounds of hovering, 0.02 seconds.
pub const HOVER_PERIOD: u64 = 20_000_000;

/// The farthest to the left that a sound comes from, -0.6.
pub const LEFTMOST: u64 = 0xBFE3_3333_3333_3333;

/// The farthest to the right that a sound comes from, 0.6.
pub const RIGHTMOST: u64 = 0x3FE3_3333_3333_3333;

/// Which sounds of the buttons a frame makes.
#[derive(Clone, Copy, Debug, PartialEq, Eq, Structural)]
pub struct Taps {
    /// That of a press.
    pub down: bool,
    /// That of a release, which comes after it.
    pub up: bool,
}

/// What the system tells of its cursor.
#[derive(Clone, Copy, Debug)]
pub struct CursorLook {
    /// The cursor that it shows.
    pub handle: usize,
    /// What the ordinary cursor has been replaced by.
    pub normal: usize,
    /// What the hand has been replaced by.
    pub hand: usize,
    /// Whether the cursor is on a border that can be dragged, where the sound of hovering
    /// is to tell that.
    pub resize: Option<bool>,
}

impl Overlay {
    /// The state after a press.
    pub open spec fn after_press(self, at: (i32, i32)) -> Overlay {
        Overlay {
            anim: self.anim.after_begin_press(),
            down_start: at,
            force_topmost: true,
            ..self
        }
    }

    /// The state after a release.
    pub open spec fn after_release(self, spin_end: Number) -> Overlay {
        Overlay { anim: self.anim.after_end_press(spin_end), force_topmost: true, ..self }
    }

    /// Which edges of the buttons a frame sees: those that the hook has reported, or where
    /// there is none, a change against the state before.
    pub open spec fn edges(self, hook: HookState, pressed: bool) -> Taps {
        if self.mouse_hook_active {
            Taps { down: hook.press_pending, up: hook.release_pending }
        } else {
            Taps {
                down: pressed && !self.anim.mouse_down,
                up: !pressed && self.anim.mouse_down,
            }
        }
    }

    /// Where a press took place: where the hook says, or where the cursor is.
    pub open spec fn press_place(self, hook: HookState) -> (i32, i32) {
        if self.mouse_hook_active {
            hook.press
        } else {
            hook.cursor
        }
    }

    /// The state after the buttons and the Windows key have been looked at.
    pub open spec fn after_buttons(
        self,
        hook: HookState,
        pressed: bool,
        win_pressed: bool,
        spin_end: Number,
    ) -> Overlay {
        let edges = self.edges(hook, pressed);
        let down = if edges.down {
            self.after_press(self.press_place(hook))
        } else {
            self
        };
        let up = if edges.up {
            down.after_release(spin_end)
        } else {
            down
        };
        Overlay { force_topmost: up.force_topmost || win_pressed, ..up }
    }

    /// Takes a press that took place at `at`.
    pub fn begin_press(&mut self, at: (i32, i32))
        ensures
            final(self).wf(),
            *final(self) == old(self).after_press(at),
    {
        self.anim.begin_press();
        self.down_start = at;
        self.force_topmost = true;
    }

    /// Takes a release. `spin_end` is three turns on from the angle of the cursor.
    pub fn end_press(&mut self, spin_end: Number)
        requires
            old(self).wf(),
        ensures
            final(self).wf(),
            *final(self) == old(self).after_release(spin_end),
    {
        self.anim.end_press(spin_end);
        self.force_topmost = true;
    }

    /// Looks at the buttons and the Windows key, and says which sounds follow. What the
    /// hook has reported is taken from it.
    pub fn update_mouse_state(
        &mut self,
        hook: &mut HookState,
        pressed: bool,
        win_pressed: bool,
        spin_end: Number,
    ) -> (r: Taps)
        requires
            old(self).wf(),
        ensures
            final(self).wf(),
            r == old(self).edges(*old(hook), pressed),
            *final(self) == old(self).after_buttons(*old(hook), pressed, win_pressed, spin_end),
            *final(hook) == (if old(self).mouse_hook_active {
                HookState { press_pending: false, release_pending: false, ..*old(hook) }
            } else {
                *old(hook)
            }),
    {
        let mut taps: Taps = Taps { down: false, up: false };
        if self.mouse_hook_active {
            if hook::take_press(hook) {
                self.begin_press(hook::press_pos(hook));
                taps.down = true;
            }
            if hook::take_release(hook) {
                self.end_press(spin_end);
                taps.up = true;
            }
        } else if pressed && !self.anim.mouse_down {
            self.begin_press(hook::cursor_pos(hook));
            taps.down = true;
        } else if !pressed && self.anim.mouse_down {
            self.end_press(spin_end);
            taps.up = true;
        }
        if win_pressed {
            self.force_topmost = true;
        }
        taps
    }

    /// Whether the distance from where the button went down can be held.
    pub open spec fn drag_fits(self, at: (i32, i32)) -> bool {
        &&& window::fits_i32(at.0 - self.down_start.0)
        &&& window::fits_i32(at.1 - self.down_start.1)
    }

    /// Whether the square of that distance can be held.
    pub open spec fn drag_square_fits(self, at: (i32, i32)) -> bool {
        let dx = at.0 - self.down_start.0;
        let dy = at.1 - self.down_start.1;
        &&& window::fits_i32(dx * dx)
        &&& window::fits_i32(dy * dy)
        &&& window::fits_i32(dx * dx + dy * dy)
    }

    /// How far the cursor is from where the button went down.
    pub fn drag_offset(&self, at: (i32, i32)) -> (r: (i32, i32))
        requires
            self.drag_fits(at),
        ensures
            r.0 == at.0 - self.down_start.0,
            r.1 == at.1 - self.down_start.1,
    {
        (at.0 - self.down_start.0, at.1 - self.down_start.1)
    }

    /// Whether it is still open if a press becomes a drag.
    pub open spec fn may_drag(self) -> bool {
        self.anim.mouse_down && !self.anim.drag_active
    }

    /// The square of the distance that decides whether a press becomes a drag; nothing
    /// where that is not open.
    pub fn drag_distance(&self, at: (i32, i32)) -> (r: Option<i32>)
        requires
            self.may_drag() ==> self.drag_fits(at) && self.drag_square_fits(at),
        ensures
            r is Some <==> self.may_drag(),
            r matches Some(square) ==> square == (at.0 - self.down_start.0) * (at.0
                - self.down_start.0) + (at.1 - self.down_start.1) * (at.1 - self.down_start.1),
    {
        if self.anim.mouse_down && !self.anim.drag_active {
            let offset: (i32, i32) = self.drag_offset(at);
            Some(offset.0 * offset.0 + offset.1 * offset.1)
        } else {
            None
        }
    }

    /// Makes a press a drag once the square of its distance exceeds the limit, which is
    /// the square of the width of the cursor on the screen.
    pub fn update_drag(&mut self, distance: Number, limit: Number)
        requires
            old(self).wf(),
        ensures
            final(self).wf(),
            *final(self) == (Overlay {
                anim: anim::CursorAnim {
                    drag_active: old(self).anim.drag_active || old(self).may_drag()
                        && limit.below(distance),
                    ..old(self).anim
                },
                ..*old(self)
            }),
    {
        if self.anim.mouse_down && !self.anim.drag_active {
            if limit.is_below(distance) {
                self.anim.drag_active = true;
            }
        }
    }

    /// Whether the system shows what the hand has been replaced by.
    pub open spec fn over_hand(look: CursorLook) -> bool {
        look.handle != 0 && look.handle == look.hand
    }

    /// The cursor that is taken for the ordinary one: the first one seen that is not the
    /// hand.
    pub open spec fn baseline(self, look: CursorLook) -> usize {
        if self.baseline_normal_handle == 0 && look.handle != look.hand {
            look.handle
        } else {
            self.baseline_normal_handle
        }
    }

    /// Whether the system's cursor is over something: it shows the hand, or a cursor that
    /// is not the ordinary one.
    pub open spec fn hovering(self, look: CursorLook) -> bool {
        Overlay::over_hand(look) || look.handle != 0 && look.handle != look.normal && look.handle
            != self.baseline(look)
    }

    /// Whether the sound of hovering is due: it begins, and no button is down.
    pub open spec fn hover_begins(self, look: CursorLook) -> bool {
        &&& !self.anim.mouse_down
        &&& match look.resize {
            Some(resize) => resize && !self.was_resize_prompt,
            None => self.hovering(look) && !self.was_hover_candidate,
        }
    }

    /// The state after the shape of the system's cursor has been noted.
    pub open spec fn after_seeing(self, look: CursorLook) -> Overlay {
        Overlay {
            last_cursor_handle: look.handle,
            force_topmost: self.force_topmost || look.handle != self.last_cursor_handle,
            anim: anim::CursorAnim { pointer_hover: Overlay::over_hand(look), ..self.anim },
            ..self
        }
    }

    /// The state after it has been noted whether the system's cursor is over something.
    pub open spec fn after_hovering(self, look: CursorLook) -> Overlay {
        Overlay {
            baseline_normal_handle: if self.hovering(look) {
                self.baseline(look)
            } else {
                look.handle
            },
            was_hover_candidate: self.hovering(look),
            was_hovering: Overlay::over_hand(look),
            ..self
        }
    }

    /// The state after the system's cursor has been looked at.
    pub open spec fn after_hover(self, look: CursorLook) -> Overlay {
        match look.resize {
            Some(resize) => Overlay { was_resize_prompt: resize, ..self.after_seeing(look) },
            None => self.after_seeing(look).after_hovering(look),
        }
    }

    /// Looks at the system's cursor, and tells whether the sound of hovering is due.
    pub fn update_hover(&mut self, look: CursorLook) -> (r: bool)
        requires
            old(self).wf(),
        ensures
            final(self).wf(),
            r == old(self).hover_begins(look),
            *final(self) == old(self).after_hover(look),
    {
        let free: bool = !self.anim.mouse_down;
        let pointer_hover: bool = self.see_cursor(look);
        match look.resize {
            Some(resize) => self.update_resize_prompt(resize, free),
            None => self.update_candidate(look, pointer_hover, free),
        }
    }

    fn see_cursor(&mut self, look: CursorLook) -> (r: bool)
        ensures
            r == Overlay::over_hand(look),
            *final(self) == old(self).after_seeing(look),
    {
        let pointer_hover: bool = look.handle != 0 && look.handle == look.hand;
        if look.handle != self.last_cursor_handle {
            self.last_cursor_handle = look.handle;
            self.force_topmost = true;
        }
        self.anim.pointer_hover = pointer_hover;
        pointer_hover
    }

    fn update_resize_prompt(&mut self, resize: bool, free: bool) -> (r: bool)
        ensures
            r == (free && resize && !old(self).was_resize_prompt),
            *final(self) == (Overlay { was_resize_prompt: resize, ..*old(self) }),
    {
        let due: bool = resize && !self.was_resize_prompt && free;
        self.was_resize_prompt = resize;
        due
    }

    fn update_candidate(&mut self, look: CursorLook, pointer_hover: bool, free: bool) -> (r: bool)
        requires
            pointer_hover == Overlay::over_hand(look),
        ensures
            r == (free && old(self).hovering(look) && !old(self).was_hover_candidate),
            *final(self) == old(self).after_hovering(look),
    {
        if self.baseline_normal_handle == 0 && look.handle != 0 && look.handle != look.hand {
            self.baseline_normal_handle = look.handle;
        }
        let candidate: bool = pointer_hover || (look.handle != 0 && look.handle != look.normal
            && look.handle != self.baseline_normal_handle);
        let due: bool = candidate && !self.was_hover_candidate && free;
        if !candidate {
            self.baseline_normal_handle = look.handle;
        }
        self.was_hover_candidate = candidate;
        self.was_hovering = pointer_hover;
        due
    }

    /// Lets the sound of a button through, unless it is switched off or has no volume.
    pub fn play_tap(settings: &Settings, tap: &TapPlayer, request: Request) -> (r: Option<Request>)
        ensures
            r == (if tap_wanted(settings@) && tap.audible() {
                Some(request)
            } else {
                None
            }),
    {
        if !settings.tap_sound_enabled || settings.tap_sound_volume.is_at_most(
            Number::from_bits(ZERO),
        ) {
            return None;
        }
        tap.play(request)
    }

    /// Lets the sound of hovering through, unless it is switched off, has no volume or
    /// follows the one before too soon.
    pub fn play_hover(
        &mut self,
        settings: &Settings,
        now: u64,
        hover: &TapPlayer,
        request: Request,
    ) -> (r: Option<Request>)
        requires
            old(self).wf(),
        ensures
            final(self).wf(),
            *final(self) == old(self).after_hover_sound(settings@, now),
            r == (if old(self).hover_sound_due(settings@, now) && hover.audible() {
                Some(request)
            } else {
                None
            }),
    {
        if !settings.hover_sound_enabled || settings.hover_sound_volume.is_at_most(
            Number::from_bits(ZERO),
        ) {
            return None;
        }
        if !overlay::has_passed(self.last_hover_sound, now, HOVER_PERIOD) {
            return None;
        }
        self.last_hover_sound = Some(now);
        hover.play(request)
    }

    /// Whether the sound of hovering is wanted and does not come too soon.
    pub open spec fn hover_sound_due(self, settings: SettingsValue, now: u64) -> bool {
        &&& settings.hover_sound_enabled
        &&& !settings.hover_sound_volume.at_most(anim::num(ZERO))
        &&& overlay::passed(self.last_hover_sound, now, HOVER_PERIOD)
    }

    /// The state after the sound of hovering has been asked for.
    pub open spec fn after_hover_sound(self, settings: SettingsValue, now: u64) -> Overlay {
        if self.hover_sound_due(settings, now) {
            Overlay { last_hover_sound: Some(now), ..self }
        } else {
            self
        }
    }

    /// Where a sound comes from, given the place of the cursor between the edges of all
    /// screens, from -1 to 1: not quite as far to the side.
    pub fn get_balance(place: Number) -> (r: Number)
        ensures
            r == place.spec_clamp(anim::num(LEFTMOST), anim::num(RIGHTMOST)),
    {
        place.clamp(Number::from_bits(LEFTMOST), Number::from_bits(RIGHTMOST))
    }
}

/// Whether the sounds of the buttons are wanted.
pub open spec fn tap_wanted(settings: SettingsValue) -> bool {
    settings.tap_sound_enabled && !settings.tap_sound_volume.at_most(anim::num(ZERO))
}

/// Without a hook the buttons are polled, and the cursor follows them all the same: after
/// a frame the button is down if and only if it was found down.
pub proof fn law_polling_follows_the_button(
    overlay: Overlay,
    hook: HookState,
    pressed: bool,
    win_pressed: bool,
    spin_end: Number,
)
    requires
        !overlay.mouse_hook_active,
    ensures
        overlay.after_buttons(hook, pressed, win_pressed, spin_end).anim.mouse_down == pressed,
        overlay.edges(hook, pressed).down <==> pressed && !overlay.anim.mouse_down,
        overlay.edges(hook, pressed).up <==> !pressed && overlay.anim.mouse_down,
{
}

/// With a hook every press and every release that it reported is seen, even both in one
/// frame; then the button is up again.
pub proof fn law_hook_reports_are_seen(
    overlay: Overlay,
    hook: HookState,
    pressed: bool,
    win_pressed: bool,
    spin_end: Number,
)
    requires
        overlay.mouse_hook_active,
    ensures
        ({
            let after = overlay.after_buttons(hook, pressed, win_pressed, spin_end);
            &&& overlay.edges(hook, pressed) == (Taps {
                down: hook.press_pending,
                up: hook.release_pending,
            })
            &&& hook.release_pending ==> !after.anim.mouse_down
            &&& hook.press_pending && !hook.release_pending ==> after.anim.mouse_down
            &&& hook.press_pending ==> after.down_start == hook.press
            &&& !hook.press_pending && !hook.release_pending ==> after.anim == overlay.anim
        }),
{
}

/// Every edge of the buttons and the Windows key put the window on top in the same frame.
pub proof fn law_buttons_put_the_window_on_top(
    overlay: Overlay,
    hook: HookState,
    pressed: bool,
    win_pressed: bool,
    spin_end: Number,
    place: (i32, i32, i32, i32),
    changed: bool,
)
    requires
        overlay.edges(hook, pressed).down || overlay.edges(hook, pressed).up || win_pressed,
    ensures
        overlay.after_buttons(hook, pressed, win_pressed, spin_end).spec_plan(place, changed).put,
{
}

/// The sound of hovering is due once: while the system's cursor stays the same it is not
/// due again.
pub proof fn law_hovering_sounds_once(overlay: Overlay, look: CursorLook)
    ensures
        !overlay.after_hover(look).hover_begins(look),
{
}

/// Hovering makes no sound while a button is down.
pub proof fn law_no_hovering_while_pressed(overlay: Overlay, look: CursorLook)
    requires
        overlay.anim.mouse_down,
    ensures
        !overlay.hover_begins(look),
{
}

/// Two sounds of hovering are a period apart.
pub proof fn law_hover_sounds_are_apart(
    overlay: Overlay,
    settings: SettingsValue,
    now: u64,
    later: u64,
)
    requires
        overlay.hover_sound_due(settings, now),
    ensures
        overlay.after_hover_sound(settings, now).hover_sound_due(settings, later) <==> later >= now
            + HOVER_PERIOD,
{
}

/// Only what the hand has been replaced by makes the cursor point.
pub proof fn law_only_the_hand_points(overlay: Overlay, look: CursorLook)
    ensures
        overlay.after_hover(look).anim.pointer_hover <==> look.handle != 0 && look.handle
            == look.hand,
{
}

/// A press is taken over by the animation, and the place where it happened is noted; the
/// window goes on top.
pub proof fn law_press_is_noted(overlay: Overlay, at: (i32, i32))
    ensures
        overlay.after_press(at).anim == overlay.anim.after_begin_press(),
        overlay.after_press(at).anim.mouse_down,
        overlay.after_press(at).down_start == at,
        overlay.after_press(at).force_topmost,
        overlay.after_press(at) == (Overlay {
            anim: overlay.anim.after_begin_press(),
            down_start: at,
            force_topmost: true,
            ..overlay
        }),
{
}

/// A release is taken over by the animation; the window goes on top, and where the press
/// was is kept.
pub proof fn law_release_is_noted(overlay: Overlay, spin_end: Number)
    ensures
        !overlay.after_release(spin_end).anim.mouse_down,
        overlay.after_release(spin_end).down_start == overlay.down_start,
        overlay.after_release(spin_end) == (Overlay {
            anim: overlay.anim.after_end_press(spin_end),
            force_topmost: true,
            ..overlay
        }),
{
}

/// Where a press took place: with a hook where it reported the press, without one where the
/// cursor is.
pub proof fn law_place_of_a_press(overlay: Overlay, hook: HookState)
    ensures
        overlay.mouse_hook_active ==> overlay.press_place(hook) == hook.press,
        !overlay.mouse_hook_active ==> overlay.press_place(hook) == hook.cursor,
{
}

/// What the buttons do to the overlay: a press, then a release, each if there was one, and
/// the Windows key asks for the top. Without any of them nothing changes.
pub proof fn law_buttons_press_then_release(
    overlay: Overlay,
    hook: HookState,
    pressed: bool,
    win_pressed: bool,
    spin_end: Number,
)
    ensures
        ({
            let after = overlay.after_buttons(hook, pressed, win_pressed, spin_end);
            let edges = overlay.edges(hook, pressed);
            let place = if overlay.mouse_hook_active {
                hook.press
            } else {
                hook.cursor
            };
            &&& !edges.down && !edges.up && !win_pressed ==> after == overlay
            &&& !edges.down && !edges.up && win_pressed ==> after == (Overlay {
                force_topmost: true,
                ..overlay
            })
            &&& edges.down && !edges.up ==> after == overlay.after_press(place)
            &&& !edges.down && edges.up ==> after == overlay.after_release(spin_end)
            &&& edges.down && edges.up ==> after == overlay.after_press(place).after_release(
                spin_end,
            )
        }),
{
}

/// A press may become a drag while the button is down and it is none yet.
pub proof fn law_presses_that_may_become_drags(overlay: Overlay)
    ensures
        overlay.may_drag() <==> overlay.anim.mouse_down && !overlay.anim.drag_active,
{
}

/// What the system's cursor is over: something if it shows the hand, or a cursor that is
/// neither the ordinary one nor the one taken for it. A cursor that is not shown is over
/// nothing, and the first one seen, unless it is the hand, is taken for the ordinary one.
pub proof fn law_what_the_cursor_is_over(overlay: Overlay, look: CursorLook)
    ensures
        Overlay::over_hand(look) <==> look.handle != 0 && look.handle == look.hand,
        overlay.hovering(look) <==> look.handle != 0 && (look.handle == look.hand || (look.handle
            != look.normal && overlay.baseline_normal_handle != 0 && look.handle
            != overlay.baseline_normal_handle)),
        overlay.baseline_normal_handle != 0 ==> overlay.baseline(look)
            == overlay.baseline_normal_handle,
        overlay.baseline_normal_handle == 0 && look.handle != look.hand ==> overlay.baseline(look)
            == look.handle,
        overlay.baseline_normal_handle == 0 && look.handle == look.hand ==> overlay.baseline(look)
            == 0,
{
}

/// The sound of hovering is due when no button is down and hovering has just begun: over a
/// border where that is asked for, over anything otherwise.
pub proof fn law_hovering_sounds_when_it_begins(overlay: Overlay, look: CursorLook)
    ensures
        overlay.hover_begins(look) <==> !overlay.anim.mouse_down && match look.resize {
            Some(resize) => resize && !overlay.was_resize_prompt,
            None => overlay.hovering(look) && !overlay.was_hover_candidate,
        },
{
}

/// Looking at the system's cursor notes what it shows and, if that is another cursor than
/// before, asks for the top; it notes whether the hand is shown. Where borders are asked
/// for, it notes whether there is one, and leaves what is known of hovering; otherwise it
/// notes what the cursor is over, and takes a cursor that is over nothing for the ordinary
/// one.
pub proof fn law_look_at_the_cursor_is_noted(overlay: Overlay, look: CursorLook)
    ensures
        ({
            let after = overlay.after_hover(look);
            let hand = look.handle != 0 && look.handle == look.hand;
            &&& after.last_cursor_handle == look.handle
            &&& after.force_topmost == (overlay.force_topmost || look.handle
                != overlay.last_cursor_handle)
            &&& after.anim == (anim::CursorAnim { pointer_hover: hand, ..overlay.anim })
            &&& look.resize matches Some(resize) ==> after.was_resize_prompt == resize
                && after.was_hover_candidate == overlay.was_hover_candidate && after.was_hovering
                == overlay.was_hovering && after.baseline_normal_handle
                == overlay.baseline_normal_handle
            &&& look.resize is None ==> after.was_resize_prompt == overlay.was_resize_prompt
                && after.was_hover_candidate == overlay.hovering(look) && after.was_hovering == hand
            &&& look.resize is None && !overlay.hovering(look) ==> after.baseline_normal_handle
                == look.handle
            &&& look.resize is None && overlay.hovering(look) ==> after.baseline_normal_handle
                == overlay.baseline(look)
            &&& after == (Overlay {
                last_cursor_handle: after.last_cursor_handle,
                force_topmost: after.force_topmost,
                anim: after.anim,
                was_resize_prompt: after.was_resize_prompt,
                was_hover_candidate: after.was_hover_candidate,
                was_hovering: after.was_hovering,
                baseline_normal_handle: after.baseline_normal_handle,
                ..overlay
            })
        }),
{
}

/// The sound of hovering is played if it is switched on, its volume is not zero or less,
/// and a fiftieth of a second has passed since the one before. Then the moment is noted,
/// and otherwise nothing.
pub proof fn law_hover_sound_is_wanted(overlay: Overlay, settings: SettingsValue, now: u64)
    ensures
        overlay.hover_sound_due(settings, now) <==> {
            &&& settings.hover_sound_enabled
            &&& settings.hover_sound_volume.spec_is_nan() || 0 < settings.hover_sound_volume.bits
                < 0x8000_0000_0000_0000
            &&& overlay.last_hover_sound is None || now >= overlay.last_hover_sound->0 + 20_000_000
        },
        overlay.hover_sound_due(settings, now) ==> overlay.after_hover_sound(settings, now)
            == (Overlay { last_hover_sound: Some(now), ..overlay }),
        !overlay.hover_sound_due(settings, now) ==> overlay.after_hover_sound(settings, now)
            == overlay,
{
}

/// The sounds of the buttons are played if they are switched on and their volume is not
/// zero or less.
pub proof fn law_tap_sound_is_wanted(settings: SettingsValue)
    ensures
        tap_wanted(settings) <==> settings.tap_sound_enabled && (
        settings.tap_sound_volume.spec_is_nan() || 0 < settings.tap_sound_volume.bits
            < 0x8000_0000_0000_0000),
{
}

/// A sound comes from where the cursor is, between six tenths to the left and six tenths to
/// the right, and from the nearer of these beyond them.
pub proof fn law_sounds_come_from_the_cursor(place: Number)
    ensures
        ({
            let from = place.spec_clamp(anim::num(LEFTMOST), anim::num(RIGHTMOST));
            let left = Number { bits: 0xBFE3_3333_3333_3333 };
            let right = Number { bits: 0x3FE3_3333_3333_3333 };
            &&& place.below(left) ==> from == left
            &&& right.below(place) ==> from == right
            &&& !place.below(left) && !right.below(place) ==> from == place
        }),
{
}

/// A distance can be held if each of its parts can, and its square if the squares and
/// their sum can.
pub proof fn law_distances_that_can_be_held(overlay: Overlay, at: (i32, i32))
    ensures
        ({
            let dx = at.0 - overlay.down_start.0;
            let dy = at.1 - overlay.down_start.1;
            &&& overlay.drag_fits(at) <==> -0x8000_0000 <= dx <= 0x7FFF_FFFF && -0x8000_0000 <= dy
                <= 0x7FFF_FFFF
            &&& dx * dx + dy * dy <= 0x7FFF_FFFF ==> overlay.drag_square_fits(at)
            &&& overlay.drag_square_fits(at) ==> dx * dx + dy * dy <= 0x7FFF_FFFF
        }),
{
    let dx = at.0 - overlay.down_start.0;
    let dy = at.1 - overlay.down_start.1;
    assert(dx * dx >= 0 && dy * dy >= 0) by (nonlinear_arith);
}

} // verus!
