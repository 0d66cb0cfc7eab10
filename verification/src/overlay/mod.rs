//! The overlay that draws the cursor: what each frame decides from what the system tells.
//!
//! Times are nanoseconds since the Unix epoch. Handles are the numbers that the system
//! gives; zero stands for none.

pub mod anim;
pub mod hook;
pub mod pointer;
pub mod render;
pub mod window;

use vstd::prelude::*;

use crate::audio;
use crate::audio::TapPlayer;
use crate::number::Number;
use crate::overlay::anim::CursorAnim;
use crate::settings::Settings;

verus! {

/// The first of the messages that a program may use for itself.
pub const WM_APP: u32 = 0x8000;

/// Something happened to the icon in the tray.
pub const WM_TRAY: u32 = WM_APP;

/// The cursor is to be switched on or off.
pub const MSG_TOGGLE_CURSOR: u32 = WM_APP + 1;

/// The settings are to be shown.
pub const MSG_OPEN_SETTINGS: u32 = WM_APP + 2;

/// The program is to end.
pub const MSG_EXIT: u32 = WM_APP + 3;

/// The settings have been changed.
pub const MSG_SETTINGS_CHANGED: u32 = WM_APP + 4;

/// The time between two frames in milliseconds.
pub const FRAME_MS: u32 = 8;

/// A step of time longer than this is not taken for one, 0.1 seconds.
pub const MAX_STEP: u64 = 100_000_000;

/// How long the window is left where it is among the others, 0.2 seconds.
pub const Z_ORDER_PERIOD: u64 = 200_000_000;

/// How long the previews of the task bar are not looked for, 0.25 seconds.
pub const PREVIEW_PERIOD: u64 = 250_000_000;

/// How long a hook may be silent while the cursor moves, 20 seconds.
pub const HOOK_SILENCE: u64 = 20_000_000_000;

/// The dots per inch of a screen that is not scaled.
pub const PLAIN_DPI: u32 = 96;

/// A change of the width up to this size is none, 0.001.
pub const WIDTH_CHANGE: u64 = 0x3F50_624D_D2F1_A9FC;

/// What the overlay remembers from frame to frame.
#[derive(Clone, Copy, Debug)]
pub struct Overlay {
    pub anim: CursorAnim,
    /// The width of the cursor on a screen that is not scaled.
    pub cursor_width: Number,
    pub cursor_enabled: bool,
    /// Whether the next frame puts the window on top.
    pub force_topmost: bool,
    /// The dots per inch of the screen that the cursor is on.
    pub dpi: u32,
    /// The screen that `dpi` was taken from.
    pub dpi_monitor: usize,
    /// Where the button went down.
    pub down_start: (i32, i32),
    pub last_cursor_handle: usize,
    /// The cursor that is taken for the ordinary one.
    pub baseline_normal_handle: usize,
    pub was_hovering: bool,
    pub was_hover_candidate: bool,
    pub was_resize_prompt: bool,
    pub last_hover_sound: Option<u64>,
    pub last_frame_time: u64,
    /// Left, top, width and height of the window.
    pub last_window: (i32, i32, i32, i32),
    pub last_foreground: usize,
    pub last_z_order_refresh: Option<u64>,
    pub last_preview_refresh: Option<u64>,
    /// Whether the window shows the cursor as it is.
    pub frame_ready: bool,
    pub mouse_hook_active: bool,
    /// How many reports of the hook have been noticed.
    pub hook_events: u64,
    /// When a report was last noticed.
    pub hook_alive: Option<u64>,
    /// Where the cursor was when the hook was last looked after.
    pub health_pos: (i32, i32),
}

/// Whether at least `period` has passed since a moment; if there was none, it has.
pub open spec fn passed(since: Option<u64>, now: u64, period: u64) -> bool {
    match since {
        Some(moment) => now - moment >= period,
        None => true,
    }
}

/// Tells whether at least `period` has passed since a moment.
pub fn has_passed(since: Option<u64>, now: u64, period: u64) -> (r: bool)
    ensures
        r == passed(since, now, period),
{
    match since {
        Some(moment) => now >= moment && now - moment >= period,
        None => true,
    }
}

/// The time that a frame is calculated for.
#[derive(Clone, Copy, Debug, PartialEq, Eq, Structural)]
pub enum Step {
    /// The nanoseconds since the frame before.
    Elapsed(u64),
    /// A sixtieth of a second, where the clock gives no usable time.
    Nominal,
}

/// The time from one frame to the next.
pub open spec fn step_between(before: u64, now: u64) -> Step {
    if now <= before || now - before > MAX_STEP {
        Step::Nominal
    } else {
        Step::Elapsed((now - before) as u64)
    }
}

impl Overlay {
    /// The state of the animation is well formed.
    pub open spec fn wf(self) -> bool {
        self.anim.wf()
    }

    /// The state at the start, for a width.
    pub open spec fn started(width: Number) -> Overlay {
        Overlay {
            anim: anim::at_first(),
            cursor_width: width.spec_clamp(
                anim::num(anim::MIN_CURSOR_WIDTH),
                anim::num(anim::MAX_CURSOR_WIDTH),
            ),
            cursor_enabled: true,
            force_topmost: true,
            dpi: PLAIN_DPI,
            dpi_monitor: 0,
            down_start: (0, 0),
            last_cursor_handle: 0,
            baseline_normal_handle: 0,
            was_hovering: false,
            was_hover_candidate: false,
            was_resize_prompt: false,
            last_hover_sound: None,
            last_frame_time: 0,
            last_window: (i32::MIN, i32::MIN, 0, 0),
            last_foreground: 0,
            last_z_order_refresh: None,
            last_preview_refresh: None,
            frame_ready: false,
            mouse_hook_active: false,
            hook_events: 0,
            hook_alive: None,
            health_pos: (i32::MIN, i32::MIN),
        }
    }

    /// Starts with a cursor of the given width.
    pub fn new(width: Number) -> (r: Overlay)
        ensures
            r.wf(),
            r == Overlay::started(width),
    {
        Overlay {
            anim: CursorAnim::default(),
            cursor_width: anim::clamp_cursor_width(width),
            cursor_enabled: true,
            force_topmost: true,
            dpi: PLAIN_DPI,
            dpi_monitor: 0,
            down_start: (0, 0),
            last_cursor_handle: 0,
            baseline_normal_handle: 0,
            was_hovering: false,
            was_hover_candidate: false,
            was_resize_prompt: false,
            last_hover_sound: None,
            last_frame_time: 0,
            last_window: (i32::MIN, i32::MIN, 0, 0),
            last_foreground: 0,
            last_z_order_refresh: None,
            last_preview_refresh: None,
            frame_ready: false,
            mouse_hook_active: false,
            hook_events: 0,
            hook_alive: None,
            health_pos: (i32::MIN, i32::MIN),
        }
    }

    /// The state after a hook has been put in place, or could not be.
    pub open spec fn after_hook(self, active: bool, events: u64, now: u64) -> Overlay {
        Overlay { mouse_hook_active: active, hook_events: events, hook_alive: Some(now), ..self }
    }

    /// Takes note of a hook that has been put in place, or could not be: then the buttons
    /// are polled.
    pub fn hook_installed(&mut self, active: bool, events: u64, now: u64)
        requires
            old(self).wf(),
        ensures
            final(self).wf(),
            *final(self) == old(self).after_hook(active, events, now),
    {
        self.mouse_hook_active = active;
        self.hook_events = events;
        self.hook_alive = Some(now);
    }

    /// Whether a frame puts the window on top again: the foreground has changed, it has
    /// not been done for a while, or the window cannot be seen.
    pub open spec fn wants_topmost(self, now: u64, foreground: usize, visible: bool) -> bool {
        ||| foreground != self.last_foreground
        ||| passed(self.last_z_order_refresh, now, Z_ORDER_PERIOD)
        ||| !visible
    }

    /// The state after a frame has begun.
    pub open spec fn after_begin_frame(
        self,
        now: u64,
        foreground: usize,
        visible: bool,
    ) -> Overlay {
        if !self.cursor_enabled {
            self
        } else {
            Overlay {
                last_frame_time: now,
                last_foreground: foreground,
                force_topmost: self.force_topmost || self.wants_topmost(now, foreground, visible),
                ..self
            }
        }
    }

    /// Begins a frame. While the cursor is switched off there is none.
    pub fn begin_frame(&mut self, now: u64, foreground: usize, visible: bool) -> (r: Option<Step>)
        requires
            old(self).wf(),
        ensures
            final(self).wf(),
            *final(self) == old(self).after_begin_frame(now, foreground, visible),
            r == (if old(self).cursor_enabled {
                Some(step_between(old(self).last_frame_time, now))
            } else {
                None
            }),
    {
        if !self.cursor_enabled {
            return None;
        }
        let before: u64 = self.last_frame_time;
        self.last_frame_time = now;
        let step: Step = if now <= before || now - before > MAX_STEP {
            Step::Nominal
        } else {
            Step::Elapsed(now - before)
        };
        if foreground != self.last_foreground {
            self.last_foreground = foreground;
            self.force_topmost = true;
        }
        if has_passed(self.last_z_order_refresh, now, Z_ORDER_PERIOD) || !visible {
            self.force_topmost = true;
        }
        Some(step)
    }

    /// Tells whether the dots per inch of a screen have to be asked for.
    pub fn wants_dpi(&self, monitor: usize) -> (r: bool)
        ensures
            r == (monitor != 0 && monitor != self.dpi_monitor),
    {
        monitor != 0 && monitor != self.dpi_monitor
    }

    /// The state after the screen that the cursor is on has been looked at.
    pub open spec fn after_dpi(self, monitor: usize, dpi: Option<u32>) -> Overlay {
        match dpi {
            Some(value) if monitor != 0 && monitor != self.dpi_monitor => Overlay {
                dpi: value,
                dpi_monitor: monitor,
                frame_ready: self.frame_ready && value == self.dpi,
                force_topmost: self.force_topmost || value != self.dpi,
                ..self
            },
            _ => self,
        }
    }

    /// Takes the dots per inch of the screen that the cursor is on, if it is another one
    /// than before. On a screen with other dots the cursor is drawn anew.
    pub fn update_dpi(&mut self, monitor: usize, dpi: Option<u32>)
        requires
            old(self).wf(),
        ensures
            final(self).wf(),
            *final(self) == old(self).after_dpi(monitor, dpi),
    {
        match dpi {
            Some(value) => {
                if monitor != 0 && monitor != self.dpi_monitor {
                    if value != self.dpi {
                        self.dpi = value;
                        self.frame_ready = false;
                        self.force_topmost = true;
                    }
                    self.dpi_monitor = monitor;
                }
            },
            None => {},
        }
    }

    /// When a report of the hook was last noticed, the coming look included.
    pub open spec fn alive_at(self, events: u64, now: u64) -> Option<u64> {
        if events != self.hook_events {
            Some(now)
        } else {
            self.hook_alive
        }
    }

    /// Whether the hook has been silent for too long, although the cursor moved.
    pub open spec fn hook_is_stale(self, now: u64, events: u64, at: (i32, i32)) -> bool {
        &&& self.mouse_hook_active
        &&& at != self.health_pos
        &&& match self.alive_at(events, now) {
            Some(moment) => now - moment > HOOK_SILENCE,
            None => true,
        }
    }

    /// Looks after the hook, and tells whether it has to be put in place anew.
    pub fn check_hook_health(&mut self, now: u64, events: u64, at: (i32, i32)) -> (r: bool)
        requires
            old(self).wf(),
        ensures
            final(self).wf(),
            r == old(self).hook_is_stale(now, events, at),
            *final(self) == (Overlay {
                hook_events: events,
                hook_alive: old(self).alive_at(events, now),
                health_pos: at,
                ..*old(self)
            }),
    {
        if events != self.hook_events {
            self.hook_events = events;
            self.hook_alive = Some(now);
        }
        let moved: bool = at.0 != self.health_pos.0 || at.1 != self.health_pos.1;
        self.health_pos = at;
        let silent: bool = match self.hook_alive {
            Some(moment) => now >= moment && now - moment > HOOK_SILENCE,
            None => true,
        };
        self.mouse_hook_active && moved && silent
    }
}

/// What a frame does to the window.
#[derive(Clone, Copy, Debug, PartialEq, Eq, Structural)]
pub struct FramePlan {
    /// Whether the window is put to its place, on top of the others.
    pub put: bool,
    /// Whether the cursor is drawn and shown.
    pub draw: bool,
}

/// What follows from switching the cursor on or off.
#[derive(Clone, Copy, Debug, PartialEq, Eq, Structural)]
pub enum ToggleAction {
    /// It is as it was to be.
    Nothing,
    /// The system's cursors and the hook are to be put in place, then reported.
    Install,
    /// The hook and the system's cursors are to be given back, and the window hidden.
    Remove,
}

impl Overlay {
    /// The place of the window when the cursor is at `at`: the tip of the cursor lies
    /// `margin` pixels inside.
    pub fn window_place(at: (i32, i32), margin: i32, width: u32, height: u32) -> (r: (
        i32,
        i32,
        i32,
        i32,
    ))
        requires
            window::fits_i32(at.0 - margin),
            window::fits_i32(at.1 - margin),
        ensures
            r.0 == at.0 - margin,
            r.1 == at.1 - margin,
            r.2 == width as i32,
            r.3 == height as i32,
    {
        (at.0 - margin, at.1 - margin, width as i32, height as i32)
    }

    /// What a frame does to the window: it is put to its place if that is another one than
    /// before or if it has to be on top, and drawn if it looks different.
    pub open spec fn spec_plan(self, place: (i32, i32, i32, i32), changed: bool) -> FramePlan {
        FramePlan {
            put: self.force_topmost || place != self.last_window,
            draw: changed || !self.frame_ready,
        }
    }

    /// The state after the window has been put and drawn.
    pub open spec fn after_render(self, now: u64, place: (i32, i32, i32, i32)) -> Overlay {
        Overlay {
            last_window: place,
            last_z_order_refresh: if self.force_topmost {
                Some(now)
            } else {
                self.last_z_order_refresh
            },
            force_topmost: false,
            frame_ready: true,
            ..self
        }
    }

    /// Says what a frame does to the window.
    pub fn render_frame(
        &mut self,
        now: u64,
        place: (i32, i32, i32, i32),
        changed: bool,
    ) -> (r: FramePlan)
        requires
            old(self).wf(),
        ensures
            final(self).wf(),
            r == old(self).spec_plan(place, changed),
            *final(self) == old(self).after_render(now, place),
    {
        let moved: bool = place.0 != self.last_window.0 || place.1 != self.last_window.1 || place.2
            != self.last_window.2 || place.3 != self.last_window.3;
        let put: bool = self.force_topmost || moved;
        if put {
            self.last_window = place;
            if self.force_topmost {
                self.last_z_order_refresh = Some(now);
            }
            self.force_topmost = false;
        }
        let draw: bool = changed || !self.frame_ready;
        if draw {
            self.frame_ready = true;
        }
        FramePlan { put, draw }
    }

    /// The state after the previews have been looked for, or it was too early.
    pub open spec fn after_preview(self, now: u64) -> Overlay {
        if passed(self.last_preview_refresh, now, PREVIEW_PERIOD) {
            Overlay { last_preview_refresh: Some(now), ..self }
        } else {
            self
        }
    }

    /// Tells whether it is time to look for the previews of the task bar.
    pub fn try_bring_above_taskbar_preview(&mut self, now: u64) -> (r: bool)
        requires
            old(self).wf(),
        ensures
            final(self).wf(),
            r == passed(old(self).last_preview_refresh, now, PREVIEW_PERIOD),
            *final(self) == old(self).after_preview(now),
    {
        if !has_passed(self.last_preview_refresh, now, PREVIEW_PERIOD) {
            return false;
        }
        self.last_preview_refresh = Some(now);
        true
    }

    /// The state after the cursor has been switched on or off.
    pub open spec fn after_toggle(self, enabled: bool) -> Overlay {
        Overlay {
            cursor_enabled: enabled,
            mouse_hook_active: self.mouse_hook_active && (enabled || !self.cursor_enabled),
            ..self
        }
    }

    /// Switches the cursor on or off.
    pub fn toggle_enabled(&mut self, enabled: bool) -> (r: ToggleAction)
        requires
            old(self).wf(),
        ensures
            final(self).wf(),
            r == (if old(self).cursor_enabled == enabled {
                ToggleAction::Nothing
            } else if enabled {
                ToggleAction::Install
            } else {
                ToggleAction::Remove
            }),
            *final(self) == old(self).after_toggle(enabled),
    {
        if self.cursor_enabled == enabled {
            return ToggleAction::Nothing;
        }
        self.cursor_enabled = enabled;
        if enabled {
            ToggleAction::Install
        } else {
            self.mouse_hook_active = false;
            ToggleAction::Remove
        }
    }

    /// The state after the system's cursors and the hook have been put in place.
    pub open spec fn after_enable(
        self,
        active: bool,
        events: u64,
        now: u64,
        at: (i32, i32),
    ) -> Overlay {
        Overlay { health_pos: at, force_topmost: true, frame_ready: false, ..self }.after_hook(
            active,
            events,
            now,
        )
    }

    /// Takes note that the system's cursors have been replaced and of what came of the
    /// hook: the window is drawn anew, on top.
    pub fn enabled(&mut self, active: bool, events: u64, now: u64, at: (i32, i32))
        requires
            old(self).wf(),
        ensures
            final(self).wf(),
            *final(self) == old(self).after_enable(active, events, now, at),
    {
        self.hook_installed(active, events, now);
        self.health_pos = at;
        self.force_topmost = true;
        self.frame_ready = false;
    }

    /// Takes note that the system's cursors could not be replaced: the cursor stays
    /// switched off.
    pub fn not_enabled(&mut self)
        requires
            old(self).wf(),
        ensures
            final(self).wf(),
            *final(self) == (Overlay { cursor_enabled: false, ..*old(self) }),
    {
        self.cursor_enabled = false;
    }

    /// The state after another width has been set, which differs by `gap` from the one
    /// before.
    pub open spec fn after_width(self, width: Number, gap: Number) -> Overlay {
        if anim::num(WIDTH_CHANGE).below(gap.spec_abs()) {
            Overlay {
                cursor_width: width.spec_clamp(
                    anim::num(anim::MIN_CURSOR_WIDTH),
                    anim::num(anim::MAX_CURSOR_WIDTH),
                ),
                force_topmost: true,
                ..self
            }
        } else {
            self
        }
    }

    /// Takes over changed settings. The volumes are given in thousandths; `gap` is the
    /// difference between the allowed width and the present one.
    pub fn reapply_settings(
        &mut self,
        settings: &Settings,
        tap: &mut TapPlayer,
        hover: &mut TapPlayer,
        tap_volume: u32,
        hover_volume: u32,
        gap: Number,
    )
        requires
            old(self).wf(),
            old(tap).wf(),
            old(hover).wf(),
        ensures
            final(self).wf(),
            *final(tap) == configured(settings.tap_sound_enabled, tap_volume),
            *final(hover) == configured(settings.hover_sound_enabled, hover_volume),
            *final(self) == old(self).after_width(settings.cursor_width, gap),
    {
        configure(tap, settings.tap_sound_enabled, tap_volume);
        configure(hover, settings.hover_sound_enabled, hover_volume);
        if Number::from_bits(WIDTH_CHANGE).is_below(gap.abs()) {
            self.cursor_width = anim::clamp_cursor_width(settings.cursor_width);
            self.force_topmost = true;
        }
    }
}

/// A player with the given switches.
pub open spec fn configured(enabled: bool, thousandths: u32) -> TapPlayer {
    TapPlayer {
        enabled,
        volume: if thousandths <= audio::FULL_VOLUME {
            thousandths
        } else {
            audio::FULL_VOLUME
        },
    }
}

/// Sets the switches of a player.
pub fn configure(player: &mut TapPlayer, enabled: bool, thousandths: u32)
    requires
        old(player).wf(),
    ensures
        final(player).wf(),
        *final(player) == configured(enabled, thousandths),
{
    player.set_enabled(enabled);
    player.set_volume(thousandths);
}

/// A visible window is put on top when the period is over, and then, as long as the
/// foreground stays the same, not again before another period is.
pub proof fn law_window_returns_to_the_top(
    overlay: Overlay,
    now: u64,
    foreground: usize,
    place: (i32, i32, i32, i32),
    changed: bool,
)
    requires
        overlay.cursor_enabled,
        passed(overlay.last_z_order_refresh, now, Z_ORDER_PERIOD),
    ensures
        overlay.after_begin_frame(now, foreground, true).spec_plan(place, changed).put,
        overlay.after_begin_frame(now, foreground, true).after_render(now, place).last_z_order_refresh
            == Some(now),
        forall|later: u64|
            now <= later < now + Z_ORDER_PERIOD ==> !(#[trigger] overlay.after_begin_frame(
                now,
                foreground,
                true,
            ).after_render(now, place).wants_topmost(later, foreground, true)),
{
}

/// While nothing changes, a frame neither puts the window anywhere nor draws it, and
/// leaves the state as it is.
pub proof fn law_idle_frame_does_nothing(overlay: Overlay, now: u64)
    requires
        !overlay.force_topmost,
        overlay.frame_ready,
    ensures
        overlay.spec_plan(overlay.last_window, false) == (FramePlan { put: false, draw: false }),
        overlay.after_render(now, overlay.last_window) == overlay,
{
}

/// When the cursor only moves, the window is put to its place without being drawn.
pub proof fn law_moving_does_not_draw(overlay: Overlay, place: (i32, i32, i32, i32))
    requires
        overlay.frame_ready,
        place != overlay.last_window,
    ensures
        overlay.spec_plan(place, false) == (FramePlan { put: true, draw: false }),
{
}

/// A screen with other dots per inch has the cursor drawn anew, on top, in the same frame.
pub proof fn law_other_dots_are_drawn_at_once(
    overlay: Overlay,
    monitor: usize,
    dpi: u32,
    place: (i32, i32, i32, i32),
    changed: bool,
)
    requires
        monitor != 0,
        monitor != overlay.dpi_monitor,
        dpi != overlay.dpi,
    ensures
        overlay.after_dpi(monitor, Some(dpi)).spec_plan(place, changed) == (FramePlan {
            put: true,
            draw: true,
        }),
        overlay.after_dpi(monitor, Some(dpi)).dpi == dpi,
{
}

/// The previews are looked for once in each period at most.
pub proof fn law_previews_are_looked_for_rarely(overlay: Overlay, now: u64, later: u64)
    requires
        passed(overlay.last_preview_refresh, now, PREVIEW_PERIOD),
    ensures
        passed(overlay.after_preview(now).last_preview_refresh, later, PREVIEW_PERIOD) <==> later
            >= now + PREVIEW_PERIOD,
{
}

/// A hook that has just been put in place is not put in place again before it has been
/// silent for as long as it may be.
pub proof fn law_new_hook_is_given_time(
    overlay: Overlay,
    active: bool,
    events: u64,
    now: u64,
    later: u64,
    at: (i32, i32),
)
    requires
        later <= now + HOOK_SILENCE,
    ensures
        !overlay.after_hook(active, events, now).hook_is_stale(later, events, at),
{
}

/// A hook that reports is never put in place anew, and neither is one that is silent
/// while the cursor rests.
pub proof fn law_living_hook_is_left_alone(
    overlay: Overlay,
    now: u64,
    events: u64,
    at: (i32, i32),
)
    requires
        events != overlay.hook_events || at == overlay.health_pos,
    ensures
        !overlay.hook_is_stale(now, events, at),
{
}

/// Switching the cursor off and on again, where the system's cursors can be replaced,
/// leaves it switched on, to be drawn anew on top; where they cannot, it stays off.
pub proof fn law_switching_off_and_on(
    overlay: Overlay,
    active: bool,
    events: u64,
    now: u64,
    at: (i32, i32),
)
    requires
        overlay.cursor_enabled,
    ensures
        ({
            let off = overlay.after_toggle(false);
            let on = off.after_toggle(true).after_enable(active, events, now, at);
            &&& !off.cursor_enabled
            &&& !off.mouse_hook_active
            &&& on.cursor_enabled
            &&& on.mouse_hook_active == active
            &&& on.force_topmost
            &&& !on.frame_ready
            &&& on.anim == overlay.anim
            &&& Overlay { cursor_enabled: false, ..off.after_toggle(true) } == off
        }),
{
}

/// While the cursor is switched off, frames change nothing.
pub proof fn law_no_frames_while_off(overlay: Overlay, now: u64, foreground: usize, visible: bool)
    requires
        !overlay.cursor_enabled,
    ensures
        overlay.after_begin_frame(now, foreground, visible) == overlay,
{
}

/// The width in use is always an allowed one.
pub proof fn law_width_in_use_is_allowed(overlay: Overlay, width: Number, gap: Number)
    requires
        !width.spec_is_nan(),
        anim::num(WIDTH_CHANGE).below(gap.spec_abs()),
    ensures
        anim::num(anim::MIN_CURSOR_WIDTH).at_most(overlay.after_width(width, gap).cursor_width),
        overlay.after_width(width, gap).cursor_width.at_most(anim::num(anim::MAX_CURSOR_WIDTH)),
        anim::num(anim::MIN_CURSOR_WIDTH).at_most(Overlay::started(width).cursor_width),
        Overlay::started(width).cursor_width.at_most(anim::num(anim::MAX_CURSOR_WIDTH)),
{
}

/// A period has passed since a moment as soon as the clock is that far on, and not before;
/// a clock that was set back has not gone on. Without a moment it has passed.
pub proof fn law_periods_pass_by_the_clock(moment: u64, now: u64, period: u64)
    ensures
        passed(None, now, period),
        passed(Some(moment), now, period) <==> now >= moment + period,
{
}

/// The time of a frame is what the clock says, as long as that is more than nothing and at
/// most a tenth of a second; otherwise it is the nominal one. A frame comes every eight
/// milliseconds.
pub proof fn law_frames_take_plausible_times(before: u64, now: u64)
    ensures
        before < now <= before + 100_000_000 ==> step_between(before, now) == Step::Elapsed(
            (now - before) as u64,
        ),
        now <= before || now > before + 100_000_000 ==> step_between(before, now) == Step::Nominal,
        FRAME_MS == 8,
{
}

/// The overlay starts switched on, to be drawn and put on top in its first frame, with its
/// cursor at rest, on a screen that is not scaled, and without a hook, a sound or a window
/// to remember.
pub proof fn law_overlay_starts_fresh(width: Number, place: (i32, i32, i32, i32), changed: bool)
    ensures
        ({
            let fresh = Overlay::started(width);
            let least = Number { bits: 0x4030_0000_0000_0000 };
            let most = Number { bits: 0x4050_0000_0000_0000 };
            &&& fresh.anim == anim::at_first()
            &&& width.below(least) ==> fresh.cursor_width == least
            &&& most.below(width) ==> fresh.cursor_width == most
            &&& !width.below(least) && !most.below(width) ==> fresh.cursor_width == width
            &&& fresh.cursor_enabled
            &&& fresh.force_topmost
            &&& fresh.spec_plan(place, changed) == (FramePlan { put: true, draw: true })
            &&& fresh.dpi == 96
            &&& fresh.dpi_monitor == 0
            &&& fresh.down_start == (0i32, 0i32)
            &&& fresh.last_cursor_handle == 0
            &&& fresh.baseline_normal_handle == 0
            &&& !fresh.was_hovering
            &&& !fresh.was_hover_candidate
            &&& !fresh.was_resize_prompt
            &&& fresh.last_hover_sound is None
            &&& fresh.last_frame_time == 0
            &&& fresh.last_window == (-0x8000_0000i32, -0x8000_0000i32, 0i32, 0i32)
            &&& fresh.last_foreground == 0
            &&& fresh.last_z_order_refresh is None
            &&& fresh.last_preview_refresh is None
            &&& !fresh.frame_ready
            &&& !fresh.mouse_hook_active
            &&& fresh.hook_events == 0
            &&& fresh.hook_alive is None
            &&& fresh.health_pos == (-0x8000_0000i32, -0x8000_0000i32)
        }),
{
}

/// A hook that was put in place, or could not be, is noted with the moment and with how far
/// its reports have come; nothing else changes.
pub proof fn law_hook_is_noted(overlay: Overlay, active: bool, events: u64, now: u64)
    ensures
        overlay.after_hook(active, events, now).mouse_hook_active == active,
        overlay.after_hook(active, events, now).hook_events == events,
        overlay.after_hook(active, events, now).hook_alive == Some(now),
        overlay.after_hook(active, events, now) == (Overlay {
            mouse_hook_active: active,
            hook_events: events,
            hook_alive: Some(now),
            ..overlay
        }),
{
}

/// The window is wanted on top when another window has come to the foreground, when it
/// cannot be seen, when it has never been put there or not for a fifth of a second; and for
/// no other reason.
pub proof fn law_reasons_to_be_on_top(
    overlay: Overlay,
    now: u64,
    foreground: usize,
    visible: bool,
)
    ensures
        overlay.wants_topmost(now, foreground, visible) <==> {
            ||| foreground != overlay.last_foreground
            ||| !visible
            ||| overlay.last_z_order_refresh is None
            ||| now >= overlay.last_z_order_refresh->0 + 200_000_000
        },
        ({
            let after = overlay.after_begin_frame(now, foreground, visible);
            &&& overlay.cursor_enabled ==> after.last_frame_time == now && after.last_foreground
                == foreground
            &&& overlay.cursor_enabled ==> after.force_topmost == (overlay.force_topmost
                || overlay.wants_topmost(now, foreground, visible))
            &&& after == (Overlay {
                last_frame_time: after.last_frame_time,
                last_foreground: after.last_foreground,
                force_topmost: after.force_topmost,
                ..overlay
            })
        }),
{
}

/// The dots per inch follow the screen that the cursor is on: those of another screen are
/// taken, those of the same one, of none, or that are not known are not. Where they are the
/// same dots, nothing has to be drawn or put on top for that.
pub proof fn law_dots_follow_the_screen(overlay: Overlay, monitor: usize, dpi: u32)
    ensures
        ({
            let other = monitor != 0 && monitor != overlay.dpi_monitor;
            let after = overlay.after_dpi(monitor, Some(dpi));
            &&& overlay.after_dpi(monitor, None) == overlay
            &&& !other ==> after == overlay
            &&& other ==> after.dpi == dpi && after.dpi_monitor == monitor
            &&& other && dpi == overlay.dpi ==> after.frame_ready == overlay.frame_ready
                && after.force_topmost == overlay.force_topmost
            &&& other && dpi != overlay.dpi ==> !after.frame_ready && after.force_topmost
            &&& after == (Overlay {
                dpi: after.dpi,
                dpi_monitor: after.dpi_monitor,
                frame_ready: after.frame_ready,
                force_topmost: after.force_topmost,
                ..overlay
            })
        }),
{
}

/// A hook is put in place anew if and only if there is one, the cursor has moved, no report
/// came since the last look, and the last one was noticed more than twenty seconds ago or
/// never.
pub proof fn law_silent_hooks_are_replaced(
    overlay: Overlay,
    now: u64,
    events: u64,
    at: (i32, i32),
)
    ensures
        overlay.alive_at(events, now) == (if events == overlay.hook_events {
            overlay.hook_alive
        } else {
            Some(now)
        }),
        overlay.hook_is_stale(now, events, at) <==> {
            &&& overlay.mouse_hook_active
            &&& at.0 != overlay.health_pos.0 || at.1 != overlay.health_pos.1
            &&& events == overlay.hook_events
            &&& overlay.hook_alive is None || now > overlay.hook_alive->0 + 20_000_000_000
        },
{
}

/// A frame puts the window somewhere if and only if it has to be on top or its place has
/// changed in any number, and draws it if and only if it looks different or does not show
/// the cursor as it is.
pub proof fn law_frames_do_what_is_needed(
    overlay: Overlay,
    place: (i32, i32, i32, i32),
    changed: bool,
)
    ensures
        overlay.spec_plan(place, changed).put <==> {
            ||| overlay.force_topmost
            ||| place.0 != overlay.last_window.0
            ||| place.1 != overlay.last_window.1
            ||| place.2 != overlay.last_window.2
            ||| place.3 != overlay.last_window.3
        },
        overlay.spec_plan(place, changed).draw <==> changed || !overlay.frame_ready,
{
}

/// After a frame the window stands at its place and shows the cursor as it is, and nothing
/// asks for the top any more; the moment is noted if it was put there. A second frame at
/// the same place has nothing to do.
pub proof fn law_frame_is_done(
    overlay: Overlay,
    now: u64,
    later: u64,
    place: (i32, i32, i32, i32),
)
    ensures
        ({
            let after = overlay.after_render(now, place);
            &&& after.last_window == place
            &&& after.frame_ready
            &&& !after.force_topmost
            &&& overlay.force_topmost ==> after.last_z_order_refresh == Some(now)
            &&& !overlay.force_topmost ==> after.last_z_order_refresh
                == overlay.last_z_order_refresh
            &&& after.spec_plan(place, false) == (FramePlan { put: false, draw: false })
            &&& after.after_render(later, place) == after
            &&& after == (Overlay {
                last_window: place,
                last_z_order_refresh: after.last_z_order_refresh,
                force_topmost: false,
                frame_ready: true,
                ..overlay
            })
        }),
{
}

/// The previews are looked for if that was never done or a quarter of a second ago, which
/// is then noted; before that nothing changes.
pub proof fn law_previews_are_noted(overlay: Overlay, now: u64)
    ensures
        passed(overlay.last_preview_refresh, now, PREVIEW_PERIOD) <==> {
            ||| overlay.last_preview_refresh is None
            ||| now >= overlay.last_preview_refresh->0 + 250_000_000
        },
        passed(overlay.last_preview_refresh, now, PREVIEW_PERIOD) ==> overlay.after_preview(now)
            == (Overlay { last_preview_refresh: Some(now), ..overlay }),
        !passed(overlay.last_preview_refresh, now, PREVIEW_PERIOD) ==> overlay.after_preview(now)
            == overlay,
{
}

/// Switching the cursor makes it what it was to be. Switching off what was on gives up the
/// hook; switching to what it is already, or switching on, leaves the rest as it is.
pub proof fn law_switching_sets_the_cursor(overlay: Overlay, enabled: bool)
    ensures
        overlay.after_toggle(enabled).cursor_enabled == enabled,
        overlay.cursor_enabled == enabled ==> overlay.after_toggle(enabled) == overlay,
        overlay.cursor_enabled && !enabled ==> !overlay.after_toggle(enabled).mouse_hook_active,
        !overlay.cursor_enabled && enabled ==> overlay.after_toggle(enabled) == (Overlay {
            cursor_enabled: true,
            ..overlay
        }),
        overlay.after_toggle(enabled) == (Overlay {
            cursor_enabled: enabled,
            mouse_hook_active: overlay.after_toggle(enabled).mouse_hook_active,
            ..overlay
        }),
{
}

/// A cursor that was switched on is drawn anew, on top, and its hook counts as alive from
/// that moment and that place on; nothing else changes.
pub proof fn law_switched_on_cursor_is_drawn(
    overlay: Overlay,
    active: bool,
    events: u64,
    now: u64,
    at: (i32, i32),
    place: (i32, i32, i32, i32),
    changed: bool,
)
    ensures
        ({
            let on = overlay.after_enable(active, events, now, at);
            &&& on.spec_plan(place, changed) == (FramePlan { put: true, draw: true })
            &&& on == (Overlay {
                mouse_hook_active: active,
                hook_events: events,
                hook_alive: Some(now),
                health_pos: at,
                force_topmost: true,
                frame_ready: false,
                ..overlay
            })
        }),
{
}

/// Another width is taken over, inside its range from 16 to 64, if it differs by more than
/// a thousandth, in either direction; a smaller difference changes nothing.
pub proof fn law_other_widths_are_taken_over(overlay: Overlay, width: Number, gap: Number)
    ensures
        ({
            let after = overlay.after_width(width, gap);
            let differs = 0x3F50_624D_D2F1_A9FC < gap.bits % 0x8000_0000_0000_0000
                <= 0x7FF0_0000_0000_0000;
            let least = Number { bits: 0x4030_0000_0000_0000 };
            let most = Number { bits: 0x4050_0000_0000_0000 };
            &&& !differs ==> after == overlay
            &&& differs ==> after.force_topmost
            &&& differs && width.below(least) ==> after.cursor_width == least
            &&& differs && most.below(width) ==> after.cursor_width == most
            &&& differs && !width.below(least) && !most.below(width) ==> after.cursor_width
                == width
            &&& after == (Overlay {
                cursor_width: after.cursor_width,
                force_topmost: after.force_topmost,
                ..overlay
            })
        }),
{
}

/// A player is switched as it is told, at the volume that it is told, and at full volume
/// where that is more than a thousand thousandths.
pub proof fn law_players_are_set_as_told(enabled: bool, thousandths: u32)
    ensures
        configured(enabled, thousandths).enabled == enabled,
        thousandths <= 1000 ==> configured(enabled, thousandths).volume == thousandths,
        thousandths > 1000 ==> configured(enabled, thousandths).volume == 1000,
{
}

/// The state of the overlay is well formed if and only if that of its animation is.
pub proof fn law_overlay_is_as_sound_as_its_animation(overlay: Overlay)
    ensures
        overlay.wf() <==> overlay.anim.wf(),
{
}

} // verus!
