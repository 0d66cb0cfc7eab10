//! The animation of the cursor: which motion it is in, what each motion leads to and
//! when it has come to rest.
//!
//! A frame alternates between this module and the caller. The module says which motion
//! applies and what it aims at; the caller calculates the numbers of the next moment;
//! the module takes them in and decides what follows from them.

use vstd::prelude::*;

use crate::number::{Number, ZERO};

verus! {

/// The angle of the pointing hand, 24.3 degrees.
pub const POINTER_ANGLE: u64 = 0x4038_4CCC_CCCC_CCCD;

/// The narrowest cursor, 16 pixels.
pub const MIN_CURSOR_WIDTH: u64 = 0x4030_0000_0000_0000;

/// The widest cursor, 64 pixels.
pub const MAX_CURSOR_WIDTH: u64 = 0x4050_0000_0000_0000;

/// One.
pub const ONE: u64 = 0x3FF0_0000_0000_0000;

/// One half: the duration of the spin in seconds, and the angle in degrees below which
/// nothing is left to return from.
pub const HALF: u64 = 0x3FE0_0000_0000_0000;

/// The size of the pressed cursor, 0.9.
pub const PRESSED_SCALE: u64 = 0x3FEC_CCCC_CCCC_CCCD;

/// The smallest size, 0.8.
pub const MIN_SCALE: u64 = 0x3FE9_9999_9999_999A;

/// The largest size, 1.1.
pub const MAX_SCALE: u64 = 0x3FF1_9999_9999_999A;

/// The duration of the shortest elastic return, 0.42 seconds.
pub const ELASTIC_BASE_DURATION: u64 = 0x3FDA_E147_AE14_7AE1;

/// A value this close to its target has arrived, 0.0008.
pub const SETTLE_POSITION_EPSILON: u64 = 0x3F4A_36E2_EB1C_432D;

/// A value this slow has arrived, 0.01.
pub const SETTLE_VELOCITY_EPSILON: u64 = 0x3F84_7AE1_47AE_147B;

/// A change up to this size cannot be seen, 0.0001.
pub const VISIBLE_CHANGE: u64 = 0x3F1A_36E2_EB1C_432D;

/// The number with the given pattern.
pub open spec fn num(bits: u64) -> Number {
    Number { bits }
}

/// What the cursor is doing.
#[derive(Clone, Copy, Debug)]
pub enum Motion {
    /// Pressed without being dragged: it turns upright.
    Hold,
    /// Dragged: it points along the drag. `first` is set in the first frame of a drag.
    Drag { first: bool },
    /// Released: it spins.
    Spin,
    /// Released: it swings back.
    Elastic,
    /// Left alone: it turns towards `target`.
    Rest { target: Number },
}

/// The numbers of the next moment, calculated for one motion.
#[derive(Clone, Copy, Debug)]
pub enum MotionStep {
    /// The angle on its way to zero.
    Hold { angle: Number },
    /// The direction of the drag, the unwound angle that it leads to, and the angle on
    /// its way there.
    Drag { raw_angle: Number, target: Number, angle: Number },
    /// The time since the spin began, the angle now, the angle at the end of the spin
    /// reduced to one turn, and the duration of an elastic return from there.
    Spin { elapsed: Number, angle: Number, settled: Number, elastic_duration: Number },
    /// The time since the return began, the part of the return that is over, and the
    /// angle now.
    Elastic { elapsed: Number, progress: Number, angle: Number },
    /// The angular velocity and the angle.
    Rest { velocity: Number, angle: Number },
}

/// What size and glow aim at.
#[derive(Clone, Copy, Debug)]
pub struct Goals {
    pub scale: Number,
    pub additive: Number,
}

/// The next size and glow with their velocities.
#[derive(Clone, Copy, Debug)]
pub struct Springs {
    pub scale_value: Number,
    pub scale_velocity: Number,
    pub additive_opacity: Number,
    pub opacity_velocity: Number,
}

/// How far angle, size and glow are from what they aim at.
#[derive(Clone, Copy, Debug)]
pub struct Gaps {
    pub angle: Number,
    pub scale: Number,
    pub additive: Number,
}

/// The state of the animation.
#[derive(Clone, Copy, Debug)]
pub struct CursorAnim {
    pub angle: Number,
    pub angle_velocity: Number,
    pub scale_value: Number,
    pub scale_velocity: Number,
    pub additive_opacity: Number,
    pub opacity_velocity: Number,
    pub mouse_down: bool,
    pub drag_active: bool,
    pub pointer_hover: bool,
    /// The angle that is kept over the border of a window that can be resized.
    pub resize_angle: Option<Number>,
    pub spin_returning: bool,
    pub elastic_returning: bool,
    pub spin_elapsed: Number,
    pub spin_duration: Number,
    pub spin_start_angle: Number,
    pub spin_end_angle: Number,
    pub elastic_start_angle: Number,
    pub elastic_duration: Number,
    pub elastic_elapsed: Number,
    /// The unwound angle that a drag leads to.
    pub drag_target_angle: Number,
    /// The direction of the drag in the frame before.
    pub last_drag_raw_angle: Number,
    pub drag_angle_initialized: bool,
}

/// Whether a value has arrived at its target.
pub open spec fn arrived(gap: Number, velocity: Number) -> bool {
    gap.spec_abs().below(num(SETTLE_POSITION_EPSILON)) && velocity.spec_abs().below(
        num(SETTLE_VELOCITY_EPSILON),
    )
}

/// A value and its velocity after settling on a target.
pub open spec fn settled_pair(
    value: Number,
    velocity: Number,
    target: Number,
    gap: Number,
) -> (Number, Number) {
    if arrived(gap, velocity) {
        (target, num(ZERO))
    } else {
        (value, velocity)
    }
}

impl CursorAnim {
    /// A pressed cursor neither spins nor swings back, it never does both, and only a
    /// pressed cursor is dragged.
    pub open spec fn wf(self) -> bool {
        &&& self.mouse_down ==> !self.spin_returning && !self.elastic_returning
        &&& !(self.spin_returning && self.elastic_returning)
        &&& self.drag_active ==> self.mouse_down
    }

    /// The angle of a cursor that is left alone: along a border first, then that of the
    /// hand, then upright.
    pub open spec fn rest_target(self) -> Number {
        match self.resize_angle {
            Some(angle) => angle,
            None => if self.pointer_hover {
                num(POINTER_ANGLE)
            } else {
                num(ZERO)
            },
        }
    }

    /// The motion of the coming frame.
    pub open spec fn spec_motion(self) -> Motion {
        if self.mouse_down {
            if self.drag_active {
                Motion::Drag { first: !self.drag_angle_initialized }
            } else {
                Motion::Hold
            }
        } else if self.spin_returning {
            Motion::Spin
        } else if self.elastic_returning {
            Motion::Elastic
        } else {
            Motion::Rest { target: self.rest_target() }
        }
    }

    /// What size and glow aim at in the coming frame: small and glowing while pressed,
    /// glowing under the hand, plain otherwise.
    pub open spec fn spec_goals(self) -> Goals {
        match self.spec_motion() {
            Motion::Hold | Motion::Drag { .. } => Goals {
                scale: num(PRESSED_SCALE),
                additive: num(ONE),
            },
            Motion::Spin | Motion::Elastic => Goals { scale: num(ONE), additive: num(ZERO) },
            Motion::Rest { .. } => Goals {
                scale: num(ONE),
                additive: if self.pointer_hover {
                    num(ONE)
                } else {
                    num(ZERO)
                },
            },
        }
    }

    /// Whether the numbers belong to the motion of the coming frame.
    pub open spec fn expects(self, step: MotionStep) -> bool {
        match step {
            MotionStep::Hold { .. } => self.spec_motion() is Hold,
            MotionStep::Drag { .. } => self.spec_motion() is Drag,
            MotionStep::Spin { .. } => self.spec_motion() is Spin,
            MotionStep::Elastic { .. } => self.spec_motion() is Elastic,
            MotionStep::Rest { .. } => self.spec_motion() is Rest,
        }
    }

    /// The state after a press.
    pub open spec fn after_begin_press(self) -> CursorAnim {
        CursorAnim {
            spin_returning: false,
            elastic_returning: false,
            resize_angle: None,
            mouse_down: true,
            drag_active: false,
            drag_target_angle: self.angle,
            last_drag_raw_angle: num(ZERO),
            drag_angle_initialized: false,
            ..self
        }
    }

    /// The state after a release has begun with a spin to `spin_end`; an angle too small
    /// to be seen is left as it is.
    pub open spec fn after_start_release(self, spin_end: Number) -> CursorAnim {
        if self.angle.spec_abs().below(num(HALF)) {
            self
        } else {
            CursorAnim {
                spin_returning: true,
                spin_elapsed: num(ZERO),
                spin_duration: num(HALF),
                spin_start_angle: self.angle,
                spin_end_angle: spin_end,
                angle_velocity: num(ZERO),
                ..self
            }
        }
    }

    /// The state after the button has been let go.
    pub open spec fn after_end_press(self, spin_end: Number) -> CursorAnim {
        if !self.mouse_down {
            self
        } else {
            let released = if self.drag_active {
                self.after_start_release(spin_end)
            } else {
                self
            };
            CursorAnim { mouse_down: false, drag_active: false, ..released }
        }
    }

    /// The state after an elastic return from `start` has begun; an angle too small to be
    /// seen needs none.
    pub open spec fn after_start_elastic(self, start: Number, duration: Number) -> CursorAnim {
        if start.spec_abs().below(num(HALF)) {
            self
        } else {
            CursorAnim {
                elastic_start_angle: start,
                elastic_duration: duration,
                elastic_elapsed: num(ZERO),
                elastic_returning: true,
                angle_velocity: num(ZERO),
                ..self
            }
        }
    }

    /// The state after the numbers of a motion have been taken in.
    pub open spec fn after_step(self, step: MotionStep) -> CursorAnim {
        match step {
            MotionStep::Hold { angle } => CursorAnim { angle, ..self },
            MotionStep::Drag { raw_angle, target, angle } => CursorAnim {
                drag_target_angle: target,
                last_drag_raw_angle: raw_angle,
                drag_angle_initialized: true,
                angle,
                ..self
            },
            MotionStep::Spin { elapsed, angle, settled, elastic_duration } => {
                if self.spin_duration.at_most(elapsed) {
                    CursorAnim {
                        spin_elapsed: elapsed,
                        spin_returning: false,
                        angle: settled,
                        ..self
                    }.after_start_elastic(settled, elastic_duration)
                } else {
                    CursorAnim { spin_elapsed: elapsed, angle, ..self }
                }
            },
            MotionStep::Elastic { elapsed, progress, angle } => {
                if num(ONE).at_most(progress) {
                    CursorAnim {
                        elastic_elapsed: elapsed,
                        angle: num(ZERO),
                        elastic_returning: false,
                        angle_velocity: num(ZERO),
                        ..self
                    }
                } else {
                    CursorAnim { elastic_elapsed: elapsed, angle, ..self }
                }
            },
            MotionStep::Rest { velocity, angle } => CursorAnim {
                angle_velocity: velocity,
                angle,
                ..self
            },
        }
    }

    /// The state after size and glow have been taken in, each within its bounds.
    pub open spec fn after_springs(self, next: Springs) -> CursorAnim {
        CursorAnim {
            scale_velocity: next.scale_velocity,
            scale_value: next.scale_value.spec_clamp(num(MIN_SCALE), num(MAX_SCALE)),
            opacity_velocity: next.opacity_velocity,
            additive_opacity: next.additive_opacity.spec_clamp(num(ZERO), num(ONE)),
            ..self
        }
    }

    /// What the angle settles on; nothing while the cursor returns.
    pub open spec fn spec_settle_target(self) -> Option<Number> {
        if self.elastic_returning || self.spin_returning {
            None
        } else if self.mouse_down {
            if self.drag_active {
                Some(self.drag_target_angle)
            } else {
                Some(num(ZERO))
            }
        } else {
            Some(self.rest_target())
        }
    }

    /// The state after what has arrived at its target has been put there.
    pub open spec fn after_settle(self, goals: Goals, gaps: Gaps) -> CursorAnim {
        let (angle, angle_velocity) = match self.spec_settle_target() {
            Some(target) => settled_pair(self.angle, self.angle_velocity, target, gaps.angle),
            None => (self.angle, self.angle_velocity),
        };
        let (scale_value, scale_velocity) = settled_pair(
            self.scale_value,
            self.scale_velocity,
            goals.scale,
            gaps.scale,
        );
        let (additive_opacity, opacity_velocity) = settled_pair(
            self.additive_opacity,
            self.opacity_velocity,
            goals.additive,
            gaps.additive,
        );
        CursorAnim {
            angle,
            angle_velocity,
            scale_value,
            scale_velocity,
            additive_opacity,
            opacity_velocity,
            ..self
        }
    }

    /// Whether one of the differences in angle, size and glow is large enough to be seen.
    pub open spec fn visible(angle: Number, scale: Number, additive: Number) -> bool {
        ||| num(VISIBLE_CHANGE).below(angle.spec_abs())
        ||| num(VISIBLE_CHANGE).below(scale.spec_abs())
        ||| num(VISIBLE_CHANGE).below(additive.spec_abs())
    }

    /// Tells whether a change of angle, size or glow can be seen.
    pub fn visual_changed_from(angle: Number, scale: Number, additive: Number) -> (r: bool)
        ensures
            r == CursorAnim::visible(angle, scale, additive),
    {
        let least: Number = Number::from_bits(VISIBLE_CHANGE);
        least.is_below(angle.abs()) || least.is_below(scale.abs()) || least.is_below(
            additive.abs(),
        )
    }

    /// Takes a press: every motion ends, and the cursor may be dragged.
    pub fn begin_press(&mut self)
        ensures
            final(self).wf(),
            *final(self) == old(self).after_begin_press(),
    {
        self.spin_returning = false;
        self.elastic_returning = false;
        self.resize_angle = None;
        self.mouse_down = true;
        self.drag_active = false;
        self.drag_target_angle = self.angle;
        self.last_drag_raw_angle = Number::from_bits(ZERO);
        self.drag_angle_initialized = false;
    }

    /// Takes a release. A cursor that was dragged spins to `spin_end`, which is three
    /// turns on from its angle, before it swings back.
    pub fn end_press(&mut self, spin_end: Number)
        requires
            old(self).wf(),
        ensures
            final(self).wf(),
            *final(self) == old(self).after_end_press(spin_end),
    {
        if !self.mouse_down {
            return;
        }
        if self.drag_active {
            self.start_release_animation(spin_end);
        }
        self.mouse_down = false;
        self.drag_active = false;
    }

    fn start_release_animation(&mut self, spin_end: Number)
        ensures
            *final(self) == old(self).after_start_release(spin_end),
    {
        if self.angle.abs().is_below(Number::from_bits(HALF)) {
            return;
        }
        self.spin_returning = true;
        self.spin_elapsed = Number::from_bits(ZERO);
        self.spin_duration = Number::from_bits(HALF);
        self.spin_start_angle = self.angle;
        self.spin_end_angle = spin_end;
        self.angle_velocity = Number::from_bits(ZERO);
    }

    fn start_elastic_return_from(&mut self, start_angle: Number, duration: Number)
        ensures
            *final(self) == old(self).after_start_elastic(start_angle, duration),
    {
        if start_angle.abs().is_below(Number::from_bits(HALF)) {
            return;
        }
        self.elastic_start_angle = start_angle;
        self.elastic_duration = duration;
        self.elastic_elapsed = Number::from_bits(ZERO);
        self.elastic_returning = true;
        self.angle_velocity = Number::from_bits(ZERO);
    }

    fn resting_angle(&self) -> (r: Number)
        ensures
            r == self.rest_target(),
    {
        match self.resize_angle {
            Some(angle) => angle,
            None => if self.pointer_hover {
                Number::from_bits(POINTER_ANGLE)
            } else {
                Number::from_bits(ZERO)
            },
        }
    }

    /// Says which motion the coming frame is in.
    pub fn motion(&self) -> (r: Motion)
        ensures
            r == self.spec_motion(),
    {
        if self.mouse_down {
            if self.drag_active {
                Motion::Drag { first: !self.drag_angle_initialized }
            } else {
                Motion::Hold
            }
        } else if self.spin_returning {
            Motion::Spin
        } else if self.elastic_returning {
            Motion::Elastic
        } else {
            Motion::Rest { target: self.resting_angle() }
        }
    }

    /// Says what size and glow aim at in the coming frame.
    pub fn goals(&self) -> (r: Goals)
        ensures
            r == self.spec_goals(),
    {
        if self.mouse_down {
            Goals { scale: Number::from_bits(PRESSED_SCALE), additive: Number::from_bits(ONE) }
        } else if !self.spin_returning && !self.elastic_returning && self.pointer_hover {
            Goals { scale: Number::from_bits(ONE), additive: Number::from_bits(ONE) }
        } else {
            Goals { scale: Number::from_bits(ONE), additive: Number::from_bits(ZERO) }
        }
    }

    /// Takes in the numbers of the motion. A spin that is over goes on as an elastic
    /// return, and a return that is over leaves the cursor upright.
    pub fn advance(&mut self, step: MotionStep)
        requires
            old(self).wf(),
            old(self).expects(step),
        ensures
            final(self).wf(),
            *final(self) == old(self).after_step(step),
    {
        match step {
            MotionStep::Hold { angle } => {
                self.angle = angle;
            },
            MotionStep::Drag { raw_angle, target, angle } => {
                self.drag_target_angle = target;
                self.last_drag_raw_angle = raw_angle;
                self.drag_angle_initialized = true;
                self.angle = angle;
            },
            MotionStep::Spin { elapsed, angle, settled, elastic_duration } => {
                self.spin_elapsed = elapsed;
                self.angle = angle;
                if self.spin_duration.is_at_most(elapsed) {
                    self.spin_returning = false;
                    self.angle = settled;
                    self.start_elastic_return_from(settled, elastic_duration);
                }
            },
            MotionStep::Elastic { elapsed, progress, angle } => {
                self.elastic_elapsed = elapsed;
                self.angle = angle;
                if Number::from_bits(ONE).is_at_most(progress) {
                    self.angle = Number::from_bits(ZERO);
                    self.elastic_returning = false;
                    self.angle_velocity = Number::from_bits(ZERO);
                }
            },
            MotionStep::Rest { velocity, angle } => {
                self.angle_velocity = velocity;
                self.angle = angle;
            },
        }
    }

    /// Takes in the next size and glow, each within its bounds.
    pub fn spring(&mut self, next: Springs)
        requires
            old(self).wf(),
        ensures
            final(self).wf(),
            *final(self) == old(self).after_springs(next),
    {
        self.scale_velocity = next.scale_velocity;
        self.scale_value = next.scale_value.clamp(
            Number::from_bits(MIN_SCALE),
            Number::from_bits(MAX_SCALE),
        );
        self.opacity_velocity = next.opacity_velocity;
        self.additive_opacity = next.additive_opacity.clamp(
            Number::from_bits(ZERO),
            Number::from_bits(ONE),
        );
    }

    /// Says what the angle settles on.
    pub fn settle_target(&self) -> (r: Option<Number>)
        ensures
            r == self.spec_settle_target(),
    {
        if self.elastic_returning || self.spin_returning {
            None
        } else if self.mouse_down {
            if self.drag_active {
                Some(self.drag_target_angle)
            } else {
                Some(Number::from_bits(ZERO))
            }
        } else {
            Some(self.resting_angle())
        }
    }

    fn settle_value(
        value: Number,
        velocity: Number,
        target: Number,
        gap: Number,
    ) -> (r: (Number, Number))
        ensures
            r == settled_pair(value, velocity, target, gap),
    {
        if gap.abs().is_below(Number::from_bits(SETTLE_POSITION_EPSILON))
            && velocity.abs().is_below(Number::from_bits(SETTLE_VELOCITY_EPSILON)) {
            (target, Number::from_bits(ZERO))
        } else {
            (value, velocity)
        }
    }

    /// Puts what has arrived at its target there and stops it.
    pub fn settle(&mut self, goals: Goals, gaps: Gaps)
        requires
            old(self).wf(),
        ensures
            final(self).wf(),
            *final(self) == old(self).after_settle(goals, gaps),
    {
        match self.settle_target() {
            Some(target) => {
                let angle: (Number, Number) = Self::settle_value(
                    self.angle,
                    self.angle_velocity,
                    target,
                    gaps.angle,
                );
                self.angle = angle.0;
                self.angle_velocity = angle.1;
            },
            None => {},
        }
        let scale: (Number, Number) = Self::settle_value(
            self.scale_value,
            self.scale_velocity,
            goals.scale,
            gaps.scale,
        );
        self.scale_value = scale.0;
        self.scale_velocity = scale.1;
        let additive: (Number, Number) = Self::settle_value(
            self.additive_opacity,
            self.opacity_velocity,
            goals.additive,
            gaps.additive,
        );
        self.additive_opacity = additive.0;
        self.opacity_velocity = additive.1;
    }
}

impl Default for CursorAnim {
    fn default() -> (r: CursorAnim)
        ensures
            r.wf(),
            r == at_first(),
    {
        CursorAnim {
            angle: Number::from_bits(ZERO),
            angle_velocity: Number::from_bits(ZERO),
            scale_value: Number::from_bits(ONE),
            scale_velocity: Number::from_bits(ZERO),
            additive_opacity: Number::from_bits(ZERO),
            opacity_velocity: Number::from_bits(ZERO),
            mouse_down: false,
            drag_active: false,
            pointer_hover: false,
            resize_angle: None,
            spin_returning: false,
            elastic_returning: false,
            spin_elapsed: Number::from_bits(ZERO),
            spin_duration: Number::from_bits(HALF),
            spin_start_angle: Number::from_bits(ZERO),
            spin_end_angle: Number::from_bits(ZERO),
            elastic_start_angle: Number::from_bits(ZERO),
            elastic_duration: Number::from_bits(ELASTIC_BASE_DURATION),
            elastic_elapsed: Number::from_bits(ZERO),
            drag_target_angle: Number::from_bits(ZERO),
            last_drag_raw_angle: Number::from_bits(ZERO),
            drag_angle_initialized: false,
        }
    }
}

/// The state before the first event: upright, full size, no glow.
pub open spec fn at_first() -> CursorAnim {
    CursorAnim {
        angle: num(ZERO),
        angle_velocity: num(ZERO),
        scale_value: num(ONE),
        scale_velocity: num(ZERO),
        additive_opacity: num(ZERO),
        opacity_velocity: num(ZERO),
        mouse_down: false,
        drag_active: false,
        pointer_hover: false,
        resize_angle: None,
        spin_returning: false,
        elastic_returning: false,
        spin_elapsed: num(ZERO),
        spin_duration: num(HALF),
        spin_start_angle: num(ZERO),
        spin_end_angle: num(ZERO),
        elastic_start_angle: num(ZERO),
        elastic_duration: num(ELASTIC_BASE_DURATION),
        elastic_elapsed: num(ZERO),
        drag_target_angle: num(ZERO),
        last_drag_raw_angle: num(ZERO),
        drag_angle_initialized: false,
    }
}

/// Half a turn, 180 degrees.
pub const HALF_TURN: u64 = 0x4066_8000_0000_0000;

/// Half a turn the other way.
pub const NEGATIVE_HALF_TURN: u64 = 0xC066_8000_0000_0000;

/// How an angle between minus one turn and one turn is brought to at most half a turn.
#[derive(Clone, Copy, Debug, PartialEq, Eq, Structural)]
pub enum Fold {
    /// It is small enough.
    Keep,
    /// One turn is taken off.
    TurnBack,
    /// One turn is added.
    TurnOn,
}

/// Says how an angle, of which whole turns have been taken off, is normalized.
pub fn normalize_angle(remainder: Number) -> (r: Fold)
    ensures
        r == Fold::TurnBack <==> num(HALF_TURN).below(remainder),
        r == Fold::TurnOn <==> remainder.below(num(NEGATIVE_HALF_TURN)),
{
    if Number::from_bits(HALF_TURN).is_below(remainder) {
        Fold::TurnBack
    } else if remainder.is_below(Number::from_bits(NEGATIVE_HALF_TURN)) {
        Fold::TurnOn
    } else {
        Fold::Keep
    }
}

/// Restricts a cursor width to the allowed range.
pub fn clamp_cursor_width(width: Number) -> (r: Number)
    ensures
        r == width.spec_clamp(num(MIN_CURSOR_WIDTH), num(MAX_CURSOR_WIDTH)),
{
    width.clamp(Number::from_bits(MIN_CURSOR_WIDTH), Number::from_bits(MAX_CURSOR_WIDTH))
}

impl CursorAnim {
    /// The state after a whole frame: the motion, then size and glow, then settling.
    pub open spec fn after_frame(self, step: MotionStep, next: Springs, gaps: Gaps) -> CursorAnim {
        self.after_step(step).after_springs(next).after_settle(self.spec_goals(), gaps)
    }

    /// Takes in all numbers of a frame.
    pub fn update(&mut self, step: MotionStep, next: Springs, gaps: Gaps)
        requires
            old(self).wf(),
            old(self).expects(step),
        ensures
            final(self).wf(),
            *final(self) == old(self).after_frame(step, next, gaps),
    {
        let goals: Goals = self.goals();
        self.advance(step);
        self.spring(next);
        self.settle(goals, gaps);
    }
}

/// A frame leaves the button, the drag, the hand and the border as they are, and it takes
/// the numbers of a drag if and only if there is one.
pub proof fn law_frame_keeps_the_input(
    anim: CursorAnim,
    step: MotionStep,
    next: Springs,
    gaps: Gaps,
)
    requires
        anim.expects(step),
    ensures
        anim.after_frame(step, next, gaps).mouse_down == anim.mouse_down,
        anim.after_frame(step, next, gaps).drag_active == anim.drag_active,
        anim.after_frame(step, next, gaps).pointer_hover == anim.pointer_hover,
        anim.after_frame(step, next, gaps).resize_angle == anim.resize_angle,
        step is Drag <==> anim.mouse_down && anim.drag_active,
{
}

/// A frame keeps the state well formed.
pub proof fn law_frame_keeps_the_state_well_formed(
    anim: CursorAnim,
    step: MotionStep,
    next: Springs,
    gaps: Gaps,
)
    requires
        anim.wf(),
        anim.expects(step),
    ensures
        anim.after_frame(step, next, gaps).wf(),
{
}

/// A press ends every motion and forgets the border: the next frame holds the cursor.
pub proof fn law_press_ends_every_motion(anim: CursorAnim)
    ensures
        anim.after_begin_press().spec_motion() is Hold,
        anim.after_begin_press().resize_angle is None,
        anim.after_begin_press().spec_goals().scale == num(PRESSED_SCALE),
        anim.after_begin_press().spec_goals().additive == num(ONE),
{
}

/// A press and a release without a drag lead back to rest.
pub proof fn law_click_leads_to_rest(anim: CursorAnim, spin_end: Number)
    ensures
        anim.after_begin_press().after_end_press(spin_end).spec_motion() is Rest,
{
}

/// A release after a drag spins, unless the cursor is as good as upright.
pub proof fn law_release_after_a_drag_spins(anim: CursorAnim, spin_end: Number)
    requires
        anim.wf(),
        anim.drag_active,
    ensures
        anim.after_end_press(spin_end).spec_motion() is Spin <==> !anim.angle.spec_abs().below(
            num(HALF),
        ),
        anim.after_end_press(spin_end).spec_motion() is Rest <==> anim.angle.spec_abs().below(
            num(HALF),
        ),
{
}

/// A spin goes on until its time is over. Then the cursor swings back, unless it is as
/// good as upright.
pub proof fn law_spin_is_followed_by_a_swing(anim: CursorAnim, step: MotionStep)
    requires
        anim.wf(),
        anim.spec_motion() is Spin,
        anim.expects(step),
    ensures
        step matches MotionStep::Spin { elapsed, angle, settled, elastic_duration } && {
            let after = anim.after_step(step);
            &&& !anim.spin_duration.at_most(elapsed) ==> after.spec_motion() is Spin
                && after.angle == angle
            &&& anim.spin_duration.at_most(elapsed) ==> after.angle == settled
            &&& anim.spin_duration.at_most(elapsed) && !settled.spec_abs().below(num(HALF))
                ==> after.spec_motion() is Elastic && after.elastic_start_angle == settled
            &&& anim.spin_duration.at_most(elapsed) && settled.spec_abs().below(num(HALF))
                ==> after.spec_motion() is Rest
        },
{
}

/// A swing goes on until all of it is over. Then the cursor is upright and at rest.
pub proof fn law_swing_ends_upright(anim: CursorAnim, step: MotionStep)
    requires
        anim.wf(),
        anim.spec_motion() is Elastic,
        anim.expects(step),
    ensures
        step matches MotionStep::Elastic { elapsed, progress, angle } && {
            let after = anim.after_step(step);
            &&& num(ONE).at_most(progress) ==> after.spec_motion() is Rest && after.angle == num(
                ZERO,
            ) && after.angle_velocity == num(ZERO)
            &&& !num(ONE).at_most(progress) ==> after.spec_motion() is Elastic && after.angle
                == angle
        },
{
}

/// The angle along a border goes before the angle of the hand.
pub proof fn law_border_goes_before_hand(anim: CursorAnim, angle: Number)
    requires
        !anim.mouse_down,
        !anim.spin_returning,
        !anim.elastic_returning,
    ensures
        (CursorAnim { resize_angle: Some(angle), ..anim }).spec_motion() == (Motion::Rest {
            target: angle,
        }),
        (CursorAnim { resize_angle: None, pointer_hover: true, ..anim }).spec_motion()
            == (Motion::Rest { target: num(POINTER_ANGLE) }),
        (CursorAnim { resize_angle: None, pointer_hover: false, ..anim }).spec_motion()
            == (Motion::Rest { target: num(ZERO) }),
{
}

/// Whether the size lies between its bounds, and the glow between none and full.
pub open spec fn in_bounds(anim: CursorAnim) -> bool {
    &&& num(MIN_SCALE).at_most(anim.scale_value)
    &&& anim.scale_value.at_most(num(MAX_SCALE))
    &&& num(ZERO).at_most(anim.additive_opacity)
    &&& anim.additive_opacity.at_most(num(ONE))
}

/// After a frame the size lies between its bounds, and so does the glow.
pub proof fn law_size_and_glow_stay_in_bounds(
    anim: CursorAnim,
    step: MotionStep,
    next: Springs,
    gaps: Gaps,
)
    requires
        !next.scale_value.spec_is_nan(),
        !next.additive_opacity.spec_is_nan(),
    ensures
        in_bounds(anim.after_frame(step, next, gaps)),
{
}

/// Size and glow are in bounds at first, and neither a press, nor a release, nor a change
/// of what the cursor is over or dragged by takes them out.
pub proof fn law_bounds_hold_from_the_start(
    anim: CursorAnim,
    spin_end: Number,
    drag: bool,
    hover: bool,
    border: Option<Number>,
)
    requires
        in_bounds(anim),
    ensures
        in_bounds(at_first()),
        in_bounds(anim.after_begin_press()),
        in_bounds(anim.after_end_press(spin_end)),
        in_bounds(
            (CursorAnim {
                drag_active: drag,
                pointer_hover: hover,
                resize_angle: border,
                ..anim
            }),
        ),
{
}

/// What a cursor aims at, put together: a cursor at rest on all of its targets, with
/// nothing moving.
pub open spec fn resting(anim: CursorAnim) -> bool {
    &&& anim.spec_motion() is Rest
    &&& anim.angle == anim.rest_target()
    &&& anim.angle_velocity == num(ZERO)
    &&& anim.scale_value == anim.spec_goals().scale
    &&& anim.scale_velocity == num(ZERO)
    &&& anim.additive_opacity == anim.spec_goals().additive
    &&& anim.opacity_velocity == num(ZERO)
}

/// A cursor that rests on its targets stays as it is: numbers that do not move it leave
/// every part of its state unchanged.
pub proof fn law_rest_does_not_drift(anim: CursorAnim)
    requires
        anim.wf(),
        resting(anim),
    ensures
        anim.after_frame(
            MotionStep::Rest { velocity: num(ZERO), angle: anim.angle },
            Springs {
                scale_value: anim.scale_value,
                scale_velocity: num(ZERO),
                additive_opacity: anim.additive_opacity,
                opacity_velocity: num(ZERO),
            },
            Gaps { angle: num(ZERO), scale: num(ZERO), additive: num(ZERO) },
        ) == anim,
{
}

/// A cursor whose values have all arrived at their targets rests on them.
pub proof fn law_arrival_is_rest(anim: CursorAnim, step: MotionStep, next: Springs, gaps: Gaps)
    requires
        anim.wf(),
        anim.spec_motion() is Rest,
        anim.expects(step),
        arrived(gaps.angle, anim.after_step(step).angle_velocity),
        arrived(gaps.scale, next.scale_velocity),
        arrived(gaps.additive, next.opacity_velocity),
    ensures
        resting(anim.after_frame(step, next, gaps)),
{
}

/// A cursor that was dragged and let go spins, then swings, and then stands upright: the
/// frame in which the spin is over leads to the swing, and the frame in which the swing
/// is over leads to rest.
pub proof fn law_release_spins_and_swings_to_rest(
    anim: CursorAnim,
    spin_end: Number,
    spin: MotionStep,
    swing: MotionStep,
    next: Springs,
    gaps: Gaps,
)
    requires
        anim.wf(),
        anim.drag_active,
        !anim.angle.spec_abs().below(num(HALF)),
        spin matches MotionStep::Spin { elapsed, settled, .. } && num(HALF).at_most(elapsed)
            && !settled.spec_abs().below(num(HALF)),
        swing matches MotionStep::Elastic { progress, .. } && num(ONE).at_most(progress),
    ensures
        ({
            let released = anim.after_end_press(spin_end);
            let spun = released.after_frame(spin, next, gaps);
            let swung = spun.after_frame(swing, next, gaps);
            &&& released.expects(spin)
            &&& released.spin_end_angle == spin_end
            &&& spun.expects(swing)
            &&& swung.spec_motion() is Rest
            &&& swung.angle == num(ZERO) || swung.angle == swung.rest_target()
        }),
{
}

/// A change is seen in both directions or in none: only the magnitudes of the differences
/// count, not their signs.
pub proof fn law_change_has_no_direction(
    angle: Number,
    scale: Number,
    additive: Number,
    angle_back: Number,
    scale_back: Number,
    additive_back: Number,
)
    requires
        angle.spec_magnitude() == angle_back.spec_magnitude(),
        scale.spec_magnitude() == scale_back.spec_magnitude(),
        additive.spec_magnitude() == additive_back.spec_magnitude(),
    ensures
        CursorAnim::visible(angle, scale, additive) == CursorAnim::visible(
            angle_back,
            scale_back,
            additive_back,
        ),
{
}

/// Where angle, size and glow differ by nothing, no change is seen.
pub proof fn law_no_difference_is_not_seen(angle: Number, scale: Number, additive: Number)
    requires
        angle.equals(num(ZERO)),
        scale.equals(num(ZERO)),
        additive.equals(num(ZERO)),
    ensures
        !CursorAnim::visible(angle, scale, additive),
{
}

/// While the button is down the cursor aims at nine tenths of its size and at full glow,
/// whether it is dragged or not, and whatever else it was doing.
pub proof fn law_pressed_cursor_is_small_and_glows(anim: CursorAnim)
    requires
        anim.mouse_down,
    ensures
        anim.spec_goals().scale.bits == 0x3FEC_CCCC_CCCC_CCCD,
        anim.spec_goals().additive.bits == 0x3FF0_0000_0000_0000,
{
}

/// While the button is up the cursor aims at its full size, and it aims at full glow if and
/// only if it is over the hand and does not return from a drag; otherwise at none.
pub proof fn law_glow_of_a_free_cursor(anim: CursorAnim)
    requires
        !anim.mouse_down,
    ensures
        anim.spec_goals().scale.bits == 0x3FF0_0000_0000_0000,
        anim.pointer_hover && !anim.spin_returning && !anim.elastic_returning
            ==> anim.spec_goals().additive.bits == 0x3FF0_0000_0000_0000,
        !anim.pointer_hover || anim.spin_returning || anim.elastic_returning
            ==> anim.spec_goals().additive.bits == 0,
{
}

/// What the cursor does: the button goes before a return, the spin before the swing, and
/// only a cursor that is left alone rests.
pub proof fn law_button_goes_before_returning(anim: CursorAnim)
    ensures
        anim.spec_motion() is Hold <==> anim.mouse_down && !anim.drag_active,
        anim.spec_motion() is Drag <==> anim.mouse_down && anim.drag_active,
        anim.spec_motion() is Spin <==> !anim.mouse_down && anim.spin_returning,
        anim.spec_motion() is Elastic <==> !anim.mouse_down && !anim.spin_returning
            && anim.elastic_returning,
        anim.spec_motion() is Rest <==> !anim.mouse_down && !anim.spin_returning
            && !anim.elastic_returning,
        anim.spec_motion() matches Motion::Drag { first } ==> first
            == !anim.drag_angle_initialized,
        anim.spec_motion() matches Motion::Rest { target } ==> (match anim.resize_angle {
            Some(angle) => target == angle,
            None => target.bits == (if anim.pointer_hover {
                0x4038_4CCC_CCCC_CCCDu64
            } else {
                0u64
            }),
        }),
        anim.rest_target().bits == (match anim.resize_angle {
            Some(angle) => angle.bits,
            None => if anim.pointer_hover {
                0x4038_4CCC_CCCC_CCCDu64
            } else {
                0u64
            },
        }),
{
}

/// Numbers are taken for the motion that the cursor is in, and for no other.
pub proof fn law_numbers_belong_to_the_motion(anim: CursorAnim, step: MotionStep)
    ensures
        anim.expects(step) <==> match step {
            MotionStep::Hold { .. } => anim.mouse_down && !anim.drag_active,
            MotionStep::Drag { .. } => anim.mouse_down && anim.drag_active,
            MotionStep::Spin { .. } => !anim.mouse_down && anim.spin_returning,
            MotionStep::Elastic { .. } => !anim.mouse_down && !anim.spin_returning
                && anim.elastic_returning,
            MotionStep::Rest { .. } => !anim.mouse_down && !anim.spin_returning
                && !anim.elastic_returning,
        },
{
}

/// A press changes what the cursor does and nothing of how it looks: angle, size, glow and
/// their velocities stay, as does the hand. A drag that follows starts from the angle at
/// hand.
pub proof fn law_press_keeps_the_look(anim: CursorAnim)
    ensures
        ({
            let pressed = anim.after_begin_press();
            &&& pressed.mouse_down
            &&& !pressed.drag_active
            &&& !pressed.spin_returning
            &&& !pressed.elastic_returning
            &&& !pressed.drag_angle_initialized
            &&& pressed.resize_angle is None
            &&& pressed.drag_target_angle == anim.angle
            &&& pressed.last_drag_raw_angle.bits == 0
            &&& pressed.angle == anim.angle
            &&& pressed.angle_velocity == anim.angle_velocity
            &&& pressed.scale_value == anim.scale_value
            &&& pressed.scale_velocity == anim.scale_velocity
            &&& pressed.additive_opacity == anim.additive_opacity
            &&& pressed.opacity_velocity == anim.opacity_velocity
            &&& pressed.pointer_hover == anim.pointer_hover
            &&& pressed == (CursorAnim {
                mouse_down: true,
                drag_active: false,
                spin_returning: false,
                elastic_returning: false,
                drag_angle_initialized: false,
                resize_angle: None,
                drag_target_angle: pressed.drag_target_angle,
                last_drag_raw_angle: pressed.last_drag_raw_angle,
                ..anim
            })
        }),
{
}

/// A release lets the button go and changes nothing of how the cursor looks. Only after a
/// drag, and only from an angle of at least half a degree, does it start a spin: from the
/// angle at hand to the given end, in half a second, from its beginning.
pub proof fn law_release_keeps_the_look(anim: CursorAnim, spin_end: Number)
    ensures
        ({
            let released = anim.after_end_press(spin_end);
            let turned = anim.angle.bits % 0x8000_0000_0000_0000 >= 0x3FE0_0000_0000_0000;
            let spins = anim.mouse_down && anim.drag_active && turned;
            &&& !anim.mouse_down ==> released == anim
            &&& !released.mouse_down
            &&& anim.mouse_down ==> !released.drag_active
            &&& released.angle == anim.angle
            &&& released.scale_value == anim.scale_value
            &&& released.scale_velocity == anim.scale_velocity
            &&& released.additive_opacity == anim.additive_opacity
            &&& released.opacity_velocity == anim.opacity_velocity
            &&& released.pointer_hover == anim.pointer_hover
            &&& released.resize_angle == anim.resize_angle
            &&& released.elastic_returning == anim.elastic_returning
            &&& released.spin_returning == (anim.spin_returning || spins)
            &&& spins ==> released.spin_start_angle == anim.angle && released.spin_end_angle
                == spin_end && released.spin_elapsed.bits == 0 && released.spin_duration.bits
                == 0x3FE0_0000_0000_0000 && released.angle_velocity.bits == 0
            &&& anim.mouse_down && !spins ==> released == (CursorAnim {
                mouse_down: false,
                drag_active: false,
                ..anim
            })
            &&& spins ==> released == (CursorAnim {
                mouse_down: false,
                drag_active: false,
                spin_returning: true,
                spin_elapsed: released.spin_elapsed,
                spin_duration: released.spin_duration,
                spin_start_angle: released.spin_start_angle,
                spin_end_angle: released.spin_end_angle,
                angle_velocity: released.angle_velocity,
                ..anim
            })
        }),
{
}

/// What a motion does to the angle. Held and at rest the cursor takes the angle that was
/// calculated, and dragged as well, with the direction and the target of the drag noted.
pub proof fn law_motion_takes_the_calculated_angle(
    anim: CursorAnim,
    angle: Number,
    raw_angle: Number,
    target: Number,
    velocity: Number,
)
    ensures
        anim.after_step(MotionStep::Hold { angle }) == (CursorAnim { angle, ..anim }),
        anim.after_step(MotionStep::Drag { raw_angle, target, angle }).angle == angle,
        anim.after_step(MotionStep::Drag { raw_angle, target, angle }).drag_target_angle == target,
        anim.after_step(MotionStep::Drag { raw_angle, target, angle }).last_drag_raw_angle
            == raw_angle,
        anim.after_step(MotionStep::Drag { raw_angle, target, angle }).drag_angle_initialized,
        anim.after_step(MotionStep::Drag { raw_angle, target, angle }) == (CursorAnim {
            angle,
            drag_target_angle: target,
            last_drag_raw_angle: raw_angle,
            drag_angle_initialized: true,
            ..anim
        }),
        anim.after_step(MotionStep::Rest { velocity, angle }) == (CursorAnim {
            angle,
            angle_velocity: velocity,
            ..anim
        }),
{
}

/// A spin runs for as long as it was given. While it runs, the angle is the calculated one
/// and nothing else changes but its time. When it is over, the cursor stands at the settled
/// angle and, from half a degree on, starts to swing back from there with no velocity.
pub proof fn law_spin_runs_its_time(
    anim: CursorAnim,
    elapsed: Number,
    angle: Number,
    settled: Number,
    elastic_duration: Number,
)
    ensures
        ({
            let after = anim.after_step(
                MotionStep::Spin { elapsed, angle, settled, elastic_duration },
            );
            let over = anim.spin_duration.at_most(elapsed);
            let swings = settled.bits % 0x8000_0000_0000_0000 >= 0x3FE0_0000_0000_0000;
            &&& after.spin_elapsed == elapsed
            &&& !over ==> after.angle == angle && after.spin_returning == anim.spin_returning
                && after.elastic_returning == anim.elastic_returning && after.angle_velocity
                == anim.angle_velocity
            &&& over ==> after.angle == settled && !after.spin_returning
            &&& over && swings ==> after.elastic_returning && after.elastic_start_angle == settled
                && after.elastic_duration == elastic_duration && after.elastic_elapsed.bits == 0
                && after.angle_velocity.bits == 0
            &&& over && !swings ==> after.elastic_returning == anim.elastic_returning
                && after.angle_velocity == anim.angle_velocity
            &&& after == (CursorAnim {
                angle: after.angle,
                angle_velocity: after.angle_velocity,
                spin_elapsed: elapsed,
                spin_returning: after.spin_returning,
                elastic_returning: after.elastic_returning,
                elastic_start_angle: after.elastic_start_angle,
                elastic_duration: after.elastic_duration,
                elastic_elapsed: after.elastic_elapsed,
                ..anim
            })
            &&& !(over && swings) ==> after.elastic_start_angle == anim.elastic_start_angle
                && after.elastic_duration == anim.elastic_duration && after.elastic_elapsed
                == anim.elastic_elapsed
        }),
{
}

/// A swing runs until all of it is over. While it runs, the angle is the calculated one;
/// then the cursor stands upright and still.
pub proof fn law_swing_runs_to_its_end(
    anim: CursorAnim,
    elapsed: Number,
    progress: Number,
    angle: Number,
)
    ensures
        ({
            let after = anim.after_step(MotionStep::Elastic { elapsed, progress, angle });
            let over = 0x3FF0_0000_0000_0000 <= progress.bits <= 0x7FF0_0000_0000_0000;
            &&& after.elastic_elapsed == elapsed
            &&& !over ==> after.angle == angle && after.elastic_returning == anim.elastic_returning
                && after.angle_velocity == anim.angle_velocity
            &&& over ==> after.angle.bits == 0 && !after.elastic_returning
                && after.angle_velocity.bits == 0
            &&& after == (CursorAnim {
                angle: after.angle,
                angle_velocity: after.angle_velocity,
                elastic_elapsed: elapsed,
                elastic_returning: after.elastic_returning,
                ..anim
            })
        }),
{
}

/// A motion moves the angle and nothing of size and glow; size and glow move without the
/// angle, keep the calculated values inside their bounds, from 0.8 to 1.1 and from 0 to 1,
/// and stop at the bounds outside.
pub proof fn law_angle_size_and_glow_move_apart(anim: CursorAnim, step: MotionStep, next: Springs)
    ensures
        anim.after_step(step).scale_value == anim.scale_value,
        anim.after_step(step).scale_velocity == anim.scale_velocity,
        anim.after_step(step).additive_opacity == anim.additive_opacity,
        anim.after_step(step).opacity_velocity == anim.opacity_velocity,
        ({
            let after = anim.after_springs(next);
            let least = Number { bits: 0x3FE9_9999_9999_999A };
            let most = Number { bits: 0x3FF1_9999_9999_999A };
            let none = Number { bits: 0 };
            let full = Number { bits: 0x3FF0_0000_0000_0000 };
            &&& after.angle == anim.angle
            &&& after.angle_velocity == anim.angle_velocity
            &&& after.scale_velocity == next.scale_velocity
            &&& after.opacity_velocity == next.opacity_velocity
            &&& next.scale_value.below(least) ==> after.scale_value == least
            &&& most.below(next.scale_value) ==> after.scale_value == most
            &&& !next.scale_value.below(least) && !most.below(next.scale_value)
                ==> after.scale_value == next.scale_value
            &&& next.additive_opacity.below(none) ==> after.additive_opacity == none
            &&& full.below(next.additive_opacity) ==> after.additive_opacity == full
            &&& !next.additive_opacity.below(none) && !full.below(next.additive_opacity)
                ==> after.additive_opacity == next.additive_opacity
            &&& after == (CursorAnim {
                scale_value: after.scale_value,
                scale_velocity: after.scale_velocity,
                additive_opacity: after.additive_opacity,
                opacity_velocity: after.opacity_velocity,
                ..anim
            })
        }),
{
}

/// A value has arrived if and only if it is less than 0.0008 away from its target and
/// slower than 0.01, in either direction. Then it stands on the target and still; until
/// then it is left as it is.
pub proof fn law_arrival_is_near_and_slow(
    value: Number,
    velocity: Number,
    target: Number,
    gap: Number,
)
    ensures
        ({
            let near = gap.bits % 0x8000_0000_0000_0000 < 0x3F4A_36E2_EB1C_432D;
            let slow = velocity.bits % 0x8000_0000_0000_0000 < 0x3F84_7AE1_47AE_147B;
            &&& arrived(gap, velocity) <==> near && slow
            &&& near && slow ==> settled_pair(value, velocity, target, gap) == (
                target,
                Number { bits: 0 },
            )
            &&& !(near && slow) ==> settled_pair(value, velocity, target, gap) == (
                value,
                velocity,
            )
        }),
{
}

/// Each of angle, size and glow settles on its own target when it has arrived there, by its
/// own gap and velocity, and is left alone until then. The angle of a cursor that returns
/// does not settle, that of a held one settles upright, that of a dragged one on the drag,
/// and that of a free one where it rests.
pub proof fn law_each_value_settles_on_its_own(anim: CursorAnim, goals: Goals, gaps: Gaps)
    ensures
        ({
            let after = anim.after_settle(goals, gaps);
            let returning = anim.spin_returning || anim.elastic_returning;
            let target = if anim.mouse_down && anim.drag_active {
                anim.drag_target_angle
            } else if anim.mouse_down {
                Number { bits: 0 }
            } else {
                anim.rest_target()
            };
            let angle_there = !returning && arrived(gaps.angle, anim.angle_velocity);
            let scale_there = arrived(gaps.scale, anim.scale_velocity);
            let glow_there = arrived(gaps.additive, anim.opacity_velocity);
            &&& anim.spec_settle_target() == (if returning {
                None
            } else {
                Some(target)
            })
            &&& angle_there ==> after.angle == target && after.angle_velocity.bits == 0
            &&& !angle_there ==> after.angle == anim.angle && after.angle_velocity
                == anim.angle_velocity
            &&& scale_there ==> after.scale_value == goals.scale && after.scale_velocity.bits == 0
            &&& !scale_there ==> after.scale_value == anim.scale_value && after.scale_velocity
                == anim.scale_velocity
            &&& glow_there ==> after.additive_opacity == goals.additive
                && after.opacity_velocity.bits == 0
            &&& !glow_there ==> after.additive_opacity == anim.additive_opacity
                && after.opacity_velocity == anim.opacity_velocity
            &&& after == (CursorAnim {
                angle: after.angle,
                angle_velocity: after.angle_velocity,
                scale_value: after.scale_value,
                scale_velocity: after.scale_velocity,
                additive_opacity: after.additive_opacity,
                opacity_velocity: after.opacity_velocity,
                ..anim
            })
        }),
{
}

/// A whole frame: the motion moves the angle, the springs move size and glow, and what has
/// then arrived at what was aimed at before settles there.
pub proof fn law_frame_moves_then_settles(
    anim: CursorAnim,
    step: MotionStep,
    next: Springs,
    gaps: Gaps,
)
    requires
        anim.wf(),
        anim.expects(step),
    ensures
        ({
            let after = anim.after_frame(step, next, gaps);
            let moved = anim.after_step(step);
            &&& after == (CursorAnim {
                angle: after.angle,
                angle_velocity: after.angle_velocity,
                scale_value: after.scale_value,
                scale_velocity: after.scale_velocity,
                additive_opacity: after.additive_opacity,
                opacity_velocity: after.opacity_velocity,
                ..moved
            })
            &&& (arrived(gaps.angle, moved.angle_velocity) && !moved.spin_returning
                && !moved.elastic_returning) ==> after.angle_velocity.bits == 0 && after.angle == (
            if !anim.mouse_down {
                moved.rest_target()
            } else if anim.drag_active {
                moved.drag_target_angle
            } else {
                Number { bits: 0 }
            })
            &&& !arrived(gaps.angle, moved.angle_velocity) ==> after.angle == moved.angle
                && after.angle_velocity == moved.angle_velocity
            &&& moved.spin_returning || moved.elastic_returning ==> after.angle == moved.angle
            &&& arrived(gaps.scale, next.scale_velocity) ==> after.scale_value
                == anim.spec_goals().scale && after.scale_velocity.bits == 0
            &&& !arrived(gaps.scale, next.scale_velocity) ==> after.scale_value
                == moved.after_springs(next).scale_value && after.scale_velocity
                == next.scale_velocity
            &&& arrived(gaps.additive, next.opacity_velocity) ==> after.additive_opacity
                == anim.spec_goals().additive && after.opacity_velocity.bits == 0
            &&& !arrived(gaps.additive, next.opacity_velocity) ==> after.additive_opacity
                == moved.after_springs(next).additive_opacity && after.opacity_velocity
                == next.opacity_velocity
        }),
{
}

/// A change is seen if and only if angle, size or glow differs by more than 0.0001, in
/// either direction.
pub proof fn law_visible_changes(angle: Number, scale: Number, additive: Number)
    ensures
        CursorAnim::visible(angle, scale, additive) <==> {
            ||| 0x3F1A_36E2_EB1C_432D < angle.bits % 0x8000_0000_0000_0000 <= 0x7FF0_0000_0000_0000
            ||| 0x3F1A_36E2_EB1C_432D < scale.bits % 0x8000_0000_0000_0000 <= 0x7FF0_0000_0000_0000
            ||| 0x3F1A_36E2_EB1C_432D < additive.bits % 0x8000_0000_0000_0000
                <= 0x7FF0_0000_0000_0000
        },
{
}

/// The cursor starts upright, at full size and without glow, with nothing moving, pressed
/// or returning.
pub proof fn law_cursor_starts_at_rest()
    ensures
        resting(at_first()),
        at_first().angle.bits == 0,
        at_first().scale_value.bits == 0x3FF0_0000_0000_0000,
        at_first().additive_opacity.bits == 0,
        at_first().angle_velocity.bits == 0,
        at_first().scale_velocity.bits == 0,
        at_first().opacity_velocity.bits == 0,
        !at_first().mouse_down,
        !at_first().drag_active,
        !at_first().pointer_hover,
        at_first().resize_angle is None,
        !at_first().spin_returning,
        !at_first().elastic_returning,
        !at_first().drag_angle_initialized,
        at_first().spin_duration.bits == 0x3FE0_0000_0000_0000,
        at_first().elastic_duration.bits == 0x3FDA_E147_AE14_7AE1,
        at_first().spin_elapsed.bits == 0,
        at_first().spin_start_angle.bits == 0,
        at_first().spin_end_angle.bits == 0,
        at_first().elastic_start_angle.bits == 0,
        at_first().elastic_elapsed.bits == 0,
        at_first().drag_target_angle.bits == 0,
        at_first().last_drag_raw_angle.bits == 0,
{
}

/// The state of a cursor: a pressed one does not return, a returning one either spins or
/// swings, and only a pressed one is dragged. Any other combination is possible.
pub proof fn law_states_of_a_cursor(anim: CursorAnim)
    ensures
        anim.wf() <==> {
            ||| anim.mouse_down && !anim.spin_returning && !anim.elastic_returning
            ||| !anim.mouse_down && !anim.drag_active && !(anim.spin_returning
                && anim.elastic_returning)
        },
{
}

/// The width of a cursor is kept from 16 to 64 pixels, and brought to the nearer of the two
/// outside; an angle of more than half a turn is folded back by one turn.
pub proof fn law_widths_and_half_turns(width: Number)
    requires
        !width.spec_is_nan(),
    ensures
        ({
            let kept = width.spec_clamp(num(MIN_CURSOR_WIDTH), num(MAX_CURSOR_WIDTH));
            let inside = 0x4030_0000_0000_0000 <= width.bits <= 0x4050_0000_0000_0000;
            let large = 0x4050_0000_0000_0000 < width.bits < 0x8000_0000_0000_0000;
            &&& inside ==> kept == width
            &&& large ==> kept.bits == 0x4050_0000_0000_0000
            &&& !inside && !large ==> kept.bits == 0x4030_0000_0000_0000
        }),
        num(HALF_TURN).bits == 0x4066_8000_0000_0000,
        num(NEGATIVE_HALF_TURN).bits == 0xC066_8000_0000_0000,
{
}

} // verus!
