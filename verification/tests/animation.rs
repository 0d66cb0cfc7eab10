use curosu::number::Number;
use curosu::overlay::anim::{
    clamp_cursor_width, normalize_angle, CursorAnim, Fold, Gaps, Motion, MotionStep, Springs,
    ELASTIC_BASE_DURATION, HALF, HALF_TURN, MAX_CURSOR_WIDTH, MAX_SCALE, MIN_CURSOR_WIDTH,
    MIN_SCALE, NEGATIVE_HALF_TURN, ONE, POINTER_ANGLE, PRESSED_SCALE, SETTLE_POSITION_EPSILON,
    SETTLE_VELOCITY_EPSILON, VISIBLE_CHANGE,
};

fn number(value: f64) -> Number {
    Number::from_bits(value.to_bits())
}

fn float(value: Number) -> f64 {
    f64::from_bits(value.bits)
}

fn elastic_out(t: f64) -> f64 {
    (2.0f64).powf(-10.0 * t) * ((0.5 * t - 0.075) * 20.943951023931955).sin() + 1.0
        - 0.0004882812499999998 * t
}

fn normalized(degrees: f64) -> f64 {
    let d = degrees % 360.0;
    match normalize_angle(number(d)) {
        Fold::Keep => d,
        Fold::TurnBack => d - 360.0,
        Fold::TurnOn => d + 360.0,
    }
}

fn drag_angle(dx: f64, dy: f64) -> f64 {
    (-dx).atan2(dy).to_degrees() + f64::from_bits(POINTER_ANGLE)
}

fn follow(anim: &CursorAnim, target: f64, dt: f64) -> f64 {
    let angle = float(anim.angle);
    angle + (target - angle) * (dt * 16.0).clamp(0.0, 1.0)
}

fn motion_step(anim: &CursorAnim, dt: f64, dx: f64, dy: f64) -> MotionStep {
    match anim.motion() {
        Motion::Hold => MotionStep::Hold { angle: number(follow(anim, 0.0, dt)) },
        Motion::Drag { first } => {
            let raw_angle = drag_angle(dx, dy);
            let target = if first {
                float(anim.angle) + normalized(raw_angle - float(anim.angle))
            } else {
                float(anim.drag_target_angle)
                    + normalized(raw_angle - float(anim.last_drag_raw_angle))
            };
            MotionStep::Drag {
                raw_angle: number(raw_angle),
                target: number(target),
                angle: number(follow(anim, target, dt)),
            }
        }
        Motion::Spin => {
            let elapsed = float(anim.spin_elapsed) + dt;
            let t = (elapsed / float(anim.spin_duration)).min(1.0);
            let progress = 1.0 - (1.0 - t) * (1.0 - t);
            let start = float(anim.spin_start_angle);
            let end = float(anim.spin_end_angle);
            let settled = normalized(end);
            MotionStep::Spin {
                elapsed: number(elapsed),
                angle: number(start + (end - start) * progress),
                settled: number(settled),
                elastic_duration: number(
                    f64::from_bits(ELASTIC_BASE_DURATION) * (1.0 + (settled / 720.0).abs()),
                ),
            }
        }
        Motion::Elastic => {
            let elapsed = float(anim.elastic_elapsed) + dt;
            let t = (elapsed / float(anim.elastic_duration)).min(1.0);
            MotionStep::Elastic {
                elapsed: number(elapsed),
                progress: number(t),
                angle: number(float(anim.elastic_start_angle) * (1.0 - elastic_out(t))),
            }
        }
        Motion::Rest { target } => {
            let delta = normalized(float(target) - float(anim.angle));
            let velocity = float(anim.angle_velocity)
                + (240.0 * delta - 20.0 * float(anim.angle_velocity)) * dt;
            MotionStep::Rest {
                velocity: number(velocity),
                angle: number(float(anim.angle) + velocity * dt),
            }
        }
    }
}

fn update(anim: &mut CursorAnim, dt: f64, dx: f64, dy: f64) {
    let goals = anim.goals();
    let step = motion_step(anim, dt, dx, dy);
    let scale = float(anim.scale_value);
    let scale_velocity = float(anim.scale_velocity)
        + (240.0 * (float(goals.scale) - scale) - 20.0 * float(anim.scale_velocity)) * dt;
    let glow = float(anim.additive_opacity);
    let opacity_velocity = float(anim.opacity_velocity)
        + (160.0 * (float(goals.additive) - glow) - 18.0 * float(anim.opacity_velocity)) * dt;
    let springs = Springs {
        scale_value: number(scale + scale_velocity * dt),
        scale_velocity: number(scale_velocity),
        additive_opacity: number(glow + opacity_velocity * dt),
        opacity_velocity: number(opacity_velocity),
    };
    let mut ahead = *anim;
    ahead.advance(step);
    ahead.spring(springs);
    let angle_gap = match ahead.settle_target() {
        Some(target) => float(ahead.angle) - float(target),
        None => 0.0,
    };
    anim.update(
        step,
        springs,
        Gaps {
            angle: number(angle_gap),
            scale: number(float(ahead.scale_value) - float(goals.scale)),
            additive: number(float(ahead.additive_opacity) - float(goals.additive)),
        },
    );
}

fn end_press(anim: &mut CursorAnim) {
    let spin_end = float(anim.angle) + 3.0 * 360.0;
    anim.end_press(number(spin_end));
}

fn visual_changed(anim: &CursorAnim, previous: &CursorAnim) -> bool {
    CursorAnim::visual_changed_from(
        number(float(anim.angle) - float(previous.angle)),
        number(float(anim.scale_value) - float(previous.scale_value)),
        number(float(anim.additive_opacity) - float(previous.additive_opacity)),
    )
}

#[test]
fn idle_animation_settles_without_perpetual_drift() {
    let mut anim = CursorAnim::default();
    for _ in 0..120 {
        update(&mut anim, 1.0 / 60.0, 0.0, 0.0);
    }
    let settled = anim;
    update(&mut anim, 1.0 / 60.0, 0.0, 0.0);
    assert_eq!(float(anim.angle), 0.0);
    assert_eq!(float(anim.scale_value), 1.0);
    assert_eq!(float(anim.additive_opacity), 0.0);
    assert!(!visual_changed(&anim, &settled));
}

#[test]
fn hand_hover_uses_stable_pink_state() {
    let mut anim = CursorAnim::default();
    anim.pointer_hover = true;
    for _ in 0..120 {
        update(&mut anim, 1.0 / 60.0, 0.0, 0.0);
    }
    assert_eq!(float(anim.angle), f64::from_bits(POINTER_ANGLE));
    assert_eq!(float(anim.additive_opacity), 1.0);

    let settled = anim;
    update(&mut anim, 1.0 / 60.0, 0.0, 0.0);
    assert!(!visual_changed(&anim, &settled));
}

#[test]
fn resize_angle_overrides_hover_and_clears_on_press() {
    let mut anim = CursorAnim::default();
    anim.pointer_hover = true;
    anim.resize_angle = Some(number(180.0));
    for _ in 0..120 {
        update(&mut anim, 1.0 / 60.0, 0.0, 0.0);
    }
    assert!((float(anim.angle) - 180.0).abs() < 0.1, "边框角度未收敛: {}", float(anim.angle));

    anim.begin_press();
    assert!(anim.resize_angle.is_none());
    update(&mut anim, 1.0 / 60.0, 0.0, 0.0);
    assert!(float(anim.angle) < 180.0, "按下后未回到默认旋转路径");
}

#[test]
fn press_drag_and_release_follow_original_sequence() {
    let mut anim = CursorAnim::default();
    anim.begin_press();
    update(&mut anim, 1.0 / 60.0, 0.0, 0.0);
    assert!(anim.mouse_down);
    assert!(float(anim.additive_opacity) > 0.0);
    assert!(float(anim.scale_value) < 1.0);

    anim.drag_active = true;
    for _ in 0..30 {
        update(&mut anim, 1.0 / 60.0, 40.0, 20.0);
    }
    assert!(float(anim.angle).abs() > 0.5);

    end_press(&mut anim);
    assert!(anim.spin_returning);
    for _ in 0..120 {
        update(&mut anim, 1.0 / 60.0, 40.0, 20.0);
    }
    assert!(!anim.mouse_down);
    assert!(!anim.spin_returning);
    assert!(!anim.elastic_returning);
    assert_eq!(float(anim.angle), 0.0);
    assert_eq!(float(anim.scale_value), 1.0);
    assert_eq!(float(anim.additive_opacity), 0.0);
}

#[test]
fn drag_angle_accumulates_across_atan2_branch() {
    let mut anim = CursorAnim::default();
    anim.begin_press();
    anim.drag_active = true;

    for (dx, dy) in [
        (0.0, -100.0),
        (100.0, 0.0),
        (0.0, 100.0),
        (-100.0, 0.0),
        (0.0, -100.0),
    ] {
        for _ in 0..30 {
            update(&mut anim, 1.0 / 60.0, dx, dy);
        }
    }

    assert!(float(anim.angle) > 180.0, "累计角度未跨过一圈: {}", float(anim.angle));

    end_press(&mut anim);
    assert!(anim.spin_returning);
}

#[test]
fn elastic_release_returns_promptly_for_large_angle() {
    let mut anim = CursorAnim::default();
    anim.begin_press();
    anim.drag_active = true;
    anim.angle = number(360.0);
    end_press(&mut anim);

    let mut elapsed = 0.0;
    while (anim.spin_returning || anim.elastic_returning) && elapsed < 3.0 {
        update(&mut anim, 1.0 / 60.0, 0.0, 0.0);
        elapsed += 1.0 / 60.0;
    }

    assert!(!anim.spin_returning);
    assert!(!anim.elastic_returning);
    assert!(elapsed < 2.5, "大角度释放仍然过慢: {elapsed:.3}s");
    assert_eq!(float(anim.angle), 0.0);
}

#[test]
fn release_spins_three_turns_then_settles() {
    let mut anim = CursorAnim::default();
    anim.begin_press();
    anim.drag_active = true;
    anim.angle = number(200.0);
    end_press(&mut anim);
    assert!(anim.spin_returning);
    assert!(!anim.elastic_returning);

    let mut frames = 0;
    while anim.spin_returning && frames < 120 {
        update(&mut anim, 1.0 / 60.0, 0.0, 0.0);
        frames += 1;
    }
    assert!(!anim.spin_returning, "spin 未在 ~0.5s 结束");
    assert!(anim.elastic_returning, "spin 结束未衔接 elastic");
    assert!(
        (float(anim.angle) - (-160.0)).abs() < 0.5,
        "spin 结束角度={}（期望 -160）",
        float(anim.angle)
    );

    let mut elapsed = 0.0;
    while anim.elastic_returning && elapsed < 3.0 {
        update(&mut anim, 1.0 / 60.0, 0.0, 0.0);
        elapsed += 1.0 / 60.0;
    }
    assert!(!anim.elastic_returning);
    assert_eq!(float(anim.angle), 0.0);
    assert_eq!(float(anim.scale_value), 1.0);
    assert_eq!(float(anim.additive_opacity), 0.0);
}

#[test]
fn constants_stand_for_the_numbers_they_name() {
    assert_eq!(POINTER_ANGLE, 24.3f64.to_bits());
    assert_eq!(MIN_CURSOR_WIDTH, 16.0f64.to_bits());
    assert_eq!(MAX_CURSOR_WIDTH, 64.0f64.to_bits());
    assert_eq!(ONE, 1.0f64.to_bits());
    assert_eq!(HALF, 0.5f64.to_bits());
    assert_eq!(PRESSED_SCALE, 0.9f64.to_bits());
    assert_eq!(MIN_SCALE, 0.8f64.to_bits());
    assert_eq!(MAX_SCALE, 1.1f64.to_bits());
    assert_eq!(ELASTIC_BASE_DURATION, 0.42f64.to_bits());
    assert_eq!(SETTLE_POSITION_EPSILON, 0.0008f64.to_bits());
    assert_eq!(SETTLE_VELOCITY_EPSILON, 0.01f64.to_bits());
    assert_eq!(VISIBLE_CHANGE, 0.0001f64.to_bits());
    assert_eq!(HALF_TURN, 180.0f64.to_bits());
    assert_eq!(NEGATIVE_HALF_TURN, (-180.0f64).to_bits());
}

#[test]
fn angles_are_normalized_to_half_a_turn() {
    assert_eq!(normalized(1280.0), -160.0);
    assert_eq!(normalized(-190.0), 170.0);
    assert_eq!(normalized(180.0), 180.0);
    assert_eq!(normalized(-180.0), -180.0);
    assert_eq!(normalized(720.0), 0.0);
}

#[test]
fn widths_are_brought_into_range() {
    assert_eq!(float(clamp_cursor_width(number(8.0))), 16.0);
    assert_eq!(float(clamp_cursor_width(number(30.0))), 30.0);
    assert_eq!(float(clamp_cursor_width(number(90.0))), 64.0);
}

#[test]
fn only_visible_changes_count() {
    let zero = number(0.0);
    assert!(!CursorAnim::visual_changed_from(zero, zero, zero));
    assert!(!CursorAnim::visual_changed_from(number(0.0001), zero, zero));
    assert!(CursorAnim::visual_changed_from(number(-0.00011), zero, zero));
    assert!(CursorAnim::visual_changed_from(zero, number(0.001), zero));
    assert!(CursorAnim::visual_changed_from(zero, zero, number(0.001)));
}

#[test]
fn changes_have_no_direction() {
    for (angle, scale, additive) in [(0.3, 0.0, 0.0), (0.00005, -0.0002, 0.0), (0.0, 0.0, 0.0001)] {
        let there = CursorAnim::visual_changed_from(number(angle), number(scale), number(additive));
        let back =
            CursorAnim::visual_changed_from(number(-angle), number(-scale), number(-additive));
        assert_eq!(there, back);
    }
    let zero = number(-0.0);
    assert!(!CursorAnim::visual_changed_from(zero, zero, zero));
}

#[test]
fn a_click_leads_back_to_rest() {
    let mut anim = CursorAnim::default();
    anim.begin_press();
    assert!(matches!(anim.motion(), Motion::Hold));
    end_press(&mut anim);
    assert!(matches!(anim.motion(), Motion::Rest { .. }));
}

#[test]
fn a_release_without_a_press_changes_nothing() {
    let mut anim = CursorAnim::default();
    anim.angle = number(90.0);
    end_press(&mut anim);
    assert!(!anim.spin_returning);
    assert_eq!(float(anim.angle), 90.0);
}

#[test]
fn an_upright_drag_does_not_spin() {
    let mut anim = CursorAnim::default();
    anim.begin_press();
    anim.drag_active = true;
    anim.angle = number(0.4);
    end_press(&mut anim);
    assert!(!anim.spin_returning);
    assert!(matches!(anim.motion(), Motion::Rest { .. }));
}

#[test]
fn pressed_goals_are_small_and_glowing() {
    let mut anim = CursorAnim::default();
    assert_eq!(float(anim.goals().scale), 1.0);
    assert_eq!(float(anim.goals().additive), 0.0);
    anim.pointer_hover = true;
    assert_eq!(float(anim.goals().additive), 1.0);
    anim.begin_press();
    assert_eq!(float(anim.goals().scale), 0.9);
    assert_eq!(float(anim.goals().additive), 1.0);
}

#[test]
fn size_and_glow_stay_in_bounds() {
    let mut anim = CursorAnim::default();
    anim.spring(Springs {
        scale_value: number(3.0),
        scale_velocity: number(1.0),
        additive_opacity: number(-2.0),
        opacity_velocity: number(1.0),
    });
    assert_eq!(float(anim.scale_value), 1.1);
    assert_eq!(float(anim.additive_opacity), 0.0);
    anim.spring(Springs {
        scale_value: number(0.1),
        scale_velocity: number(1.0),
        additive_opacity: number(7.0),
        opacity_velocity: number(1.0),
    });
    assert_eq!(float(anim.scale_value), 0.8);
    assert_eq!(float(anim.additive_opacity), 1.0);
}

#[test]
fn numbers_compare_as_floats_do() {
    let values = [
        f64::NEG_INFINITY,
        -2.5,
        -0.0,
        0.0,
        1e-310,
        0.5,
        7.25,
        f64::INFINITY,
        f64::NAN,
    ];
    for a in values {
        assert_eq!(number(a).is_nan(), a.is_nan());
        assert_eq!(number(a).abs().bits, a.abs().to_bits());
        for b in values {
            assert_eq!(number(a).is_below(number(b)), a < b);
            assert_eq!(number(a).is_at_most(number(b)), a <= b);
            assert_eq!(number(a).is_equal(number(b)), a == b);
            if b >= 0.0 {
                let clamped = number(a).clamp(number(-b), number(b));
                assert_eq!(clamped.bits, a.clamp(-b, b).to_bits());
            }
        }
    }
}
