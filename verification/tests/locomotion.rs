use cosmic_junkyard::fraction::Fraction;
use cosmic_junkyard::gravity::GravityBound;
use cosmic_junkyard::locomotion::{
    apply_friction, jump, movement, touching_ground, Controls, EdgeTrigger, Heading,
    LocomotionSettings, Stride,
};

fn controls(forward: bool, back: bool, left: bool, right: bool) -> Controls {
    Controls { forward, back, left, right }
}

#[test]
fn recommended_locomotion_settings() {
    let settings = LocomotionSettings::recommended();
    assert_eq!(settings.run_speed, Fraction { numerator: 32, denominator: 5 });
    assert_eq!(settings.air_control, Fraction { numerator: 1, denominator: 5 });
    assert_eq!(settings.friction, Fraction { numerator: 2, denominator: 5 });
    assert_eq!(settings.jump_strength, Fraction { numerator: 16, denominator: 1 });
    assert_eq!(settings.turn_blend, Fraction { numerator: 1, denominator: 10 });
}

#[test]
fn recommended_run_speed_is_six_point_four() {
    let speed = LocomotionSettings::recommended().run_speed;
    assert_eq!(speed.numerator as f32 / speed.denominator as f32, 6.4f32);
}

#[test]
fn single_controls_give_unit_headings() {
    assert_eq!(controls(true, false, false, false).heading(), Heading { forward: 1, right: 0 });
    assert_eq!(controls(false, true, false, false).heading(), Heading { forward: -1, right: 0 });
    assert_eq!(controls(false, false, true, false).heading(), Heading { forward: 0, right: -1 });
    assert_eq!(controls(false, false, false, true).heading(), Heading { forward: 0, right: 1 });
}

#[test]
fn opposed_controls_cancel() {
    assert_eq!(controls(true, true, false, false).heading(), Heading { forward: 0, right: 0 });
    assert_eq!(controls(false, false, true, true).heading(), Heading { forward: 0, right: 0 });
    assert_eq!(controls(true, true, true, true).heading(), Heading { forward: 0, right: 0 });
    assert_eq!(controls(true, true, false, true).heading(), Heading { forward: 0, right: 1 });
    assert_eq!(controls(true, false, true, true).heading(), Heading { forward: 1, right: 0 });
}

#[test]
fn diagonal_controls_combine() {
    assert_eq!(controls(true, false, false, true).heading(), Heading { forward: 1, right: 1 });
    assert_eq!(controls(true, false, true, false).heading(), Heading { forward: 1, right: -1 });
    assert_eq!(controls(false, true, false, true).heading(), Heading { forward: -1, right: 1 });
    assert_eq!(controls(false, true, true, false).heading(), Heading { forward: -1, right: -1 });
}

#[test]
fn no_controls_give_no_heading() {
    assert_eq!(controls(false, false, false, false).heading(), Heading { forward: 0, right: 0 });
}

#[test]
fn no_hits_means_airborne() {
    assert!(!touching_ground(&[]));
}

#[test]
fn a_solid_hit_means_grounded() {
    assert!(touching_ground(&[false]));
    assert!(touching_ground(&[true, false]));
    assert!(touching_ground(&[false, true]));
    assert!(touching_ground(&[true, true, false]));
}

#[test]
fn trigger_volumes_are_not_ground() {
    assert!(!touching_ground(&[true]));
    assert!(!touching_ground(&[true, true, true]));
}

#[test]
fn grounded_stride_runs_at_full_speed() {
    let settings = LocomotionSettings::recommended();
    let plan = movement(&settings, controls(true, false, false, false), GravityBound::Pulled, true);
    assert_eq!(
        plan,
        Some(Stride {
            heading: Heading { forward: 1, right: 0 },
            gain: Fraction { numerator: 32, denominator: 5 },
            turn: Some(Fraction { numerator: 1, denominator: 10 }),
        })
    );
}

#[test]
fn airborne_stride_runs_at_a_fifth_of_the_speed() {
    let settings = LocomotionSettings::recommended();
    let plan = movement(&settings, controls(false, false, false, true), GravityBound::Pulled, false);
    assert_eq!(
        plan,
        Some(Stride {
            heading: Heading { forward: 0, right: 1 },
            gain: Fraction { numerator: 32, denominator: 25 },
            turn: Some(Fraction { numerator: 1, denominator: 10 }),
        })
    );
    let gain = plan.unwrap().gain;
    assert_eq!(gain.numerator as f32 / gain.denominator as f32, 1.28f32);
}

#[test]
fn backing_straight_up_keeps_the_facing() {
    let settings = LocomotionSettings::recommended();
    let grounded = movement(&settings, controls(false, true, false, false), GravityBound::Pulled, true)
        .unwrap();
    assert_eq!(grounded.heading, Heading { forward: -1, right: 0 });
    assert_eq!(grounded.turn, None);
    assert_eq!(grounded.gain, Fraction { numerator: 32, denominator: 5 });
    let airborne = movement(&settings, controls(false, true, true, true), GravityBound::Pulled, false)
        .unwrap();
    assert_eq!(airborne.heading, Heading { forward: -1, right: 0 });
    assert_eq!(airborne.turn, None);
}

#[test]
fn backing_up_sideways_still_turns() {
    let settings = LocomotionSettings::recommended();
    let left = movement(&settings, controls(false, true, true, false), GravityBound::Pulled, true)
        .unwrap();
    assert_eq!(left.turn, Some(Fraction { numerator: 1, denominator: 10 }));
    let right = movement(&settings, controls(false, true, false, true), GravityBound::Pulled, true)
        .unwrap();
    assert_eq!(right.turn, Some(Fraction { numerator: 1, denominator: 10 }));
}

#[test]
fn no_heading_means_no_stride() {
    let settings = LocomotionSettings::recommended();
    assert_eq!(movement(&settings, controls(false, false, false, false), GravityBound::Pulled, true), None);
    assert_eq!(movement(&settings, controls(true, true, false, false), GravityBound::Pulled, true), None);
    assert_eq!(movement(&settings, controls(true, true, true, true), GravityBound::Pulled, false), None);
}

#[test]
fn floating_body_cannot_be_steered() {
    let settings = LocomotionSettings::recommended();
    let mut bits = 0;
    while bits < 16 {
        let held = controls(bits & 1 != 0, bits & 2 != 0, bits & 4 != 0, bits & 8 != 0);
        assert_eq!(movement(&settings, held, GravityBound::Floating, true), None);
        assert_eq!(movement(&settings, held, GravityBound::Floating, false), None);
        bits += 1;
    }
}

#[test]
fn stride_uses_the_settings_it_is_given() {
    let settings = LocomotionSettings {
        run_speed: Fraction { numerator: 10, denominator: 1 },
        air_control: Fraction { numerator: 1, denominator: 2 },
        friction: Fraction { numerator: 1, denominator: 4 },
        jump_strength: Fraction { numerator: 10, denominator: 1 },
        turn_blend: Fraction { numerator: 1, denominator: 1 },
    };
    let grounded = movement(&settings, controls(true, false, true, false), GravityBound::Pulled, true)
        .unwrap();
    assert_eq!(grounded.gain, Fraction { numerator: 10, denominator: 1 });
    assert_eq!(grounded.turn, Some(Fraction { numerator: 1, denominator: 1 }));
    let airborne = movement(&settings, controls(true, false, true, false), GravityBound::Pulled, false)
        .unwrap();
    assert_eq!(airborne.gain, Fraction { numerator: 10, denominator: 2 });
    assert_eq!(jump(&settings, GravityBound::Pulled, true, true), Some(Fraction { numerator: 10, denominator: 1 }));
    assert_eq!(apply_friction(&settings, GravityBound::Pulled, true), Some(Fraction { numerator: 3, denominator: 4 }));
}

#[test]
fn jump_needs_gravity_ground_and_a_fresh_press() {
    let settings = LocomotionSettings::recommended();
    assert_eq!(
        jump(&settings, GravityBound::Pulled, true, true),
        Some(Fraction { numerator: 16, denominator: 1 })
    );
    assert_eq!(jump(&settings, GravityBound::Pulled, true, false), None);
    assert_eq!(jump(&settings, GravityBound::Pulled, false, true), None);
    assert_eq!(jump(&settings, GravityBound::Pulled, false, false), None);
    assert_eq!(jump(&settings, GravityBound::Floating, true, true), None);
    assert_eq!(jump(&settings, GravityBound::Floating, true, false), None);
    assert_eq!(jump(&settings, GravityBound::Floating, false, true), None);
    assert_eq!(jump(&settings, GravityBound::Floating, false, false), None);
}

#[test]
fn edge_trigger_fires_on_the_press_only() {
    let mut trigger = EdgeTrigger::new();
    assert!(!trigger.down);
    assert!(!trigger.sample(false));
    assert!(trigger.sample(true));
    assert!(trigger.down);
    assert!(!trigger.sample(true));
    assert!(!trigger.sample(true));
    assert!(!trigger.sample(false));
    assert!(!trigger.down);
    assert!(trigger.sample(true));
}

#[test]
fn holding_jump_for_many_ticks_gives_one_impulse() {
    let settings = LocomotionSettings::recommended();
    let mut trigger = EdgeTrigger::new();
    let mut impulses = 0;
    let mut first_impulse_tick = None;
    let mut tick = 0;
    while tick < 50 {
        let pressed = trigger.sample(true);
        if jump(&settings, GravityBound::Pulled, true, pressed).is_some() {
            impulses += 1;
            if first_impulse_tick.is_none() {
                first_impulse_tick = Some(tick);
            }
        }
        tick += 1;
    }
    assert_eq!(impulses, 1);
    assert_eq!(first_impulse_tick, Some(0));
}

#[test]
fn releasing_and_pressing_again_jumps_again() {
    let settings = LocomotionSettings::recommended();
    let mut trigger = EdgeTrigger::new();
    let levels = [true, true, false, true, true, false, false, true];
    let mut impulses = 0;
    for level in levels {
        let pressed = trigger.sample(level);
        if jump(&settings, GravityBound::Pulled, true, pressed).is_some() {
            impulses += 1;
        }
    }
    assert_eq!(impulses, 3);
}

#[test]
fn friction_keeps_three_fifths_across_gravity_up() {
    let settings = LocomotionSettings::recommended();
    assert_eq!(
        apply_friction(&settings, GravityBound::Pulled, true),
        Some(Fraction { numerator: 3, denominator: 5 })
    );
}

#[test]
fn friction_needs_ground_and_gravity() {
    let settings = LocomotionSettings::recommended();
    assert_eq!(apply_friction(&settings, GravityBound::Pulled, false), None);
    assert_eq!(apply_friction(&settings, GravityBound::Floating, true), None);
    assert_eq!(apply_friction(&settings, GravityBound::Floating, false), None);
}

#[test]
fn a_tick_without_gravity_changes_nothing() {
    let walking = LocomotionSettings::recommended();
    let bound = GravityBound::settle(0, true);
    assert_eq!(bound, GravityBound::Floating);
    assert_eq!(movement(&walking, controls(true, false, false, true), bound, true), None);
    assert_eq!(jump(&walking, bound, true, true), None);
    assert_eq!(apply_friction(&walking, bound, true), None);
}

#[test]
fn recommended_locomotion_settings_are_valid() {
    assert!(LocomotionSettings::recommended().is_valid());
}

#[test]
fn locomotion_settings_need_shares_and_small_speeds() {
    let good = LocomotionSettings::recommended();

    let mut settings = good;
    settings.run_speed = Fraction { numerator: 1 << 32, denominator: 1 };
    assert!(!settings.is_valid());

    let mut settings = good;
    settings.air_control = Fraction { numerator: 6, denominator: 5 };
    assert!(!settings.is_valid());

    let mut settings = good;
    settings.air_control = Fraction { numerator: 1 << 32, denominator: 1 << 33 };
    assert!(!settings.is_valid());

    let mut settings = good;
    settings.friction = Fraction { numerator: 3, denominator: 2 };
    assert!(!settings.is_valid());

    let mut settings = good;
    settings.jump_strength = Fraction { numerator: 16, denominator: 0 };
    assert!(!settings.is_valid());

    let mut settings = good;
    settings.turn_blend = Fraction { numerator: 2, denominator: 1 };
    assert!(!settings.is_valid());

    let mut settings = good;
    settings.friction = Fraction { numerator: 1, denominator: 1 };
    settings.air_control = Fraction { numerator: 0, denominator: 1 };
    settings.jump_strength = Fraction { numerator: u64::MAX, denominator: 1 };
    assert!(settings.is_valid());
    assert_eq!(
        apply_friction(&settings, GravityBound::Pulled, true),
        Some(Fraction { numerator: 0, denominator: 1 })
    );
    assert_eq!(
        movement(&settings, controls(true, false, false, false), GravityBound::Pulled, false)
            .unwrap()
            .gain,
        Fraction { numerator: 0, denominator: 5 }
    );
}

#[test]
fn edge_trigger_starts_released() {
    assert_eq!(EdgeTrigger::default(), EdgeTrigger { down: false });
    assert_eq!(EdgeTrigger::new(), EdgeTrigger::default());
}

#[test]
fn airborne_gain_never_exceeds_the_run_speed() {
    let settings = LocomotionSettings::recommended();
    let grounded = movement(&settings, controls(true, false, false, false), GravityBound::Pulled, true)
        .unwrap()
        .gain;
    let airborne = movement(&settings, controls(true, false, false, false), GravityBound::Pulled, false)
        .unwrap()
        .gain;
    assert!(airborne.numerator * grounded.denominator <= grounded.numerator * airborne.denominator);
}
