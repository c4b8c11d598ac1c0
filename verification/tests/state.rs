use springs::{SpringState, Step};

/// A spring over plain numbers: value, velocity, a named config and an epsilon.
type Scalar = SpringState<f64, f64, &'static str, f64>;

fn resting(value: f64) -> Scalar {
    SpringState::new(value, 0.0, "default", 0.001)
}

#[test]
fn a_new_spring_rests_on_its_value() {
    let spring = resting(42.0);
    assert_eq!(spring.value(), 42.0);
    assert_eq!(spring.target(), 42.0);
    assert_eq!(spring.velocity(), 0.0);
    assert_eq!(spring.config(), "default");
    assert_eq!(spring.epsilon(), 0.001);
}

#[test]
fn builders_set_one_term_each() {
    let spring = resting(0.0)
        .with_target(1.0)
        .with_velocity(25.0)
        .with_config("bouncy")
        .with_epsilon(0.01);
    assert_eq!(spring.value(), 0.0);
    assert_eq!(spring.target(), 1.0);
    assert_eq!(spring.velocity(), 25.0);
    assert_eq!(spring.config(), "bouncy");
    assert_eq!(spring.epsilon(), 0.01);
}

#[test]
fn a_replaced_config_is_reported() {
    let spring = resting(0.0).with_config("first").with_config("second");
    assert_eq!(spring.config(), "second");
}

#[test]
fn retargeting_keeps_value_and_velocity() {
    let mut spring = resting(0.0).with_target(1.0).with_velocity(3.5);
    spring.set_target(5.0);
    assert_eq!(spring.value(), 0.0);
    assert_eq!(spring.velocity(), 3.5);
    assert_eq!(spring.target(), 5.0);
}

#[test]
fn a_retargeted_spring_is_the_directly_built_one() {
    let mut retargeted = resting(0.25).with_target(1.0).with_velocity(3.5).with_config("c");
    retargeted.set_target(5.0);

    let direct = resting(0.25).with_target(5.0).with_velocity(3.5).with_config("c");
    assert_eq!(retargeted.value(), direct.value());
    assert_eq!(retargeted.target(), direct.target());
    assert_eq!(retargeted.velocity(), direct.velocity());
    assert_eq!(retargeted.config(), direct.config());
    assert_eq!(retargeted.epsilon(), direct.epsilon());
}

#[test]
fn set_velocity_replaces_the_velocity_only() {
    let mut spring = resting(2.0).with_target(3.0);
    spring.set_velocity(-7.0);
    assert_eq!(spring.velocity(), -7.0);
    assert_eq!(spring.value(), 2.0);
    assert_eq!(spring.target(), 3.0);
}

#[test]
fn snapping_puts_the_spring_at_rest_on_the_value() {
    let mut spring = resting(0.0).with_target(1.0).with_velocity(9.0).with_config("c");
    spring.snap_to(4.0, 0.0);
    assert_eq!(spring.value(), 4.0);
    assert_eq!(spring.target(), 4.0);
    assert_eq!(spring.velocity(), 0.0);
    assert_eq!(spring.config(), "c");
}

#[test]
fn a_skipped_step_changes_nothing() {
    let mut spring = resting(0.5).with_target(1.0).with_velocity(2.0);
    for _ in 0..100 {
        spring.apply_step(Step::Skipped, 0.0);
    }
    assert_eq!(spring.value(), 0.5);
    assert_eq!(spring.velocity(), 2.0);
    assert_eq!(spring.target(), 1.0);
}

#[test]
fn a_moving_step_takes_the_solvers_state() {
    let mut spring = resting(0.0).with_target(1.0).with_config("c");
    spring.apply_step(
        Step::Moved {
            value: 0.3,
            velocity: 4.0,
            settled: false,
        },
        0.0,
    );
    assert_eq!(spring.value(), 0.3);
    assert_eq!(spring.velocity(), 4.0);
    assert_eq!(spring.target(), 1.0);
    assert_eq!(spring.config(), "c");
}

#[test]
fn a_settled_step_lands_exactly_on_the_target() {
    let mut spring = resting(0.0).with_target(1.0);
    spring.apply_step(
        Step::Moved {
            value: 0.999_95,
            velocity: 0.000_2,
            settled: true,
        },
        0.0,
    );
    assert_eq!(spring.value(), 1.0);
    assert_eq!(spring.velocity(), 0.0);
    assert_eq!(spring.target(), 1.0);
}

#[test]
fn array_values_use_their_own_zero() {
    let mut spring: SpringState<[f64; 2], [f64; 2], u8, f64> =
        SpringState::new([0.0, 0.0], [0.0, 0.0], 0, 4.0).with_target([3.0, -4.0]);
    spring.apply_step(
        Step::Moved {
            value: [2.9, -3.9],
            velocity: [0.1, -0.1],
            settled: true,
        },
        [0.0, 0.0],
    );
    assert_eq!(spring.value(), [3.0, -4.0]);
    assert_eq!(spring.velocity(), [0.0, 0.0]);
}
