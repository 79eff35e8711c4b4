use tnua_rapier2d::motor::{
    BodyWrites, ExternalForce, MassProperties, Motor, TnuaRapier2dIOBundle, VelChange, Velocity,
};
use tnua_rapier2d::scalar::{whole, ONE};
use tnua_rapier2d::toggle::Toggle;
use tnua_rapier2d::vector::{Vector2, Vector3};

fn idle() -> Motor {
    Motor {
        lin: VelChange { acceleration: None, boost: None },
        ang: VelChange { acceleration: None, boost: None },
    }
}

fn moving_body() -> TnuaRapier2dIOBundle {
    TnuaRapier2dIOBundle {
        velocity: Velocity { linvel: Vector2 { x: whole(1), y: whole(-2) }, angvel: whole(3) },
        external_force: ExternalForce { force: Vector2 { x: whole(7), y: whole(8) }, torque: whole(9) },
        read_mass_properties: MassProperties { mass: whole(2), principal_inertia: whole(5) },
    }
}

fn across(x: i64, y: i64, z: i64) -> Option<Vector3> {
    Some(Vector3 { x, y, z })
}

#[test]
fn acceleration_of_ten_on_mass_two_is_force_twenty() {
    let mut body = moving_body();
    let mut motor = idle();
    motor.lin.acceleration = across(whole(10), 0, 0);
    assert!(motor.apply(Toggle::Enabled, &mut body));
    assert_eq!(body.external_force.force.x, whole(20));
    assert_eq!(body.external_force.force.y, 0);
    // the torque and the velocity were not asked for
    assert_eq!(body.external_force.torque, whole(9));
    assert_eq!(body.velocity, moving_body().velocity);
}

#[test]
fn angular_boost_of_a_half_raises_angular_velocity_by_a_half() {
    let mut body = moving_body();
    let mut motor = idle();
    motor.ang.boost = across(0, 0, ONE / 2);
    assert!(motor.apply(Toggle::Enabled, &mut body));
    assert_eq!(body.velocity.angvel, whole(3) + ONE / 2);
    assert_eq!(body.velocity.linvel, moving_body().velocity.linvel);
    assert_eq!(body.external_force, moving_body().external_force);
}

#[test]
fn linear_boost_is_added_to_the_velocity() {
    let mut body = moving_body();
    let mut motor = idle();
    motor.lin.boost = across(whole(4), whole(5), whole(6));
    assert!(motor.apply(Toggle::Enabled, &mut body));
    assert_eq!(body.velocity.linvel, Vector2 { x: whole(5), y: whole(3) });
    assert_eq!(body.velocity.angvel, whole(3));
    assert_eq!(body.external_force, moving_body().external_force);
}

#[test]
fn angular_acceleration_sets_torque_by_inertia() {
    let mut body = moving_body();
    let mut motor = idle();
    motor.ang.acceleration = across(whole(100), whole(100), ONE / 2);
    assert!(motor.apply(Toggle::Enabled, &mut body));
    assert_eq!(body.external_force.torque, 2 * ONE + ONE / 2);
    assert_eq!(body.external_force.force, moving_body().external_force.force);
    assert_eq!(body.velocity, moving_body().velocity);
}

#[test]
fn force_overwrites_and_does_not_accumulate() {
    let mut body = moving_body();
    let mut motor = idle();
    motor.lin.acceleration = across(whole(1), whole(-1), 0);
    assert!(motor.apply(Toggle::Enabled, &mut body));
    assert!(motor.apply(Toggle::Enabled, &mut body));
    assert_eq!(body.external_force.force, Vector2 { x: whole(2), y: whole(-2) });
}

#[test]
fn all_four_channels_at_once() {
    let mut body = moving_body();
    let motor = Motor {
        lin: VelChange {
            acceleration: across(whole(3), whole(4), whole(50)),
            boost: across(whole(1), whole(1), whole(50)),
        },
        ang: VelChange {
            acceleration: across(whole(50), whole(50), whole(2)),
            boost: across(whole(50), whole(50), whole(-1)),
        },
    };
    assert!(motor.apply(Toggle::Enabled, &mut body));
    assert_eq!(
        body,
        TnuaRapier2dIOBundle {
            velocity: Velocity { linvel: Vector2 { x: whole(2), y: whole(-1) }, angvel: whole(2) },
            external_force: ExternalForce {
                force: Vector2 { x: whole(6), y: whole(8) },
                torque: whole(10),
            },
            read_mass_properties: moving_body().read_mass_properties,
        }
    );
}

#[test]
fn idle_motor_changes_nothing() {
    let mut body = moving_body();
    assert!(idle().apply(Toggle::Enabled, &mut body));
    assert_eq!(body, moving_body());
}

#[test]
fn disabled_clears_force_whatever_the_motor_asks() {
    let busy = Motor {
        lin: VelChange {
            acceleration: across(whole(3), whole(4), 0),
            boost: across(whole(1), whole(1), 0),
        },
        ang: VelChange { acceleration: across(0, 0, whole(2)), boost: across(0, 0, whole(-1)) },
    };
    for toggle in [Toggle::Disabled, Toggle::SenseOnly] {
        for motor in [busy, idle()] {
            let mut body = moving_body();
            assert!(motor.apply(toggle, &mut body));
            assert_eq!(body.external_force, ExternalForce { force: Vector2 { x: 0, y: 0 }, torque: 0 });
            assert_eq!(body.velocity, moving_body().velocity);
            assert_eq!(body.read_mass_properties, moving_body().read_mass_properties);
        }
    }
}

#[test]
fn disabled_clears_force_even_where_the_motor_would_not_fit() {
    let mut body = moving_body();
    body.velocity.angvel = i64::MAX;
    let mut motor = idle();
    motor.ang.boost = across(0, 0, 1);
    assert!(motor.apply(Toggle::Disabled, &mut body));
    assert_eq!(body.external_force, ExternalForce::default());
    assert_eq!(body.velocity.angvel, i64::MAX);
}

#[test]
fn a_motor_that_does_not_fit_touches_nothing() {
    let mut body = moving_body();
    body.velocity.angvel = i64::MAX;
    let motor = Motor {
        lin: VelChange {
            acceleration: across(whole(3), whole(4), 0),
            boost: across(whole(1), whole(1), 0),
        },
        ang: VelChange { acceleration: None, boost: across(0, 0, 1) },
    };
    let before = body;
    assert!(!motor.apply(Toggle::Enabled, &mut body));
    assert_eq!(body, before);

    let mut heavy = moving_body();
    heavy.read_mass_properties.mass = i64::MAX;
    let mut push = idle();
    push.lin.acceleration = across(whole(2), 0, 0);
    let before = heavy;
    assert!(!push.apply(Toggle::Enabled, &mut heavy));
    assert_eq!(heavy, before);
}

#[test]
fn defaults_are_at_rest() {
    let bundle = TnuaRapier2dIOBundle::default();
    assert_eq!(bundle.velocity, Velocity { linvel: Vector2 { x: 0, y: 0 }, angvel: 0 });
    assert_eq!(bundle.velocity, Velocity::default());
    assert_eq!(bundle.external_force, ExternalForce { force: Vector2 { x: 0, y: 0 }, torque: 0 });
    assert_eq!(bundle.read_mass_properties, MassProperties { mass: 0, principal_inertia: 0 });
    assert_eq!(bundle.read_mass_properties, MassProperties::default());
}

#[test]
fn a_motor_that_may_not_drive_writes_zero_force_and_nothing_else() {
    let mut busy = idle();
    busy.lin.boost = across(whole(1), 0, 0);
    busy.ang.acceleration = across(0, 0, whole(1));
    for toggle in [Toggle::Disabled, Toggle::SenseOnly] {
        for motor in [busy, idle()] {
            assert_eq!(
                motor.writes(toggle, &moving_body()),
                Some(BodyWrites {
                    linvel: None,
                    angvel: None,
                    force: Some(Vector2 { x: 0, y: 0 }),
                    torque: Some(0),
                })
            );
        }
    }
}

#[test]
fn a_driving_motor_writes_the_channels_asked_for() {
    assert_eq!(
        idle().writes(Toggle::Enabled, &moving_body()),
        Some(BodyWrites { linvel: None, angvel: None, force: None, torque: None })
    );
    let mut motor = idle();
    motor.lin.boost = across(whole(1), whole(1), whole(1));
    motor.ang.acceleration = across(0, 0, whole(-2));
    assert_eq!(
        motor.writes(Toggle::Enabled, &moving_body()),
        Some(BodyWrites {
            linvel: Some(Vector2 { x: whole(2), y: whole(-1) }),
            angvel: None,
            force: None,
            torque: Some(whole(-10)),
        })
    );
    let mut other = idle();
    other.ang.boost = across(0, 0, 0);
    other.lin.acceleration = across(0, ONE / 2, 0);
    assert_eq!(
        other.writes(Toggle::Enabled, &moving_body()),
        Some(BodyWrites {
            linvel: None,
            angvel: Some(whole(3)),
            force: Some(Vector2 { x: 0, y: whole(1) }),
            torque: None,
        })
    );
}

#[test]
fn a_motor_that_does_not_fit_writes_nothing() {
    let mut body = moving_body();
    body.velocity.linvel.y = i64::MIN;
    let mut motor = idle();
    motor.lin.boost = across(0, -1, 0);
    assert_eq!(motor.writes(Toggle::Enabled, &body), None);
    motor.lin.boost = across(0, 0, 0);
    assert!(motor.writes(Toggle::Enabled, &body).is_some());
    body.read_mass_properties.principal_inertia = i64::MIN;
    motor.ang.acceleration = across(0, 0, -whole(1));
    assert_eq!(motor.writes(Toggle::Enabled, &body), None);
}

#[test]
fn writes_are_performed_field_by_field() {
    let mut body = moving_body();
    BodyWrites { linvel: None, angvel: None, force: None, torque: None }.perform(&mut body);
    assert_eq!(body, moving_body());
    BodyWrites {
        linvel: Some(Vector2 { x: 1, y: 2 }),
        angvel: None,
        force: None,
        torque: Some(3),
    }
    .perform(&mut body);
    assert_eq!(body.velocity, Velocity { linvel: Vector2 { x: 1, y: 2 }, angvel: whole(3) });
    assert_eq!(
        body.external_force,
        ExternalForce { force: Vector2 { x: whole(7), y: whole(8) }, torque: 3 }
    );
    BodyWrites {
        linvel: None,
        angvel: Some(4),
        force: Some(Vector2 { x: 5, y: 6 }),
        torque: None,
    }
    .perform(&mut body);
    assert_eq!(body.velocity, Velocity { linvel: Vector2 { x: 1, y: 2 }, angvel: 4 });
    assert_eq!(body.external_force, ExternalForce { force: Vector2 { x: 5, y: 6 }, torque: 3 });
    assert_eq!(body.read_mass_properties, moving_body().read_mass_properties);
}
