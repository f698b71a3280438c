use planet_gravity::directed::Directed;
use planet_gravity::locomotion::{
    locomote, move_player, turn_of, Controls, Locomotion, Turn, JUMP_IMPULSE,
    PLAYER_HALF_HEIGHT, STEER_RADIAL, STEER_TANGENTIAL, WALK_SPEED,
};
use planet_gravity::vector::{Point, Vector};
use planet_gravity::world::{
    Atmosphere, Attractable, Body, Bullet, Components, Entity, Kind, Player, Source, World,
};

fn keys(left: bool, right: bool, up: bool, down: bool, jump: bool) -> Controls {
    Controls { left, right, up, down, jump }
}

fn none() -> Controls {
    keys(false, false, false, false, false)
}

fn planet(x: i32, y: i32) -> Source {
    Source { center: Point { x, y }, atmosphere: Atmosphere { planet_radius: 160 } }
}

fn v(x: i64, y: i64) -> Vector {
    Vector { x, y }
}

#[test]
fn constants_of_locomotion() {
    assert_eq!(JUMP_IMPULSE, 30_000);
    assert_eq!(STEER_TANGENTIAL, 2_000);
    assert_eq!(STEER_RADIAL, 1_000);
    assert_eq!(WALK_SPEED, 1_200);
    assert_eq!(PLAYER_HALF_HEIGHT, 23);
}

#[test]
fn direction_is_the_sum_of_the_held_keys() {
    assert_eq!(none().direction(), v(0, 0));
    assert_eq!(keys(true, false, false, false, false).direction(), v(-1, 0));
    assert_eq!(keys(false, true, false, false, false).direction(), v(1, 0));
    assert_eq!(keys(false, false, true, false, false).direction(), v(0, 1));
    assert_eq!(keys(false, false, false, true, false).direction(), v(0, -1));
    assert_eq!(keys(true, false, true, false, true).direction(), v(-1, 1));
    assert_eq!(keys(false, true, false, true, false).direction(), v(1, -1));
}

#[test]
fn opposite_keys_cancel() {
    assert_eq!(keys(true, true, false, false, false).direction(), v(0, 0));
    assert_eq!(keys(false, false, true, true, false).direction(), v(0, 0));
    assert_eq!(keys(true, true, true, true, false).direction(), v(0, 0));
    assert_eq!(keys(true, true, true, false, false).direction(), v(0, 1));
}

#[test]
fn turn_follows_the_clockwise_direction() {
    // on top of the planet the clockwise direction is (-1, 0)
    let diff = v(0, -183);
    assert_eq!(turn_of(v(-1, 0), diff), Turn::Clockwise);
    assert_eq!(turn_of(v(1, 0), diff), Turn::Counterclockwise);
    assert_eq!(turn_of(v(-1, 1), diff), Turn::Clockwise);
    assert_eq!(turn_of(v(1, -1), diff), Turn::Counterclockwise);
    // on the right of the planet it is (0, 1)
    let diff = v(-183, 0);
    assert_eq!(turn_of(v(0, 1), diff), Turn::Clockwise);
    assert_eq!(turn_of(v(0, -1), diff), Turn::Counterclockwise);
}

#[test]
fn turn_is_counterclockwise_at_a_right_angle_or_without_direction() {
    assert_eq!(turn_of(v(0, 1), v(0, -183)), Turn::Counterclockwise);
    assert_eq!(turn_of(v(0, -1), v(0, -183)), Turn::Counterclockwise);
    assert_eq!(turn_of(v(0, 0), v(0, -183)), Turn::Counterclockwise);
    assert_eq!(turn_of(v(1, 1), v(0, 0)), Turn::Counterclockwise);
}

#[test]
fn turn_at_the_rim_of_the_lattice() {
    let far = v(i64::MAX, -i64::MAX);
    // the clockwise direction is (-MAX, -MAX)
    assert_eq!(turn_of(v(-1, -1), far), Turn::Clockwise);
    assert_eq!(turn_of(v(1, 1), far), Turn::Counterclockwise);
    assert_eq!(turn_of(v(1, -1), far), Turn::Counterclockwise);
    assert_eq!(turn_of(v(-1, 0), far), Turn::Clockwise);
}

#[test]
fn grounded_player_walks_clockwise_on_the_surface() {
    // on the circle of radius 183 = 160 + 23, on top of the planet; the
    // clockwise direction there is (-1, 0), the left key
    let action = locomote(
        true,
        Point { x: 0, y: 183 },
        &planet(0, 0),
        &keys(true, false, false, false, false),
        16_667,
    );
    assert_eq!(
        action,
        Locomotion::Walking {
            turn: Turn::Clockwise,
            center: Point { x: 0, y: 0 },
            radius: 183,
            sweep: 20_000_400,
        }
    );
    // a sixtieth of a second at 1.2 radians per second, to the microsecond
    if let Locomotion::Walking { sweep, .. } = action {
        assert!((sweep as f64 * 1e-9 - 1.2 / 60.0).abs() < 1e-6);
    }
}

#[test]
fn walking_sweep_is_speed_times_time() {
    let walk = |dt: u32, left: bool| {
        match locomote(
            true,
            Point { x: 0, y: 183 },
            &planet(0, 0),
            &keys(left, !left, false, false, false),
            dt,
        ) {
            Locomotion::Walking { sweep, .. } => sweep,
            other => panic!("{:?}", other),
        }
    };
    // a twentieth of a second: 0.06 radians
    assert_eq!(walk(50_000, true), 60_000_000);
    assert_eq!(walk(50_000, false), -60_000_000);
    assert_eq!(walk(1_000_000, true), 1_200_000_000);
    assert_eq!(walk(0, true), 0);
    assert_eq!(walk(0, false), 0);
    assert_eq!(walk(u32::MAX, true), 1_200 * 4_294_967_295);
    assert_eq!(walk(u32::MAX, false), -1_200 * 4_294_967_295);
}

#[test]
fn walking_circle_is_about_the_planet() {
    let action = locomote(
        true,
        Point { x: 750, y: 317 },
        &planet(750, 500),
        &keys(false, true, false, false, false),
        1_000,
    );
    // below the planet the clockwise direction is (1, 0)
    assert_eq!(
        action,
        Locomotion::Walking {
            turn: Turn::Clockwise,
            center: Point { x: 750, y: 500 },
            radius: 183,
            sweep: 1_200_000,
        }
    );
    let wide = Source {
        center: Point { x: 0, y: 0 },
        atmosphere: Atmosphere { planet_radius: u32::MAX },
    };
    match locomote(true, Point { x: 0, y: 1 }, &wide, &keys(true, false, false, false, false), 1)
    {
        Locomotion::Walking { radius, .. } => assert_eq!(radius, 4_294_967_318),
        other => panic!("{:?}", other),
    }
}

#[test]
fn grounded_player_without_keys_idles() {
    assert_eq!(locomote(true, Point { x: 0, y: 183 }, &planet(0, 0), &none(), 16_667), Locomotion::Idle);
    assert_eq!(
        locomote(
            true,
            Point { x: 0, y: 183 },
            &planet(0, 0),
            &keys(true, true, false, false, false),
            16_667
        ),
        Locomotion::Idle
    );
}

#[test]
fn plain_jump_is_a_radial_launch() {
    // diff = (0, -183); the impulse is -30000 * normalize(diff)
    let action = locomote(
        true,
        Point { x: 0, y: 183 },
        &planet(0, 0),
        &keys(false, false, false, false, true),
        16_667,
    );
    assert_eq!(
        action,
        Locomotion::Jumping { impulse: Directed { along: v(0, 183), magnitude: 30_000 } }
    );
    if let Locomotion::Jumping { impulse } = action {
        assert_eq!(impulse.resolve(), v(0, 30_000));
    }
    // with keys that cancel there is no bias either
    let action = locomote(
        true,
        Point { x: -183, y: 0 },
        &planet(0, 0),
        &keys(true, true, false, false, true),
        16_667,
    );
    assert_eq!(
        action,
        Locomotion::Jumping { impulse: Directed { along: v(-183, 0), magnitude: 30_000 } }
    );
}

#[test]
fn jump_with_a_direction_is_biased_along_the_surface() {
    // on top: diff = (0, -183), clockwise direction (-183, 0)
    let left = locomote(
        true,
        Point { x: 0, y: 183 },
        &planet(0, 0),
        &keys(true, false, false, false, true),
        16_667,
    );
    // -((0, -183) + (-183, 0)) = (183, 183)
    assert_eq!(
        left,
        Locomotion::Jumping { impulse: Directed { along: v(183, 183), magnitude: 30_000 } }
    );
    let right = locomote(
        true,
        Point { x: 0, y: 183 },
        &planet(0, 0),
        &keys(false, true, false, false, true),
        16_667,
    );
    // -((0, -183) - (-183, 0)) = (-183, 183)
    assert_eq!(
        right,
        Locomotion::Jumping { impulse: Directed { along: v(-183, 183), magnitude: 30_000 } }
    );
    if let Locomotion::Jumping { impulse } = right {
        // 30000 / sqrt(2) = 21213.2...
        assert_eq!(impulse.resolve(), v(-21_213, 21_213));
    }
}

#[test]
fn jump_goes_before_walking() {
    let action = locomote(
        true,
        Point { x: 0, y: 183 },
        &planet(0, 0),
        &keys(true, false, true, false, true),
        16_667,
    );
    assert!(matches!(action, Locomotion::Jumping { .. }));
}

#[test]
fn airborne_player_cannot_jump() {
    assert_eq!(
        locomote(false, Point { x: 0, y: 250 }, &planet(0, 0), &keys(false, false, false, false, true), 16_667),
        Locomotion::Airborne
    );
    assert!(matches!(
        locomote(false, Point { x: 0, y: 250 }, &planet(0, 0), &keys(true, false, false, false, true), 16_667),
        Locomotion::Steering { .. }
    ));
}

#[test]
fn airborne_player_without_keys_drifts() {
    assert_eq!(
        locomote(false, Point { x: 0, y: 250 }, &planet(0, 0), &none(), 16_667),
        Locomotion::Airborne
    );
}

#[test]
fn airborne_player_steers_along_and_away() {
    // above the planet: diff = (0, -250), clockwise direction (-250, 0)
    let left = locomote(
        false,
        Point { x: 0, y: 250 },
        &planet(0, 0),
        &keys(true, false, false, false, false),
        16_667,
    );
    assert_eq!(
        left,
        Locomotion::Steering {
            tangential: Directed { along: v(-250, 0), magnitude: 2_000 },
            radial: Directed { along: v(0, 250), magnitude: 1_000 },
        }
    );
    let right = locomote(
        false,
        Point { x: 0, y: 250 },
        &planet(0, 0),
        &keys(false, true, false, false, false),
        16_667,
    );
    assert_eq!(
        right,
        Locomotion::Steering {
            tangential: Directed { along: v(250, 0), magnitude: 2_000 },
            radial: Directed { along: v(0, 250), magnitude: 1_000 },
        }
    );
    if let Locomotion::Steering { tangential, radial } = right {
        assert_eq!(tangential.resolve(), v(2_000, 0));
        assert_eq!(radial.resolve(), v(0, 1_000));
    }
}

#[test]
fn locomotion_at_the_rim_of_the_lattice() {
    let far = Source {
        center: Point { x: i32::MAX, y: i32::MAX },
        atmosphere: Atmosphere { planet_radius: 160 },
    };
    let here = Point { x: i32::MIN, y: i32::MIN };
    // diff = (d, d) with d = 2^32 - 1; the clockwise direction is (d, -d)
    let d = 4_294_967_295i64;
    let action = locomote(true, here, &far, &keys(false, true, false, false, true), 1);
    assert_eq!(
        action,
        Locomotion::Jumping { impulse: Directed { along: v(-2 * d, 0), magnitude: 30_000 } }
    );
    if let Locomotion::Jumping { impulse } = action {
        assert_eq!(impulse.resolve(), v(-30_000, 0));
    }
    let action = locomote(false, here, &far, &keys(true, false, false, false, false), 1);
    assert_eq!(
        action,
        Locomotion::Steering {
            tangential: Directed { along: v(-d, d), magnitude: 2_000 },
            radial: Directed { along: v(-d, -d), magnitude: 1_000 },
        }
    );
}

#[test]
fn move_player_moves_the_players_that_a_planet_pulls() {
    let body = |x: i32, y: i32| Some(Body { position: Point { x, y }, rotation: v(1, 0) });
    let mut world = World::new();
    let air = world.spawn(Components {
        kind: Kind::Atmosphere(Atmosphere { planet_radius: 160 }),
        attractable: None,
        body: body(0, 0),
    });
    let walker = world.spawn(Components {
        kind: Kind::Player(Player { is_grounded: true }),
        attractable: Some(Attractable(Some(air))),
        body: body(0, 183),
    });
    let flyer = world.spawn(Components {
        kind: Kind::Player(Player { is_grounded: false }),
        attractable: Some(Attractable(Some(air))),
        body: body(0, 250),
    });
    let free = world.spawn(Components {
        kind: Kind::Player(Player { is_grounded: true }),
        attractable: Some(Attractable(None)),
        body: body(0, 183),
    });
    let lost = world.spawn(Components {
        kind: Kind::Player(Player { is_grounded: true }),
        attractable: Some(Attractable(Some(Entity { index: 77 }))),
        body: body(0, 183),
    });
    let bullet = world.spawn(Components {
        kind: Kind::Bullet(Bullet { is_exploding: false }),
        attractable: Some(Attractable(Some(air))),
        body: body(0, 183),
    });
    let before = world.slots.clone();
    let moves = move_player(&world, &keys(true, false, false, false, false), 50_000);
    assert_eq!(world.slots, before);
    assert_eq!(moves.len(), 6);
    assert_eq!(moves[air.index], None);
    assert_eq!(
        moves[walker.index],
        Some(Locomotion::Walking {
            turn: Turn::Clockwise,
            center: Point { x: 0, y: 0 },
            radius: 183,
            sweep: 60_000_000,
        })
    );
    assert_eq!(
        moves[flyer.index],
        Some(Locomotion::Steering {
            tangential: Directed { along: v(-250, 0), magnitude: 2_000 },
            radial: Directed { along: v(0, 250), magnitude: 1_000 },
        })
    );
    assert_eq!(moves[free.index], None);
    assert_eq!(moves[lost.index], None);
    assert_eq!(moves[bullet.index], None);
}
