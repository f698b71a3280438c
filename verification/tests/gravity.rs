use planet_gravity::directed::Directed;
use planet_gravity::gravity::{gravitate, gravitation, is_within_reach, GRAVITY};
use planet_gravity::vector::{Point, Vector};
use planet_gravity::world::{
    get_planet_center, get_source, Atmosphere, Attractable, Body, Bullet, Components, Entity,
    Kind, Planet, Player, Source, World,
};

fn source(x: i32, y: i32, planet_radius: u32) -> Source {
    Source { center: Point { x, y }, atmosphere: Atmosphere { planet_radius } }
}

fn body_at(x: i32, y: i32) -> Option<Body> {
    Some(Body { position: Point { x, y }, rotation: Vector { x: 1, y: 0 } })
}

fn atmosphere(x: i32, y: i32, planet_radius: u32) -> Components {
    Components {
        kind: Kind::Atmosphere(Atmosphere { planet_radius }),
        attractable: None,
        body: body_at(x, y),
    }
}

fn player(x: i32, y: i32, pulled_by: Option<Entity>) -> Components {
    Components {
        kind: Kind::Player(Player { is_grounded: false }),
        attractable: Some(Attractable(pulled_by)),
        body: body_at(x, y),
    }
}

#[test]
fn gravity_has_the_strength_two_hundred_thousand() {
    assert_eq!(GRAVITY, 200_000);
}

#[test]
fn atmosphere_is_twice_as_wide_as_its_planet() {
    assert_eq!(Atmosphere { planet_radius: 160 }.radius(), 320);
    assert_eq!(Atmosphere { planet_radius: 0 }.radius(), 0);
    assert_eq!(Atmosphere { planet_radius: u32::MAX }.radius(), 8_589_934_590);
}

#[test]
fn player_above_the_planet_is_pulled_straight_down() {
    // planet at the origin, radius 160; player at (0, 250)
    let force = gravitation(Point { x: 0, y: 250 }, Some(source(0, 0, 160)));
    assert_eq!(force, Some(Directed { along: Vector { x: 0, y: -250 }, magnitude: 200_000 }));
    assert_eq!(force.unwrap().resolve(), Vector { x: 0, y: -200_000 });
}

#[test]
fn gravity_points_at_the_center_from_everywhere() {
    let s = source(750, 500, 160);
    let places = [(750, 600), (900, 500), (600, 300), (1000, 699), (751, 500), (560, 757)];
    for (x, y) in places {
        let force = gravitation(Point { x, y }, Some(s)).unwrap();
        assert_eq!(force.along, Vector { x: 750 - x as i64, y: 500 - y as i64 });
        assert_eq!(force.magnitude, 200_000);
    }
}

#[test]
fn gravity_does_not_weaken_with_distance() {
    let s = source(0, 0, 160);
    let near = gravitation(Point { x: 1, y: 0 }, Some(s)).unwrap();
    let far = gravitation(Point { x: 320, y: 0 }, Some(s)).unwrap();
    assert_eq!(near.magnitude, far.magnitude);
    assert_eq!(near.resolve(), Vector { x: -200_000, y: 0 });
    assert_eq!(far.resolve(), Vector { x: -200_000, y: 0 });
}

#[test]
fn gravity_is_the_same_all_along_a_ray() {
    let s = source(10, -20, 160);
    let near = gravitation(Point { x: 13, y: -16 }, Some(s)).unwrap();
    let far = gravitation(Point { x: 10 + 3 * 60, y: -20 + 4 * 60 }, Some(s)).unwrap();
    assert_eq!(near.along, Vector { x: -3, y: -4 });
    assert_eq!(far.along, Vector { x: -180, y: -240 });
    assert_eq!(near.resolve(), Vector { x: -120_000, y: -160_000 });
    assert_eq!(far.resolve(), near.resolve());
}

#[test]
fn gravity_reaches_the_rim_and_no_farther() {
    let s = source(0, 0, 160);
    // 192 * 192 + 256 * 256 = 320 * 320
    assert!(is_within_reach(Point { x: 192, y: 256 }, &s));
    assert!(gravitation(Point { x: 192, y: 256 }, Some(s)).is_some());
    assert!(gravitation(Point { x: 0, y: -320 }, Some(s)).is_some());
    assert!(!is_within_reach(Point { x: 193, y: 256 }, &s));
    assert_eq!(gravitation(Point { x: 193, y: 256 }, Some(s)), None);
    assert_eq!(gravitation(Point { x: 0, y: -321 }, Some(s)), None);
    assert_eq!(gravitation(Point { x: 321, y: 0 }, Some(s)), None);
}

#[test]
fn nothing_pulls_a_body_without_a_planet() {
    assert_eq!(gravitation(Point { x: 0, y: 250 }, None), None);
    assert_eq!(gravitation(Point { x: 0, y: 0 }, None), None);
}

#[test]
fn gravity_at_the_far_corners_of_the_lattice() {
    let s = source(i32::MAX, i32::MAX, u32::MAX);
    let p = Point { x: i32::MIN, y: i32::MIN };
    // the distance squared is 2 * (2^32 - 1)^2, the reach squared 4 * (2^32 - 1)^2
    let force = gravitation(p, Some(s)).unwrap();
    assert_eq!(force.along, Vector { x: 4_294_967_295, y: 4_294_967_295 });
    let small = source(i32::MAX, i32::MAX, 1);
    assert_eq!(gravitation(p, Some(small)), None);
}

#[test]
fn body_at_the_center_feels_a_force_without_direction() {
    let force = gravitation(Point { x: 7, y: 7 }, Some(source(7, 7, 160))).unwrap();
    assert_eq!(force.along, Vector { x: 0, y: 0 });
    assert_eq!(force.resolve(), Vector { x: 0, y: 0 });
}

#[test]
fn planet_center_is_found_through_the_atmosphere() {
    let mut world = World::new();
    let air = world.spawn(atmosphere(750, 500, 160));
    assert_eq!(get_planet_center(&world, &Attractable(Some(air))), Some(Point { x: 750, y: 500 }));
    assert_eq!(get_source(&world, &Attractable(Some(air))), Some(source(750, 500, 160)));
    assert_eq!(get_planet_center(&world, &Attractable(None)), None);
}

#[test]
fn planet_center_is_unknown_where_the_reference_fails() {
    let mut world = World::new();
    let planet = world.spawn(Components {
        kind: Kind::Planet(Planet { radius: 160 }),
        attractable: None,
        body: body_at(0, 0),
    });
    let bodiless = world.spawn(Components {
        kind: Kind::Atmosphere(Atmosphere { planet_radius: 160 }),
        attractable: None,
        body: None,
    });
    let gone = world.spawn(atmosphere(1, 1, 160));
    world.despawn(gone);
    // a planet is no atmosphere
    assert_eq!(get_planet_center(&world, &Attractable(Some(planet))), None);
    assert_eq!(get_planet_center(&world, &Attractable(Some(bodiless))), None);
    assert_eq!(get_planet_center(&world, &Attractable(Some(gone))), None);
    assert_eq!(get_planet_center(&world, &Attractable(Some(Entity { index: 99 }))), None);
}

#[test]
fn gravitate_gives_each_pulled_body_its_force() {
    let mut world = World::new();
    let air = world.spawn(atmosphere(0, 0, 160));
    let far_air = world.spawn(atmosphere(750, 500, 160));
    let inside = world.spawn(player(0, 250, Some(air)));
    let outside = world.spawn(player(0, 400, Some(air)));
    let free = world.spawn(player(0, 100, None));
    let bullet = world.spawn(Components {
        kind: Kind::Bullet(Bullet { is_exploding: false }),
        attractable: Some(Attractable(Some(far_air))),
        body: body_at(750, 400),
    });
    let no_body = world.spawn(Components {
        kind: Kind::Bullet(Bullet { is_exploding: false }),
        attractable: Some(Attractable(Some(air))),
        body: None,
    });
    let forces = gravitate(&world);
    assert_eq!(forces.len(), 7);
    assert_eq!(forces[air.index], None);
    assert_eq!(forces[far_air.index], None);
    assert_eq!(
        forces[inside.index],
        Some(Directed { along: Vector { x: 0, y: -250 }, magnitude: 200_000 })
    );
    assert_eq!(forces[outside.index], None);
    assert_eq!(forces[free.index], None);
    assert_eq!(
        forces[bullet.index],
        Some(Directed { along: Vector { x: 0, y: 100 }, magnitude: 200_000 })
    );
    assert_eq!(forces[no_body.index], None);
}

#[test]
fn gravitate_skips_bodies_whose_atmosphere_is_gone() {
    let mut world = World::new();
    let air = world.spawn(atmosphere(0, 0, 160));
    let p = world.spawn(player(0, 250, Some(air)));
    world.despawn(air);
    let forces = gravitate(&world);
    assert_eq!(forces.len(), 2);
    assert_eq!(forces[air.index], None);
    assert_eq!(forces[p.index], None);
    assert_eq!(gravitate(&World::new()).len(), 0);
}
