//! The world at the start: two planets with their atmospheres, and the
//! player above the first.

use vstd::prelude::*;
use crate::vector::{Point, Vector};
use crate::world::{
    Atmosphere, Attractable, Body, Components, Entity, Kind, Planet, Player, Slots, World, no_turn,
};

verus! {

/// The radius of the planets of the game.
pub const PLANET_RADIUS: u32 = 160;

/// Half the width of the player.
pub const PLAYER_HALF_WIDTH: u32 = 8;

/// Half the width and height of a bullet.
pub const BULLET_HALF_EXTENT: u32 = 5;

/// Where the player starts.
pub open spec fn player_start() -> Point {
    Point { x: 0, y: 250 }
}

/// Where the first planet lies.
pub open spec fn first_site() -> Point {
    Point { x: 0, y: 0 }
}

/// Where the second planet lies.
pub open spec fn second_site() -> Point {
    Point { x: 750, y: 500 }
}

/// The player at the start: in the air, pulled by nothing, not turned.
pub open spec fn new_player() -> Components {
    Components {
        kind: Kind::Player(Player { is_grounded: false }),
        attractable: Some(Attractable(None)),
        body: Some(Body { position: player_start(), rotation: no_turn() }),
    }
}

/// The atmosphere of a planet of radius `radius` at `center`.
pub open spec fn atmosphere_at(center: Point, radius: u32) -> Components {
    Components {
        kind: Kind::Atmosphere(Atmosphere { planet_radius: radius }),
        attractable: None,
        body: Some(Body { position: center, rotation: no_turn() }),
    }
}

/// A planet of radius `radius` at `center`.
pub open spec fn planet_at(center: Point, radius: u32) -> Components {
    Components {
        kind: Kind::Planet(Planet { radius }),
        attractable: None,
        body: Some(Body { position: center, rotation: no_turn() }),
    }
}

/// `w` with a planet of radius `radius` at `center`: first its atmosphere,
/// then the planet.
pub open spec fn with_planet(w: Slots, center: Point, radius: u32) -> Slots {
    w.push(Some(atmosphere_at(center, radius))).push(Some(planet_at(center, radius)))
}

/// Adds the player to the world and returns its name.
pub fn setup(world: &mut World) -> (player: Entity)
    ensures
        final(world)@ == old(world)@.push(Some(new_player())),
        player.index == old(world)@.len(),
{
    world.spawn(
        Components {
            kind: Kind::Player(Player { is_grounded: false }),
            attractable: Some(Attractable(None)),
            body: Some(
                Body { position: Point { x: 0, y: 250 }, rotation: Vector { x: 1, y: 0 } },
            ),
        },
    )
}

/// Adds a planet of radius `radius` at `center`, with the atmosphere round
/// it, whose radius is twice the planet's. Returns the names of the
/// atmosphere and of the planet.
pub fn spawn_planet(world: &mut World, center: Point, radius: u32) -> (names: (Entity, Entity))
    ensures
        final(world)@ == with_planet(old(world)@, center, radius),
        names.0.index == old(world)@.len(),
        names.1.index == old(world)@.len() + 1,
{
    let atmosphere = world.spawn(
        Components {
            kind: Kind::Atmosphere(Atmosphere { planet_radius: radius }),
            attractable: None,
            body: Some(Body { position: center, rotation: Vector { x: 1, y: 0 } }),
        },
    );
    let planet = world.spawn(
        Components {
            kind: Kind::Planet(Planet { radius }),
            attractable: None,
            body: Some(Body { position: center, rotation: Vector { x: 1, y: 0 } }),
        },
    );
    (atmosphere, planet)
}

/// Adds the two planets of the game, each of radius [`PLANET_RADIUS`].
pub fn spawn_planets(world: &mut World)
    ensures
        final(world)@ == with_planet(
            with_planet(old(world)@, first_site(), PLANET_RADIUS),
            second_site(),
            PLANET_RADIUS,
        ),
{
    spawn_planet(world, Point { x: 0, y: 0 }, PLANET_RADIUS);
    spawn_planet(world, Point { x: 750, y: 500 }, PLANET_RADIUS);
}

} // verus!
