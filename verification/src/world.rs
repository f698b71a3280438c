//! The world that the rules work on: entities, what each one is, and where
//! its body stands.

use vstd::prelude::*;
use crate::vector::{Point, Vector};

verus! {

/// The name of an entity: the place of its slot in the world. A name is
/// never given twice, so the name of a removed entity stays empty.
#[derive(Clone, Copy, Debug, PartialEq, Eq, Structural)]
pub struct Entity {
    pub index: usize,
}

/// A round planet that bodies stand on.
#[derive(Clone, Copy, Debug, PartialEq, Eq)]
pub struct Planet {
    pub radius: u32,
}

/// The sensor round a planet: bodies inside it are pulled to its centre. Its
/// radius is twice that of its planet.
#[derive(Clone, Copy, Debug, PartialEq, Eq)]
pub struct Atmosphere {
    pub planet_radius: u32,
}

/// The player's character.
#[derive(Clone, Copy, Debug, PartialEq, Eq, Default)]
pub struct Player {
    pub is_grounded: bool,
}

/// A projectile. It lives until its first contact.
#[derive(Clone, Copy, Debug, PartialEq, Eq, Default)]
pub struct Bullet {
    pub is_exploding: bool,
}

/// Marks a body that planets can pull, and names the atmosphere that pulls
/// it now, if any.
#[derive(Clone, Copy, Debug, PartialEq, Eq)]
pub struct Attractable(pub Option<Entity>);

/// What an entity is.
#[derive(Clone, Copy, Debug, PartialEq, Eq)]
pub enum Kind {
    Planet(Planet),
    Atmosphere(Atmosphere),
    Player(Player),
    Bullet(Bullet),
    Plain,
}

/// Where a body stands and how it is turned. The rotation is given by a
/// direction: the body is turned by the angle from the positive x axis to
/// `rotation`, so `(1, 0)` is no turn at all. Only the direction counts.
#[derive(Clone, Copy, Debug, PartialEq, Eq)]
pub struct Body {
    pub position: Point,
    pub rotation: Vector,
}

/// All that the rules know of one entity.
#[derive(Clone, Copy, Debug, PartialEq, Eq)]
pub struct Components {
    pub kind: Kind,
    pub attractable: Option<Attractable>,
    pub body: Option<Body>,
}

/// The centre and the sensor of an atmosphere that pulls.
#[derive(Clone, Copy, Debug, PartialEq, Eq)]
pub struct Source {
    pub center: Point,
    pub atmosphere: Atmosphere,
}

/// The slots of a world, one for each name given so far; an empty slot
/// belonged to an entity that was removed.
pub type Slots = Seq<Option<Components>>;

/// The entities and their components.
#[derive(Debug, PartialEq, Eq)]
pub struct World {
    pub slots: Vec<Option<Components>>,
}

impl View for World {
    type V = Seq<Option<Components>>;

    open spec fn view(&self) -> Seq<Option<Components>> {
        self.slots@
    }
}

/// The rotation of a body that was never turned.
pub open spec fn no_turn() -> Vector {
    Vector { x: 1, y: 0 }
}

/// The components of `e`, if it is in the world.
pub open spec fn components(w: Slots, e: Entity) -> Option<Components> {
    if e.index < w.len() {
        w[e.index as int]
    } else {
        None
    }
}

/// Whether `e` is in the world.
pub open spec fn alive(w: Slots, e: Entity) -> bool {
    components(w, e) is Some
}

/// Whether `e` is a planet.
pub open spec fn is_planet(w: Slots, e: Entity) -> bool {
    components(w, e) matches Some(c) && c.kind is Planet
}

/// Whether `e` is a bullet.
pub open spec fn is_bullet(w: Slots, e: Entity) -> bool {
    components(w, e) matches Some(c) && c.kind is Bullet
}

/// Whether `e` is a player.
pub open spec fn is_player(w: Slots, e: Entity) -> bool {
    components(w, e) matches Some(c) && c.kind is Player
}

/// The centre and sensor of `e`, if `e` is an atmosphere with a body.
pub open spec fn source_at(w: Slots, e: Entity) -> Option<Source> {
    match components(w, e) {
        Some(Components { kind: Kind::Atmosphere(a), body: Some(b), .. }) => Some(
            Source { center: b.position, atmosphere: a },
        ),
        _ => None,
    }
}

/// The centre and sensor of the atmosphere that `attractable` names, if it
/// names one that is in the world.
pub open spec fn source_of(w: Slots, attractable: Attractable) -> Option<Source> {
    match attractable.0 {
        Some(e) => source_at(w, e),
        None => None,
    }
}

/// The centre of the planet that pulls `attractable`: the position of the
/// atmosphere that it names.
pub open spec fn planet_center(w: Slots, attractable: Attractable) -> Option<Point> {
    match source_of(w, attractable) {
        Some(s) => Some(s.center),
        None => None,
    }
}

/// `w` with the components of `e` replaced, if `e` is in it.
pub open spec fn replaced(w: Slots, e: Entity, c: Components) -> Slots {
    if alive(w, e) {
        w.update(e.index as int, Some(c))
    } else {
        w
    }
}

/// `w` without `e`.
pub open spec fn removed(w: Slots, e: Entity) -> Slots {
    if alive(w, e) {
        w.update(e.index as int, None)
    } else {
        w
    }
}

impl World {
    /// A world without entities.
    pub fn new() -> (w: World)
        ensures
            w@ == Seq::<Option<Components>>::empty(),
    {
        World { slots: Vec::new() }
    }

    /// The number of names given so far.
    pub fn len(&self) -> (n: usize)
        ensures
            n == self@.len(),
    {
        self.slots.len()
    }

    /// Adds an entity and gives it the next name.
    pub fn spawn(&mut self, c: Components) -> (e: Entity)
        ensures
            final(self)@ == old(self)@.push(Some(c)),
            e.index == old(self)@.len(),
            components(final(self)@, e) == Some(c),
    {
        let index = self.slots.len();
        self.slots.push(Some(c));
        Entity { index }
    }

    /// The components of `e`, if it is in the world.
    pub fn get(&self, e: Entity) -> (c: Option<Components>)
        ensures
            c == components(self@, e),
    {
        if e.index < self.slots.len() {
            self.slots[e.index]
        } else {
            None
        }
    }

    /// Whether `e` is in the world.
    pub fn contains(&self, e: Entity) -> (b: bool)
        ensures
            b == alive(self@, e),
    {
        self.get(e).is_some()
    }

    /// Replaces the components of `e`. Says whether `e` was in the world;
    /// if not, nothing changes.
    pub fn replace(&mut self, e: Entity, c: Components) -> (was: bool)
        ensures
            was == alive(old(self)@, e),
            final(self)@ == replaced(old(self)@, e, c),
    {
        if self.contains(e) {
            self.slots.set(e.index, Some(c));
            true
        } else {
            false
        }
    }

    /// Removes `e`. Says whether `e` was in the world; if not, nothing
    /// changes.
    pub fn despawn(&mut self, e: Entity) -> (was: bool)
        ensures
            was == alive(old(self)@, e),
            final(self)@ == removed(old(self)@, e),
            !alive(final(self)@, e),
    {
        if self.contains(e) {
            self.slots.set(e.index, None);
            true
        } else {
            false
        }
    }

    /// Moves the body of `e` to `position` and keeps its rotation. Says
    /// whether `e` is in the world and has a body; if not, nothing changes.
    pub fn set_position(&mut self, e: Entity, position: Point) -> (moved: bool)
        ensures
            moved == (components(old(self)@, e) matches Some(c) && c.body is Some),
            final(self)@ == (match components(old(self)@, e) {
                Some(Components { kind, attractable, body: Some(b) }) => replaced(
                    old(self)@,
                    e,
                    Components {
                        kind,
                        attractable,
                        body: Some(Body { position, rotation: b.rotation }),
                    },
                ),
                _ => old(self)@,
            }),
    {
        match self.get(e) {
            Some(Components { kind, attractable, body: Some(b) }) => {
                self.slots.set(
                    e.index,
                    Some(
                        Components {
                            kind,
                            attractable,
                            body: Some(Body { position, rotation: b.rotation }),
                        },
                    ),
                );
                true
            },
            _ => false,
        }
    }

    /// Gives `e` a body that stands at `position` and is not turned,
    /// in place of the one it has, if any. Says whether `e` is in the world;
    /// if not, nothing changes.
    pub fn attach_body(&mut self, e: Entity, position: Point) -> (was: bool)
        ensures
            was == alive(old(self)@, e),
            final(self)@ == (match components(old(self)@, e) {
                Some(c) => replaced(
                    old(self)@,
                    e,
                    Components {
                        kind: c.kind,
                        attractable: c.attractable,
                        body: Some(Body { position, rotation: no_turn() }),
                    },
                ),
                None => old(self)@,
            }),
    {
        match self.get(e) {
            Some(c) => {
                self.slots.set(
                    e.index,
                    Some(
                        Components {
                            kind: c.kind,
                            attractable: c.attractable,
                            body: Some(Body { position, rotation: Vector { x: 1, y: 0 } }),
                        },
                    ),
                );
                true
            },
            None => false,
        }
    }
}

/// The centre and sensor of the atmosphere that `attractable` names, if it
/// names one that is in the world and has a body.
pub fn get_source(world: &World, attractable: &Attractable) -> (s: Option<Source>)
    ensures
        s == source_of(world@, *attractable),
{
    match attractable.0 {
        Some(e) => match world.get(e) {
            Some(Components { kind: Kind::Atmosphere(a), body: Some(b), .. }) => Some(
                Source { center: b.position, atmosphere: a },
            ),
            _ => None,
        },
        None => None,
    }
}

/// The centre of the planet that pulls `attractable`: `None` where it names
/// no atmosphere, or one that is not in the world or has no body.
pub fn get_planet_center(world: &World, attractable: &Attractable) -> (center: Option<Point>)
    ensures
        center == planet_center(world@, *attractable),
        center is Some <==> (attractable.0 matches Some(e) && source_at(world@, e) is Some),
{
    match get_source(world, attractable) {
        Some(s) => Some(s.center),
        None => None,
    }
}

} // verus!
