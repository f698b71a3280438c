//! Gravitation: every body that can be pulled, and that is inside the
//! atmosphere that pulls it, feels a force of one fixed strength toward the
//! centre of the planet.

use vstd::prelude::*;
use crate::directed::{Directed, abs_of};
use crate::vector::{Point, Vector, offset};
use crate::world::{Atmosphere, Components, Slots, Source, World, get_source, source_of};

verus! {

/// A body that is pulled: where it stands, and the centre and the sensor of
/// the atmosphere that pulls it.
#[derive(Clone, Copy, Debug, PartialEq, Eq)]
pub struct Pulled {
    pub position: Point,
    pub source: Source,
}

/// The strength of the pull of a planet. It does not depend on the distance.
pub const GRAVITY: u32 = 200_000;

impl Atmosphere {
    /// The radius of the atmosphere: twice that of its planet.
    pub open spec fn reach(self) -> int {
        2 * self.planet_radius
    }

    /// The radius of the atmosphere: twice that of its planet.
    pub fn radius(&self) -> (r: u64)
        ensures
            r == self.reach(),
    {
        2 * (self.planet_radius as u64)
    }
}

/// Whether `position` is inside the atmosphere of `source`, or on its rim:
/// the square of its distance from the centre does not exceed the square of
/// the radius.
pub open spec fn within_reach(position: Point, source: Source) -> bool {
    let dx = source.center.x - position.x;
    let dy = source.center.y - position.y;
    dx * dx + dy * dy <= source.atmosphere.reach() * source.atmosphere.reach()
}

/// The force on a body at `position` that `source` pulls: none where nothing
/// pulls or the body is outside the atmosphere, else the force of strength
/// [`GRAVITY`] toward the centre.
pub open spec fn gravity(position: Point, source: Option<Source>) -> Option<Directed> {
    match source {
        Some(s) => if within_reach(position, s) {
            Some(Directed { along: offset(position, s.center), magnitude: GRAVITY })
        } else {
            None
        },
        None => None,
    }
}

/// The force of gravitation on the entity in slot `i`: that on its body, if
/// it has one and can be pulled.
pub open spec fn gravity_on(w: Slots, i: int) -> Option<Directed> {
    match w[i] {
        Some(Components { attractable: Some(a), body: Some(b), .. }) => gravity(
            b.position,
            source_of(w, a),
        ),
        _ => None,
    }
}

/// The distance from `a` to `b` along the axes: the sum of the distances in x
/// and in y. The straight distance is never longer, and on an axis through
/// `b` it is the same.
pub open spec fn axis_distance(a: Point, b: Point) -> int {
    abs_of(b.x - a.x) + abs_of(b.y - a.y)
}

/// Whether `a` is farther from `b` than `reach` in x alone or in y alone.
pub open spec fn beyond(a: Point, b: Point, reach: int) -> bool {
    abs_of(b.x - a.x) > reach || abs_of(b.y - a.y) > reach
}

/// A place is within reach where its distance along the axes is, and out of
/// reach where it is too far in one coordinate alone.
pub proof fn lemma_reach_along_the_axes(position: Point, source: Source)
    ensures
        axis_distance(position, source.center) <= source.atmosphere.reach() ==> within_reach(
            position,
            source,
        ),
        beyond(position, source.center, source.atmosphere.reach()) ==> !within_reach(
            position,
            source,
        ),
{
    let dx = source.center.x - position.x;
    let dy = source.center.y - position.y;
    let r = 2 * source.atmosphere.planet_radius;
    let ax = abs_of(dx);
    let ay = abs_of(dy);
    assert(ax * ax == dx * dx && ay * ay == dy * dy) by (nonlinear_arith)
        requires
            ax == dx || ax == -dx,
            ay == dy || ay == -dy,
    ;
    assert(ax + ay <= r ==> ax * ax + ay * ay <= r * r) by (nonlinear_arith)
        requires
            0 <= ax,
            0 <= ay,
    ;
    assert((ax > r ==> ax * ax > r * r) && (ay > r ==> ay * ay > r * r) && ax * ax >= 0 && ay
        * ay >= 0) by (nonlinear_arith)
        requires
            0 <= r,
            0 <= ax,
            0 <= ay,
    ;
}

/// Whether `position` is inside the atmosphere of `source`, or on its rim.
pub fn is_within_reach(position: Point, source: &Source) -> (inside: bool)
    ensures
        inside == within_reach(position, *source),
        axis_distance(position, source.center) <= source.atmosphere.reach() ==> inside,
        beyond(position, source.center, source.atmosphere.reach()) ==> !inside,
{
    proof {
        lemma_reach_along_the_axes(position, *source);
    }
    let d = position.to(source.center);
    let n: u128 = d.length_squared();
    let r: u128 = source.atmosphere.radius() as u128;
    assert(r * r <= 0x2_0000_0000 * 0x2_0000_0000) by (nonlinear_arith)
        requires
            0 <= r <= 0x2_0000_0000,
    ;
    n <= r * r
}

/// The force of gravitation on a body at `position` that `source` pulls.
///
/// A body inside the atmosphere, or on its rim, feels a force of strength
/// [`GRAVITY`] that points from the body to the centre, however near or far
/// it is. A body outside, or one that nothing pulls, feels none. For a body
/// at the very centre the force has no direction, and is zero.
pub fn gravitation(position: Point, source: Option<Source>) -> (force: Option<Directed>)
    ensures
        force == gravity(position, source),
        source is Some && within_reach(position, source->0) ==> force == Some(
            Directed { along: offset(position, source->0.center), magnitude: GRAVITY },
        ),
        source is None ==> force is None,
        source is Some && !within_reach(position, source->0) ==> force is None,
        source is Some && axis_distance(position, source->0.center)
            <= source->0.atmosphere.reach() ==> force == Some(
            Directed { along: offset(position, source->0.center), magnitude: GRAVITY },
        ),
        source is Some && beyond(position, source->0.center, source->0.atmosphere.reach())
            ==> force is None,
        force is Some ==> force->0.resolvable(),
{
    match source {
        Some(s) => {
            proof {
                lemma_reach_along_the_axes(position, s);
            }
            if is_within_reach(position, &s) {
                Some(Directed { along: position.to(s.center), magnitude: GRAVITY })
            } else {
                None
            }
        },
        None => None,
    }
}

/// Where the entity in slot `i` stands and what pulls it, if it has a body,
/// can be pulled and names an atmosphere of the world.
pub open spec fn pulled(w: Slots, i: int) -> Option<Pulled> {
    match w[i] {
        Some(Components { attractable: Some(a), body: Some(b), .. }) => match source_of(w, a) {
            Some(source) => Some(Pulled { position: b.position, source }),
            None => None,
        },
        _ => None,
    }
}

/// The entity in slot `i` is pulled, and its distance from the centre along
/// the axes is within the radius of the atmosphere.
pub open spec fn near_along_the_axes(w: Slots, i: int) -> bool {
    pulled(w, i) is Some && axis_distance(
        pulled(w, i)->0.position,
        pulled(w, i)->0.source.center,
    ) <= pulled(w, i)->0.source.atmosphere.reach()
}

/// The entity in slot `i` is not pulled, or it is farther from the centre
/// than the radius of the atmosphere in x alone or in y alone.
pub open spec fn far_along_an_axis(w: Slots, i: int) -> bool {
    pulled(w, i) is None || beyond(
        pulled(w, i)->0.position,
        pulled(w, i)->0.source.center,
        pulled(w, i)->0.source.atmosphere.reach(),
    )
}

/// The force of strength [`GRAVITY`] on the entity in slot `i` toward the
/// centre of what pulls it.
pub open spec fn full_pull(w: Slots, i: int) -> Directed {
    Directed {
        along: offset(pulled(w, i)->0.position, pulled(w, i)->0.source.center),
        magnitude: GRAVITY,
    }
}

/// The force of gravitation on every entity, by slot: that on its body, if
/// it has one, can be pulled and is inside the atmosphere that pulls it.
pub fn gravitate(world: &World) -> (forces: Vec<Option<Directed>>)
    ensures
        forces@.len() == world@.len(),
        forall|i: int| 0 <= i < world@.len() ==> forces@[i] == gravity_on(world@, i),
        forall|i: int|
            0 <= i < world@.len() && forces@[i] is Some ==> (#[trigger] forces@[i])->0.resolvable(),
        forall|i: int|
            0 <= i < world@.len() && near_along_the_axes(world@, i) ==> #[trigger] forces@[i]
                == Some(full_pull(world@, i)),
        forall|i: int|
            0 <= i < world@.len() && far_along_an_axis(world@, i) ==> (
            #[trigger] forces@[i]) is None,
{
    let mut forces: Vec<Option<Directed>> = Vec::new();
    let mut i: usize = 0;
    while i < world.slots.len()
        invariant
            i <= world@.len(),
            forces@.len() == i,
            forall|j: int| 0 <= j < i ==> forces@[j] == gravity_on(world@, j),
            forall|j: int|
                0 <= j < i && forces@[j] is Some ==> (#[trigger] forces@[j])->0.resolvable(),
            forall|j: int|
                0 <= j < i && near_along_the_axes(world@, j) ==> #[trigger] forces@[j] == Some(
                    full_pull(world@, j),
                ),
            forall|j: int|
                0 <= j < i && far_along_an_axis(world@, j) ==> (#[trigger] forces@[j]) is None,
        decreases world@.len() - i,
    {
        let force = match world.slots[i] {
            Some(Components { attractable: Some(a), body: Some(b), .. }) => gravitation(
                b.position,
                get_source(world, &a),
            ),
            _ => None,
        };
        forces.push(force);
        i += 1;
    }
    forces
}

/// The force on a body inside an atmosphere points from the body exactly to
/// the centre of the planet, and its strength is [`GRAVITY`], the same at
/// every distance.
pub proof fn law_gravity_points_at_center(position: Point, other: Point, source: Source)
    requires
        within_reach(position, source),
        within_reach(other, source),
    ensures
        gravity(position, Some(source)) is Some,
        gravity(position, Some(source))->0.along.x == source.center.x - position.x,
        gravity(position, Some(source))->0.along.y == source.center.y - position.y,
        gravity(position, Some(source))->0.magnitude == GRAVITY,
        gravity(other, Some(source))->0.magnitude == gravity(position, Some(source))->0.magnitude,
{
}

/// The force does not depend on the distance: two bodies inside the
/// atmosphere on one ray from the centre, `a` times the way from the one to
/// the centre being `b` times the way from the other, feel forces that
/// resolve to the same vector.
pub proof fn law_gravity_is_the_same_along_a_ray(
    near: Point,
    far: Point,
    source: Source,
    a: int,
    b: int,
    r: Vector,
)
    requires
        within_reach(near, source),
        within_reach(far, source),
        a > 0,
        b > 0,
        a * (source.center.x - near.x) == b * (source.center.x - far.x),
        a * (source.center.y - near.y) == b * (source.center.y - far.y),
        gravity(near, Some(source))->0.resolves_to(r),
    ensures
        gravity(near, Some(source)) is Some,
        gravity(far, Some(source)) is Some,
        gravity(far, Some(source))->0.resolves_to(r),
{
    crate::directed::law_only_the_direction_counts(
        gravity(near, Some(source))->0,
        gravity(far, Some(source))->0,
        a,
        b,
        r,
    );
}

/// No force acts on a body that is farther from the centre than the radius of
/// the atmosphere, or that nothing pulls.
pub proof fn law_no_gravity_out_of_reach(position: Point, source: Option<Source>)
    requires
        source is Some ==> offset(position, source->0.center).norm2() > source->0.atmosphere.reach()
            * source->0.atmosphere.reach(),
    ensures
        gravity(position, source) is None,
{
}

/// In a world, every body that can be pulled, that names an atmosphere of
/// the world and stands inside it feels the force of strength [`GRAVITY`]
/// toward that atmosphere's centre; every other entity feels none.
pub proof fn law_gravity_in_world(w: Slots, i: int)
    requires
        0 <= i < w.len(),
    ensures
        gravity_on(w, i) is Some <==> (w[i] matches Some(
            Components { attractable: Some(a), body: Some(b), .. },
        ) && source_of(w, a) matches Some(s) && within_reach(b.position, s)),
        gravity_on(w, i) matches Some(f) ==> f.magnitude == GRAVITY && f.along == offset(
            w[i]->0.body->0.position,
            source_of(w, w[i]->0.attractable->0)->0.center,
        ),
{
}

} // verus!
