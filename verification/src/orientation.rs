//! Standing upright: a player that a planet pulls is turned by the angle
//! between the way to the planet's centre and the reference direction. Its
//! position is never touched.

use vstd::prelude::*;
use crate::vector::{Point, Vector, offset};
use crate::world::{
    Body, Components, Kind, Slots, World, get_planet_center, no_turn, planet_center, source_at,
};

verus! {

/// The direction from which the turn of a body is measured.
pub open spec fn reference() -> Vector {
    Vector { x: 0, y: 1 }
}

/// The rotation of a body at `position` that the planet at `center` pulls.
///
/// The body is turned by the angle between `center - position` and
/// [`reference`], which lies between zero and a half turn. The sign of the
/// angle is flipped where the x coordinate of the reference lies below that
/// of the position: there the angle counts as negative, and elsewhere as
/// positive. The sign goes by the position in the world, not by the side of
/// the planet on which the body is. The cosine of the angle between
/// two directions is proportional to their scalar product, and its sine to
/// the absolute value of their cross product: against `(0, 1)` these are the
/// y component of `center - position` and the absolute value of its x
/// component. A body at the centre itself is not turned.
pub open spec fn upright(position: Point, center: Point) -> Vector {
    let d = offset(position, center);
    let sine: int = if d.x < 0 {
        -d.x
    } else {
        d.x as int
    };
    if d.x == 0 && d.y == 0 {
        no_turn()
    } else if reference().x < position.x {
        Vector { x: d.y, y: (-sine) as i64 }
    } else {
        Vector { x: d.y, y: sine as i64 }
    }
}

/// `v` turned by the rotation `r` and stretched by the length of `r`: the
/// product of the two as complex numbers.
pub open spec fn turned_by(v: Vector, r: Vector) -> (int, int) {
    (v.x * r.x - v.y * r.y, v.x * r.y + v.y * r.x)
}

/// The entity in slot `i` after the players were set upright: a player with
/// a body that can be pulled, and whose atmosphere is in the world, is turned
/// as [`upright`] says; all else stays.
pub open spec fn turned(w: Slots, i: int) -> Option<Components> {
    match w[i] {
        Some(Components { kind: Kind::Player(p), attractable: Some(a), body: Some(b) }) => {
            match planet_center(w, a) {
                Some(center) => Some(
                    Components {
                        kind: Kind::Player(p),
                        attractable: Some(a),
                        body: Some(
                            Body { position: b.position, rotation: upright(b.position, center) },
                        ),
                    },
                ),
                None => w[i],
            }
        },
        _ => w[i],
    }
}

/// The world after the players were set upright.
pub open spec fn all_turned(w: Slots) -> Slots {
    Seq::new(w.len(), |i: int| turned(w, i))
}

/// Where the entity in slot `i` stands, if it is there and has a body.
pub open spec fn position_in(w: Slots, i: int) -> Option<Point> {
    match w[i] {
        Some(Components { body: Some(b), .. }) => Some(b.position),
        _ => None,
    }
}

/// The rotation of a body at `position` that the planet at `center` pulls.
pub fn upright_rotation(position: Point, center: Point) -> (rotation: Vector)
    ensures
        rotation == upright(position, center),
{
    let d = position.to(center);
    let sine: i64 = if d.x < 0 {
        -d.x
    } else {
        d.x
    };
    if d.x == 0 && d.y == 0 {
        Vector { x: 1, y: 0 }
    } else if 0 < position.x {
        Vector { x: d.y, y: -sine }
    } else {
        Vector { x: d.y, y: sine }
    }
}

/// Sets every player upright on the planet that pulls it. A player stays a
/// player, grounded or not as before, pulled by what pulled it, and stands
/// where it stood: only its rotation changes. Nothing else in the world
/// changes.
pub fn graviturn(world: &mut World)
    ensures
        final(world)@.len() == old(world)@.len(),
        final(world)@ == all_turned(old(world)@),
        forall|i: int|
            0 <= i < old(world)@.len() ==> position_in(final(world)@, i) == position_in(
                old(world)@,
                i,
            ),
{
    let ghost start = world@;
    let mut i: usize = 0;
    while i < world.slots.len()
        invariant
            i <= world@.len(),
            world@.len() == start.len(),
            forall|j: int| 0 <= j < i ==> world@[j] == turned(start, j),
            forall|j: int| i <= j < start.len() ==> world@[j] == start[j],
            forall|e: crate::world::Entity| source_at(world@, e) == source_at(start, e),
        decreases world@.len() - i,
    {
        match world.slots[i] {
            Some(Components { kind: Kind::Player(p), attractable: Some(a), body: Some(b) }) => {
                match get_planet_center(world, &a) {
                    Some(center) => {
                        let rotation = upright_rotation(b.position, center);
                        let ghost before = world@;
                        world.slots.set(
                            i,
                            Some(
                                Components {
                                    kind: Kind::Player(p),
                                    attractable: Some(a),
                                    body: Some(Body { position: b.position, rotation }),
                                },
                            ),
                        );
                        assert forall|e: crate::world::Entity|
                            source_at(world@, e) == source_at(before, e) by {}
                    },
                    None => {},
                }
            },
            _ => {},
        }
        i += 1;
    }
    assert(world@ =~= all_turned(start));
}

/// Setting the players upright moves nobody: every body stands where it
/// stood, every entity is what it was, and what pulls it is what pulled it.
pub proof fn law_turning_keeps_positions(w: Slots, i: int)
    requires
        0 <= i < w.len(),
    ensures
        all_turned(w).len() == w.len(),
        position_in(all_turned(w), i) == position_in(w, i),
        all_turned(w)[i] is Some <==> w[i] is Some,
        w[i] is Some ==> all_turned(w)[i]->0.kind == w[i]->0.kind,
        w[i] is Some ==> all_turned(w)[i]->0.attractable == w[i]->0.attractable,
        w[i] is Some ==> (all_turned(w)[i]->0.body is Some <==> w[i]->0.body is Some),
{
}

/// About a planet whose centre has the x coordinate of the reference,
/// standing upright turns the reference direction into the mirror image of
/// the direction from the body to the centre, mirrored in the axis of the
/// reference: its x component leads from the centre to the body, its y
/// component from the body to the centre. So the body's vertical axis lies on
/// the line through the centre where the body is straight above or below the
/// centre or level with it, and not elsewhere. About a planet to the side of
/// the reference even that need not hold, since the sign of the angle goes by
/// the position alone.
pub proof fn law_upright_on_the_reference_axis(position: Point, center: Point)
    requires
        center.x == reference().x,
        position != center,
    ensures
        turned_by(reference(), upright(position, center)) == (
            position.x - center.x,
            center.y - position.y,
        ),
{
    let r = upright(position, center);
    let v = reference();
    assert(v.x * r.x - v.y * r.y == -r.y && v.x * r.y + v.y * r.x == r.x) by (nonlinear_arith)
        requires
            v.x == 0,
            v.y == 1,
    ;
}

} // verus!
