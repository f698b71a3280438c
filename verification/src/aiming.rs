//! Aiming and shooting: the pointer on the screen gives a target in the
//! world, and the trigger sends a bullet from each player toward it.

use vstd::prelude::*;
use crate::directed::Directed;
use crate::vector::{Point, offset, on_lattice};
use crate::world::{Attractable, Bullet, Components, Entity, Kind, Slots, World};

verus! {

/// How far from the player a bullet starts.
pub const BULLET_OFFSET: u32 = 30;

/// The speed of a bullet, in world units per second.
pub const BULLET_SPEED: u32 = 700;

/// The target of the player's aim, in the world.
#[derive(Clone, Copy, Debug, PartialEq, Eq)]
pub struct Cursor {
    pub world_position: Point,
}

/// The size of the window, in pixels.
#[derive(Clone, Copy, Debug, PartialEq, Eq)]
pub struct Window {
    pub width: u32,
    pub height: u32,
}

/// Where the camera stands in the world, and how many world units a pixel
/// spans.
#[derive(Clone, Copy, Debug, PartialEq, Eq)]
pub struct Camera {
    pub translation: Point,
    pub scale: i32,
}

/// A bullet was fired: `bullet` is its entity and `shooter` the player who
/// fired it. It starts at the distance `offset` from `from`, the place of the
/// shooter, and flies with `velocity`.
#[derive(Clone, Copy, Debug, PartialEq, Eq)]
pub struct Shot {
    pub bullet: Entity,
    pub shooter: Entity,
    pub from: Point,
    pub offset: Directed,
    pub velocity: Directed,
}

impl Cursor {
    /// A cursor at the origin of the world.
    pub fn new() -> (c: Cursor)
        ensures
            c.world_position == (Point { x: 0, y: 0 }),
    {
        Cursor { world_position: Point { x: 0, y: 0 } }
    }
}

/// The x coordinate of the place in the world that the pointer shows: the
/// camera's, plus the pointer's distance from the centre of the window times
/// the camera's scale. The centre of a window of odd size is taken half a
/// pixel low.
pub open spec fn aimed_x(pointer: Point, window: Window, camera: Camera) -> int {
    camera.translation.x + (pointer.x - window.width / 2) * camera.scale
}

/// The y coordinate of the place in the world that the pointer shows.
pub open spec fn aimed_y(pointer: Point, window: Window, camera: Camera) -> int {
    camera.translation.y + (pointer.y - window.height / 2) * camera.scale
}

/// The place in the world that the pointer shows, if it is on the lattice.
pub open spec fn aimed(pointer: Point, window: Window, camera: Camera) -> Option<Point> {
    let x = aimed_x(pointer, window, camera);
    let y = aimed_y(pointer, window, camera);
    if i32::MIN <= x <= i32::MAX && i32::MIN <= y <= i32::MAX {
        Some(Point { x: x as i32, y: y as i32 })
    } else {
        None
    }
}

/// The cursor after a tick: it follows the pointer where the pointer has
/// moved, there is a window and a camera, and the place that the pointer
/// shows is on the lattice; else it stays.
pub open spec fn cursor_after(
    cursor: Cursor,
    pointer: Option<Point>,
    window: Option<Window>,
    camera: Option<Camera>,
) -> Cursor {
    if pointer is Some && window is Some && camera is Some {
        match aimed(pointer->0, window->0, camera->0) {
            Some(p) => Cursor { world_position: p },
            None => cursor,
        }
    } else {
        cursor
    }
}

/// The shot of `shooter`, who stands at `from`, at `target`: the bullet
/// starts [`BULLET_OFFSET`] from the shooter toward the target and flies
/// toward it at [`BULLET_SPEED`].
pub open spec fn shot_at(bullet: Entity, shooter: Entity, from: Point, target: Point) -> Shot {
    Shot {
        bullet,
        shooter,
        from,
        offset: Directed { along: offset(from, target), magnitude: BULLET_OFFSET },
        velocity: Directed { along: offset(from, target), magnitude: BULLET_SPEED },
    }
}

/// What a bullet is when it is fired: not exploding, pulled by nothing yet,
/// and without a body until the physics engine has made one.
pub open spec fn new_bullet() -> Components {
    Components {
        kind: Kind::Bullet(Bullet { is_exploding: false }),
        attractable: Some(Attractable(None)),
        body: None,
    }
}

/// The shots of the players among the first `n` slots of `w`, in the order
/// of the slots. Each player with a body fires one bullet; the bullets take
/// the names after the last one of `w`.
pub open spec fn shots(w: Slots, target: Point, n: int) -> Seq<Shot>
    decreases n,
{
    if n <= 0 {
        Seq::<Shot>::empty()
    } else {
        let before = shots(w, target, n - 1);
        match w[n - 1] {
            Some(Components { kind: Kind::Player(_), body: Some(b), .. }) => before.push(
                shot_at(
                    Entity { index: (w.len() + before.len()) as usize },
                    Entity { index: (n - 1) as usize },
                    b.position,
                    target,
                ),
            ),
            _ => before,
        }
    }
}

/// `w` with `count` new bullets after its last slot.
pub open spec fn with_bullets(w: Slots, count: nat) -> Slots {
    w + Seq::new(count, |k: int| Some(new_bullet()))
}

/// The place in the world that the pointer shows, or `None` where that is
/// off the lattice.
pub fn aim_point(pointer: Point, window: Window, camera: Camera) -> (p: Option<Point>)
    ensures
        p == aimed(pointer, window, camera),
{
    let dx: i128 = pointer.x as i128 - (window.width / 2) as i128;
    let dy: i128 = pointer.y as i128 - (window.height / 2) as i128;
    let s: i128 = camera.scale as i128;
    proof {
        crate::vector::lemma_product_bound(dx as int, s as int, 0x1_0000_0000);
        crate::vector::lemma_product_bound(dy as int, s as int, 0x1_0000_0000);
    }
    let x: i128 = camera.translation.x as i128 + dx * s;
    let y: i128 = camera.translation.y as i128 + dy * s;
    if -0x8000_0000 <= x && x <= 0x7fff_ffff && -0x8000_0000 <= y && y <= 0x7fff_ffff {
        Some(Point { x: x as i32, y: y as i32 })
    } else {
        None
    }
}

/// Lets the cursor follow the pointer: `pointer` is where the pointer last
/// moved to in this tick, if it moved, `window` the primary window and
/// `camera` the active camera, if there are any.
pub fn aim(
    cursor: &mut Cursor,
    pointer: Option<Point>,
    window: Option<Window>,
    camera: Option<Camera>,
)
    ensures
        *final(cursor) == cursor_after(*old(cursor), pointer, window, camera),
        pointer is None || window is None || camera is None ==> *final(cursor) == *old(cursor),
{
    match (pointer, window, camera) {
        (Some(p), Some(w), Some(c)) => {
            match aim_point(p, w, c) {
                Some(target) => {
                    cursor.world_position = target;
                },
                None => {},
            }
        },
        _ => {},
    }
}

/// Where a bullet starts that is fired from `from` at `target`:
/// [`BULLET_OFFSET`] from `from` toward `target`, in whole units, each
/// coordinate rounded toward `from`; `None` where that is off the lattice.
pub fn spawn_point(from: Point, target: Point) -> (p: Option<Point>)
    ensures
        p is Some ==> (Directed {
            along: offset(from, target),
            magnitude: BULLET_OFFSET,
        }).resolves_to(offset(from, p->0)),
        p is None ==> forall|v: crate::vector::Vector|
            (Directed { along: offset(from, target), magnitude: BULLET_OFFSET }).resolves_to(v)
                ==> !on_lattice(from, v),
        target == from ==> p == Some(from),
        target.y == from.y && target.x > from.x && from.x + BULLET_OFFSET <= i32::MAX ==> p
            == Some(Point { x: (from.x + BULLET_OFFSET) as i32, y: from.y }),
        target.y == from.y && target.x < from.x && from.x - BULLET_OFFSET >= i32::MIN ==> p
            == Some(Point { x: (from.x - BULLET_OFFSET) as i32, y: from.y }),
        target.x == from.x && target.y > from.y && from.y + BULLET_OFFSET <= i32::MAX ==> p
            == Some(Point { x: from.x, y: (from.y + BULLET_OFFSET) as i32 }),
        target.x == from.x && target.y < from.y && from.y - BULLET_OFFSET >= i32::MIN ==> p
            == Some(Point { x: from.x, y: (from.y - BULLET_OFFSET) as i32 }),
{
    let d = Directed { along: from.to(target), magnitude: BULLET_OFFSET };
    let step = d.resolve();
    proof {
        assert forall|v: crate::vector::Vector| d.resolves_to(v) implies v == step by {
            crate::directed::law_resolution_is_unique(d, v, step);
        }
    }
    let p = from.moved_by(step);
    proof {
        if p is Some {
            assert(offset(from, p->0) == step);
        }
    }
    p
}

/// Fires a bullet from every player that has a body, if the trigger was
/// pressed in this tick, toward the cursor. The bullets join the world after
/// its last slot, in the order of their shooters; nothing else changes.
/// Without the trigger nothing happens.
pub fn shoot(world: &mut World, cursor: &Cursor, just_pressed: bool) -> (fired: Vec<Shot>)
    ensures
        !just_pressed ==> fired@.len() == 0 && final(world)@ == old(world)@,
        just_pressed ==> fired@ == shots(
            old(world)@,
            cursor.world_position,
            old(world)@.len() as int,
        ),
        final(world)@ == with_bullets(old(world)@, fired@.len()),
        forall|k: int|
            0 <= k < fired@.len() ==> (#[trigger] fired@[k]).offset.resolvable()
                && fired@[k].velocity.resolvable(),
{
    let ghost start = world@;
    let mut fired: Vec<Shot> = Vec::new();
    if !just_pressed {
        assert(world@ =~= with_bullets(start, 0));
        return fired;
    }
    let n = world.slots.len();
    let mut i: usize = 0;
    assert(world@ =~= with_bullets(start, 0));
    while i < n
        invariant
            i <= n,
            n == start.len(),
            fired@ == shots(start, cursor.world_position, i as int),
            world@ == with_bullets(start, fired@.len()),
            forall|k: int|
                0 <= k < fired@.len() ==> (#[trigger] fired@[k]).offset.resolvable()
                    && fired@[k].velocity.resolvable(),
        decreases n - i,
    {
        match world.slots[i] {
            Some(Components { kind: Kind::Player(_), body: Some(b), .. }) => {
                let ghost before = world@;
                let bullet = world.spawn(
                    Components {
                        kind: Kind::Bullet(Bullet { is_exploding: false }),
                        attractable: Some(Attractable(None)),
                        body: None,
                    },
                );
                let along = b.position.to(cursor.world_position);
                fired.push(
                    Shot {
                        bullet,
                        shooter: Entity { index: i },
                        from: b.position,
                        offset: Directed { along, magnitude: BULLET_OFFSET },
                        velocity: Directed { along, magnitude: BULLET_SPEED },
                    },
                );
                assert(world@ =~= with_bullets(start, fired@.len()));
            },
            _ => {},
        }
        i += 1;
    }
    fired
}

} // verus!
