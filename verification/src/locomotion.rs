//! Locomotion: what the keys do to a player on or above its planet. A
//! grounded player jumps, walks along the surface or idles; an airborne
//! player steers a little or drifts.

use vstd::prelude::*;
use crate::directed::Directed;
use crate::vector::{Point, Vector, offset};
use crate::world::{Components, Kind, Slots, Source, World, get_source, source_of};

verus! {

/// The length of the impulse of a jump.
pub const JUMP_IMPULSE: u32 = 30_000;

/// The length of the push along the surface that steers an airborne player.
pub const STEER_TANGENTIAL: u32 = 2_000;

/// The length of the push away from the planet that steers an airborne
/// player.
pub const STEER_RADIAL: u32 = 1_000;

/// The angular speed of walking, in nanoradians per microsecond: 1.2 radians
/// per second.
pub const WALK_SPEED: u32 = 1_200;

/// Half the height of the player: a walking player's centre is this far
/// above the surface.
pub const PLAYER_HALF_HEIGHT: u32 = 23;

/// The keys that are held down.
#[derive(Clone, Copy, Debug, PartialEq, Eq, Default)]
pub struct Controls {
    pub left: bool,
    pub right: bool,
    pub up: bool,
    pub down: bool,
    pub jump: bool,
}

/// The sense in which a player goes round its planet. The clockwise
/// direction at a body is `(y, -x)` where `(x, y)` leads from the body to the
/// centre; going that way makes the polar angle of the body about the centre
/// grow.
#[derive(Clone, Copy, Debug, PartialEq, Eq)]
pub enum Turn {
    Clockwise,
    Counterclockwise,
}

/// What a player does in one tick.
#[derive(Clone, Copy, Debug, PartialEq, Eq)]
pub enum Locomotion {
    /// Not grounded, no direction key held: gravity alone moves the player.
    Airborne,
    /// Grounded, no direction key held, no jump: nothing happens.
    Idle,
    /// Grounded, a direction key held, no jump. The player is put on the
    /// circle about `center` with radius `radius`, at its polar angle about
    /// `center` plus `sweep` nanoradians, and keeps its rotation.
    Walking { turn: Turn, center: Point, radius: u64, sweep: i64 },
    /// Grounded, jump held: `impulse` is applied to the player.
    Jumping { impulse: Directed },
    /// Not grounded, a direction key held: the sum of the two impulses is
    /// applied to the player.
    Steering { tangential: Directed, radial: Directed },
}

impl Turn {
    /// `1` for clockwise, `-1` for counterclockwise.
    pub open spec fn factor(self) -> int {
        match self {
            Turn::Clockwise => 1,
            Turn::Counterclockwise => -1,
        }
    }
}

impl Locomotion {
    /// Every impulse of the action is small enough to resolve.
    pub open spec fn resolvable(self) -> bool {
        match self {
            Locomotion::Jumping { impulse } => impulse.resolvable(),
            Locomotion::Steering { tangential, radial } => tangential.resolvable()
                && radial.resolvable(),
            _ => true,
        }
    }
}

impl Controls {
    /// The sum of the unit vectors of the direction keys that are held:
    /// left `(-1, 0)`, right `(1, 0)`, up `(0, 1)`, down `(0, -1)`.
    pub open spec fn direction_spec(self) -> Vector {
        Vector {
            x: ((if self.right {
                1int
            } else {
                0int
            }) - (if self.left {
                1int
            } else {
                0int
            })) as i64,
            y: ((if self.up {
                1int
            } else {
                0int
            }) - (if self.down {
                1int
            } else {
                0int
            })) as i64,
        }
    }

    /// Whether the direction keys that are held give a direction: they do
    /// unless they cancel, or none is held.
    pub open spec fn has_direction(self) -> bool {
        self.left != self.right || self.up != self.down
    }

    /// The sum of the unit vectors of the direction keys that are held.
    pub fn direction(&self) -> (d: Vector)
        ensures
            d == self.direction_spec(),
            -1 <= d.x <= 1,
            -1 <= d.y <= 1,
            (d.x != 0 || d.y != 0) == self.has_direction(),
    {
        let mut x: i64 = 0;
        let mut y: i64 = 0;
        if self.left {
            x = x - 1;
        }
        if self.right {
            x = x + 1;
        }
        if self.up {
            y = y + 1;
        }
        if self.down {
            y = y - 1;
        }
        Vector { x, y }
    }
}

/// `v` taken `sign` times, for a `sign` of `-1`, `0` or `1`.
pub open spec fn signed(sign: int, v: int) -> int {
    if sign > 0 {
        v
    } else if sign < 0 {
        -v
    } else {
        0
    }
}

/// The sense in which the key direction `direction` leads round the planet,
/// for a body from which `diff` leads to the centre: clockwise where
/// `direction` makes an angle of less than a quarter turn with the clockwise
/// direction `(diff.y, -diff.x)`, that is where their scalar product is
/// positive; else counterclockwise. The components of a key direction are
/// `-1`, `0` or `1`, so the scalar product is a sum of signed components.
pub open spec fn turn_toward(direction: Vector, diff: Vector) -> Turn {
    if signed(direction.x as int, diff.y as int) + signed(direction.y as int, -diff.x) > 0 {
        Turn::Clockwise
    } else {
        Turn::Counterclockwise
    }
}

/// The clockwise direction where `turn` is clockwise, its reverse where not:
/// the way along the surface in the sense of `turn`, as long as `diff`.
pub open spec fn tangential(diff: Vector, turn: Turn) -> Vector {
    match turn {
        Turn::Clockwise => Vector { x: diff.y, y: (-diff.x) as i64 },
        Turn::Counterclockwise => Vector { x: (-diff.y) as i64, y: diff.x },
    }
}

/// The direction of a jump: away from the centre, and where a direction key
/// is held, as much along the surface against the sense of `bias`. The
/// radial direction `diff` and the tangential direction have the same
/// length, so this is the reverse of their sum.
pub open spec fn launch_direction(diff: Vector, bias: Option<Turn>) -> Vector {
    match bias {
        Some(turn) => Vector {
            x: (-(diff.x + tangential(diff, turn).x)) as i64,
            y: (-(diff.y + tangential(diff, turn).y)) as i64,
        },
        None => diff.reversed_spec(),
    }
}

/// The angle that a walking player sweeps in a tick of `dt_micros`
/// microseconds, in nanoradians: 1200 for each microsecond, which is
/// [`WALK_SPEED`], counted as positive for a clockwise turn.
pub open spec fn swept(turn: Turn, dt_micros: u32) -> int {
    match turn {
        Turn::Clockwise => 1_200 * dt_micros,
        Turn::Counterclockwise => -(1_200 * dt_micros),
    }
}

/// What a player at `position` does in a tick of `dt_micros` microseconds,
/// pulled by `source`, with the keys `controls`.
pub open spec fn locomotion(
    is_grounded: bool,
    position: Point,
    source: Source,
    controls: Controls,
    dt_micros: u32,
) -> Locomotion {
    let diff = offset(position, source.center);
    let turn = turn_toward(controls.direction_spec(), diff);
    if is_grounded && controls.jump {
        Locomotion::Jumping {
            impulse: Directed {
                along: launch_direction(
                    diff,
                    if controls.has_direction() {
                        Some(turn)
                    } else {
                        None
                    },
                ),
                magnitude: JUMP_IMPULSE,
            },
        }
    } else if !controls.has_direction() {
        if is_grounded {
            Locomotion::Idle
        } else {
            Locomotion::Airborne
        }
    } else if !is_grounded {
        Locomotion::Steering {
            tangential: Directed { along: tangential(diff, turn), magnitude: STEER_TANGENTIAL },
            radial: Directed { along: diff.reversed_spec(), magnitude: STEER_RADIAL },
        }
    } else {
        Locomotion::Walking {
            turn,
            center: source.center,
            radius: (source.atmosphere.planet_radius + PLAYER_HALF_HEIGHT) as u64,
            sweep: swept(turn, dt_micros) as i64,
        }
    }
}

/// What the entity in slot `i` does: a player with a body that can be
/// pulled, and whose atmosphere is in the world, moves as [`locomotion`]
/// says; all else has no part in it.
pub open spec fn moves_on(w: Slots, i: int, controls: Controls, dt_micros: u32) -> Option<
    Locomotion,
> {
    match w[i] {
        Some(Components { kind: Kind::Player(p), attractable: Some(a), body: Some(b) }) => {
            match source_of(w, a) {
                Some(s) => Some(locomotion(p.is_grounded, b.position, s, controls, dt_micros)),
                None => None,
            }
        },
        _ => None,
    }
}

/// The sense in which the key direction `direction` leads round the planet.
pub fn turn_of(direction: Vector, diff: Vector) -> (turn: Turn)
    requires
        direction.within(1),
        diff.symmetric(),
    ensures
        turn == turn_toward(direction, diff),
        turn is Clockwise <==> direction.dot_spec(diff.tangent_spec()) > 0,
{
    let t = diff.tangent();
    proof {
        law_turn_is_sign_of_scalar_product(direction, diff);
    }
    if direction.dot(&t) > 0 {
        Turn::Clockwise
    } else {
        Turn::Counterclockwise
    }
}

/// What a player at `position` does in a tick of `dt_micros` microseconds,
/// pulled by `source`, with the keys `controls`.
///
/// A grounded player with jump held jumps, whatever else is held. Else a
/// player with no direction key held, or with keys that cancel, does
/// nothing. Else an airborne player steers and a grounded player walks.
pub fn locomote(
    is_grounded: bool,
    position: Point,
    source: &Source,
    controls: &Controls,
    dt_micros: u32,
) -> (action: Locomotion)
    ensures
        action == locomotion(is_grounded, position, *source, *controls, dt_micros),
        action is Jumping <==> is_grounded && controls.jump,
        action is Walking <==> is_grounded && !controls.jump && controls.has_direction(),
        action is Idle <==> is_grounded && !controls.jump && !controls.has_direction(),
        action is Steering <==> !is_grounded && controls.has_direction(),
        action is Airborne <==> !is_grounded && !controls.has_direction(),
        action.resolvable(),
{
    let diff = position.to(source.center);
    let direction = controls.direction();
    let has_direction = !direction.is_zero();
    let turn = turn_of(direction, diff);
    let along = match turn {
        Turn::Clockwise => Vector { x: diff.y, y: -diff.x },
        Turn::Counterclockwise => Vector { x: -diff.y, y: diff.x },
    };
    if is_grounded && controls.jump {
        let launch = if has_direction {
            Vector { x: -(diff.x + along.x), y: -(diff.y + along.y) }
        } else {
            diff.reversed()
        };
        Locomotion::Jumping { impulse: Directed { along: launch, magnitude: JUMP_IMPULSE } }
    } else if !has_direction {
        if is_grounded {
            Locomotion::Idle
        } else {
            Locomotion::Airborne
        }
    } else if !is_grounded {
        Locomotion::Steering {
            tangential: Directed { along, magnitude: STEER_TANGENTIAL },
            radial: Directed { along: diff.reversed(), magnitude: STEER_RADIAL },
        }
    } else {
        let step: i64 = 1_200 * (dt_micros as i64);
        Locomotion::Walking {
            turn,
            center: source.center,
            radius: source.atmosphere.planet_radius as u64 + PLAYER_HALF_HEIGHT as u64,
            sweep: match turn {
                Turn::Clockwise => step,
                Turn::Counterclockwise => -step,
            },
        }
    }
}

/// What every entity does in a tick of `dt_micros` microseconds with the
/// keys `controls`, by slot: `None` for all but the players that have a body
/// and are pulled by an atmosphere of the world. The world stays as it is.
pub fn move_player(world: &World, controls: &Controls, dt_micros: u32) -> (moves: Vec<
    Option<Locomotion>,
>)
    ensures
        moves@.len() == world@.len(),
        forall|i: int|
            0 <= i < world@.len() ==> moves@[i] == moves_on(world@, i, *controls, dt_micros),
        forall|i: int|
            0 <= i < world@.len() && moves@[i] is Some ==> (#[trigger] moves@[i])->0.resolvable(),
{
    let mut moves: Vec<Option<Locomotion>> = Vec::new();
    let mut i: usize = 0;
    while i < world.slots.len()
        invariant
            i <= world@.len(),
            moves@.len() == i,
            forall|j: int| 0 <= j < i ==> moves@[j] == moves_on(world@, j, *controls, dt_micros),
            forall|j: int| 0 <= j < i && moves@[j] is Some ==> (#[trigger] moves@[j])->0.resolvable(),
        decreases world@.len() - i,
    {
        let action = match world.slots[i] {
            Some(Components { kind: Kind::Player(p), attractable: Some(a), body: Some(b) }) => {
                match get_source(world, &a) {
                    Some(s) => Some(locomote(p.is_grounded, b.position, &s, controls, dt_micros)),
                    None => None,
                }
            },
            _ => None,
        };
        moves.push(action);
        i += 1;
    }
    moves
}

/// The keys give a direction exactly where the sum of their unit vectors is
/// not zero.
pub proof fn law_direction_of_the_keys(controls: Controls)
    ensures
        controls.has_direction() <==> controls.direction_spec().norm2() > 0,
        controls.direction_spec().within(1),
{
    let d = controls.direction_spec();
    let x = d.x as int;
    let y = d.y as int;
    assert(x * x >= 0 && y * y >= 0 && (x != 0 ==> x * x > 0) && (y != 0 ==> y * y > 0))
        by (nonlinear_arith);
}

/// The turn is clockwise exactly where the scalar product of the key
/// direction and the clockwise direction `(diff.y, -diff.x)` is positive.
pub proof fn law_turn_is_sign_of_scalar_product(direction: Vector, diff: Vector)
    requires
        direction.within(1),
        diff.symmetric(),
    ensures
        turn_toward(direction, diff) is Clockwise <==> direction.dot_spec(diff.tangent_spec())
            > 0,
{
    let dx = direction.x as int;
    let dy = direction.y as int;
    let tx = diff.tangent_spec().x as int;
    let ty = diff.tangent_spec().y as int;
    assert(tx == diff.y && ty == -diff.x);
    assert(dx * tx == signed(dx, tx) && dy * ty == signed(dy, ty)) by (nonlinear_arith)
        requires
            -1 <= dx <= 1,
            -1 <= dy <= 1,
    ;
}

/// The tangential direction is the clockwise direction `(diff.y, -diff.x)`
/// times the factor of the turn, and a jump leads along the reverse of the
/// sum of the radial and the tangential direction.
pub proof fn law_tangential_is_clockwise_times_factor(diff: Vector, turn: Turn)
    requires
        diff.within(0x1_0000_0000),
    ensures
        tangential(diff, turn).x == turn.factor() * diff.y,
        tangential(diff, turn).y == turn.factor() * -diff.x,
        launch_direction(diff, Some(turn)).x == -(diff.x + turn.factor() * diff.y),
        launch_direction(diff, Some(turn)).y == -(diff.y - turn.factor() * diff.x),
        swept(turn, 1) == turn.factor() * WALK_SPEED,
{
    let f = turn.factor();
    let x = diff.x as int;
    let y = diff.y as int;
    assert(f * y == signed(f, y) && f * -x == signed(f, -x) && f * x == signed(f, x)) by (nonlinear_arith)
        requires
            f == 1 || f == -1,
    ;
}

/// A grounded player that jumps with no direction key held, or with keys
/// that cancel, is launched straight away from the centre: the impulse has
/// the length [`JUMP_IMPULSE`] and points from the centre to the player.
pub proof fn law_plain_jump_is_radial(position: Point, source: Source, controls: Controls, dt: u32)
    requires
        controls.jump,
        !controls.has_direction(),
    ensures
        locomotion(true, position, source, controls, dt) == (Locomotion::Jumping {
            impulse: Directed {
                along: offset(source.center, position),
                magnitude: JUMP_IMPULSE,
            },
        }),
{
}

/// A jump leads away from the planet: the impulse makes an angle of less
/// than a quarter turn with the way from the centre to the player, unless
/// the player is at the centre itself.
pub proof fn law_jump_leads_away(position: Point, source: Source, controls: Controls, dt: u32)
    requires
        controls.jump,
        position != source.center,
    ensures
        locomotion(true, position, source, controls, dt) is Jumping,
        locomotion(true, position, source, controls, dt)->impulse.along.dot_spec(
            offset(source.center, position),
        ) > 0,
{
    let diff = offset(position, source.center);
    let back = offset(source.center, position);
    let x = diff.x as int;
    let y = diff.y as int;
    let turn = turn_toward(controls.direction_spec(), diff);
    let f = turn.factor();
    law_tangential_is_clockwise_times_factor(diff, turn);
    let along = locomotion(true, position, source, controls, dt)->impulse.along;
    let ax = along.x as int;
    let ay = along.y as int;
    let bx = back.x as int;
    let by = back.y as int;
    assert(bx == -x && by == -y);
    if controls.has_direction() {
        assert(ax == -(x + f * y) && ay == -(y - f * x));
        assert(ax * bx + ay * by == x * x + y * y) by (nonlinear_arith)
            requires
                ax == -(x + f * y),
                ay == -(y - f * x),
                bx == -x,
                by == -y,
        ;
    } else {
        assert(ax == -x && ay == -y);
        assert(ax * bx + ay * by == x * x + y * y) by (nonlinear_arith)
            requires
                ax == -x,
                ay == -y,
                bx == -x,
                by == -y,
        ;
    }
    assert(x * x + y * y > 0) by (nonlinear_arith)
        requires
            x != 0 || y != 0,
    ;
}

/// Walking goes the way the keys lead: the sweep has the sign of the scalar
/// product of the key direction and the clockwise direction, and its size is
/// [`WALK_SPEED`] times the length of the tick. The player stays on the
/// circle that lies [`PLAYER_HALF_HEIGHT`] above the planet's surface.
pub proof fn law_walk_follows_keys(position: Point, source: Source, controls: Controls, dt: u32)
    requires
        !controls.jump,
        controls.has_direction(),
    ensures
        locomotion(true, position, source, controls, dt) is Walking,
        locomotion(true, position, source, controls, dt)->center == source.center,
        locomotion(true, position, source, controls, dt)->radius
            == source.atmosphere.planet_radius + PLAYER_HALF_HEIGHT,
        controls.direction_spec().dot_spec(offset(position, source.center).tangent_spec()) > 0
            ==> locomotion(true, position, source, controls, dt)->sweep == WALK_SPEED * dt,
        controls.direction_spec().dot_spec(offset(position, source.center).tangent_spec()) <= 0
            ==> locomotion(true, position, source, controls, dt)->sweep == -(WALK_SPEED * dt),
{
    law_turn_is_sign_of_scalar_product(
        controls.direction_spec(),
        offset(position, source.center),
    );
    let t = dt as int;
    assert(WALK_SPEED * t == 1_200 * t) by (nonlinear_arith)
        requires
            WALK_SPEED == 1_200,
    ;
}

} // verus!
