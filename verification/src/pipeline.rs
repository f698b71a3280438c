//! One tick of the game, in its fixed order: gravitation, standing upright,
//! locomotion, aiming, shooting. The physics engine then moves the bodies,
//! and its events are taken in by [`crate::events::physics_events`].

use vstd::prelude::*;
use crate::aiming::{Camera, Cursor, Shot, Window, aim, cursor_after, shoot, shots, with_bullets};
use crate::directed::Directed;
use crate::gravity::{far_along_an_axis, full_pull, gravitate, gravity_on, near_along_the_axes};
use crate::locomotion::{Controls, Locomotion, move_player, moves_on};
use crate::orientation::{all_turned, graviturn};
use crate::vector::Point;
use crate::world::World;

verus! {

/// What the player did in one tick.
#[derive(Clone, Copy, Debug, PartialEq, Eq)]
pub struct Input {
    /// The keys that are held down.
    pub controls: Controls,
    /// The length of the tick, in microseconds.
    pub dt_micros: u32,
    /// Where the pointer last moved to, if it moved.
    pub pointer: Option<Point>,
    /// The primary window, if there is one.
    pub window: Option<Window>,
    /// The active camera, if there is one.
    pub camera: Option<Camera>,
    /// Whether the trigger was pressed in this tick.
    pub fire: bool,
}

/// What the physics engine is to do after one tick.
#[derive(Debug, PartialEq, Eq)]
pub struct Frame {
    /// The force of gravitation on each entity, by slot.
    pub forces: Vec<Option<Directed>>,
    /// What each player does, by slot.
    pub moves: Vec<Option<Locomotion>>,
    /// The bullets that were fired.
    pub shots: Vec<Shot>,
}

/// Runs one tick on the world as it stands after the physics engine's last
/// step. Gravitation is taken first; then the players are set upright; then
/// they move; then the cursor follows the pointer; then the trigger fires at
/// the cursor as it is by then.
pub fn update(world: &mut World, cursor: &mut Cursor, input: &Input) -> (frame: Frame)
    ensures
        frame.forces@.len() == old(world)@.len(),
        forall|i: int|
            0 <= i < old(world)@.len() ==> frame.forces@[i] == gravity_on(old(world)@, i),
        forall|i: int|
            0 <= i < old(world)@.len() && near_along_the_axes(old(world)@, i)
                ==> #[trigger] frame.forces@[i] == Some(full_pull(old(world)@, i)),
        forall|i: int|
            0 <= i < old(world)@.len() && far_along_an_axis(old(world)@, i) ==> (
            #[trigger] frame.forces@[i]) is None,
        frame.moves@.len() == old(world)@.len(),
        forall|i: int|
            0 <= i < old(world)@.len() ==> frame.moves@[i] == moves_on(
                all_turned(old(world)@),
                i,
                input.controls,
                input.dt_micros,
            ),
        *final(cursor) == cursor_after(*old(cursor), input.pointer, input.window, input.camera),
        input.fire ==> frame.shots@ == shots(
            all_turned(old(world)@),
            final(cursor).world_position,
            old(world)@.len() as int,
        ),
        !input.fire ==> frame.shots@.len() == 0,
        final(world)@ == with_bullets(all_turned(old(world)@), frame.shots@.len()),
        forall|i: int|
            0 <= i < frame.forces@.len() && frame.forces@[i] is Some ==> (
            #[trigger] frame.forces@[i])->0.resolvable(),
        forall|i: int|
            0 <= i < frame.moves@.len() && frame.moves@[i] is Some ==> (
            #[trigger] frame.moves@[i])->0.resolvable(),
        forall|k: int|
            0 <= k < frame.shots@.len() ==> (#[trigger] frame.shots@[k]).offset.resolvable()
                && frame.shots@[k].velocity.resolvable(),
{
    let forces = gravitate(world);
    graviturn(world);
    let moves = move_player(world, &input.controls, input.dt_micros);
    aim(cursor, input.pointer, input.window, input.camera);
    let shots = shoot(world, cursor, input.fire);
    Frame { forces, moves, shots }
}

} // verus!
