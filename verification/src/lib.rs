//! Game logic for walking on small round planets: which planet pulls a body,
//! how a body stands upright on it, how a player walks, jumps and shoots, and
//! what contact and proximity events change.
//!
//! The library owns the state of the game, a [`world::World`] of entities,
//! and is driven from outside. Before the physics engine steps,
//! [`pipeline::update`] runs the stages of a tick in their fixed order and
//! says what the engine is to do; after the step,
//! [`events::physics_events`] takes in what the engine reported.
//!
//! # Numbers
//!
//! The world is a lattice: a position is a [`vector::Point`] of whole world
//! units, and every rule is exact on it.
//!
//! - A force, an impulse, a velocity or a distance is a
//!   [`directed::Directed`]: a direction on the lattice and a length. It
//!   stands for the vector of that length along that direction, and
//!   [`directed::Directed::resolve`] gives its components in whole units.
//! - A rotation is a direction too: a body is turned by the angle from the
//!   positive x axis to the [`vector::Vector`] that [`world::Body`] keeps.
//! - An angle that a walking player sweeps is counted in nanoradians, and the
//!   length of a tick in microseconds.

pub mod aiming;
pub mod directed;
pub mod events;
pub mod gravity;
pub mod locomotion;
pub mod orientation;
pub mod pipeline;
pub mod startup;
pub mod vector;
pub mod world;
