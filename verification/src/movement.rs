//! The free-movement system: reads the three logical movement axes and, when
//! their combined input is non-zero, translates every fly-controlled entity
//! along the normalized direction, scaled by the frame's elapsed time and the
//! configured speed, in the entity's own orientation frame.
//!
//! Whether the raw axis vector counts as non-zero, and its normalization, is
//! single-precision arithmetic done outside the library; the system receives
//! the resolved direction, or `None` for "no input", and decides exactly
//! which entities move. `None` is an explicit no-op: no entity is touched at
//! all, rather than moved by a zero-length step.

use vstd::prelude::*;

use crate::store::{Entity, Vec3, World};

verus! {

/// The entities a movement frame touches: every live entity that carries the
/// free-control tag and a translation, in slot order, as of the first
/// `prefix` slots of the store.
pub open spec fn movement_targets_upto(w: World, prefix: int) -> Seq<Entity>
    decreases prefix,
{
    if prefix <= 0 || prefix > w@.len() {
        Seq::empty()
    } else {
        let s = w@[prefix - 1];
        if s.alive && s.fly_control && s.translation is Some {
            movement_targets_upto(w, prefix - 1).push(
                Entity { index: (prefix - 1) as usize, generation: s.generation },
            )
        } else {
            movement_targets_upto(w, prefix - 1)
        }
    }
}

/// The entities a movement frame touches, in slot order.
pub open spec fn movement_targets(w: World) -> Seq<Entity> {
    movement_targets_upto(w, w@.len() as int)
}

/// The entities one movement frame translates: none when the resolved input
/// direction is `None`, and every fly-controlled entity with a translation
/// otherwise.
pub open spec fn movement_plan(direction: Option<Vec3>, w: World) -> Seq<Entity> {
    match direction {
        None => Seq::empty(),
        Some(_) => movement_targets(w),
    }
}

/// Per-frame movement controller. The speed is a single-precision bit
/// pattern, units per second, fixed at construction; the axis names are the
/// construction-time bindings the host resolves each frame (an unbound axis
/// contributes zero input).
#[derive(Debug)]
pub struct FlyMovementSystem {
    pub speed_bits: u32,
    pub horizontal_axis: Option<String>,
    pub vertical_axis: Option<String>,
    pub longitudinal_axis: Option<String>,
}

/// Builds the movement controller: fixes the speed and the three optional
/// axis bindings.
pub fn build_fly_movement_system(
    speed_bits: u32,
    horizontal_axis: Option<String>,
    vertical_axis: Option<String>,
    longitudinal_axis: Option<String>,
) -> (s: FlyMovementSystem)
    ensures
        s.speed_bits == speed_bits,
        s.horizontal_axis == horizontal_axis,
        s.vertical_axis == vertical_axis,
        s.longitudinal_axis == longitudinal_axis,
{
    FlyMovementSystem { speed_bits, horizontal_axis, vertical_axis, longitudinal_axis }
}

impl FlyMovementSystem {
    /// One frame: given the resolved unit direction of the axis input — or
    /// `None` when the input was at rest — returns exactly the entities to
    /// translate by that direction times the elapsed seconds times the
    /// configured speed, in slot order. With `None`, the result is empty and
    /// no translation is written this frame.
    pub fn run(&self, direction: &Option<Vec3>, world: &World) -> (targets: Vec<Entity>)
        ensures
            targets@ == movement_plan(*direction, *world),
    {
        let mut targets: Vec<Entity> = Vec::new();
        if direction.is_none() {
            return targets;
        }
        let n = world.num_slots();
        let mut i: usize = 0;
        while i < n
            invariant
                i <= n == world@.len(),
                targets@ == movement_targets_upto(*world, i as int),
            decreases n - i,
        {
            let s = world.slot_at(i);
            if s.alive && s.fly_control && s.translation.is_some() {
                targets.push(Entity { index: i, generation: s.generation });
            }
            i = i + 1;
        }
        targets
    }
}

} // verus!
