//! The arc-ball system: keeps each arc-ball-controlled entity at a fixed
//! distance behind its target, repositioning it every frame so that its
//! forward axis keeps pointing at the target. It only repositions; the
//! entity's orientation is controlled elsewhere.
//!
//! For every controlled entity whose target still resolves, the frame sets
//! the entity's translation to `target_translation - offset`, where `offset`
//! is the local forward vector of length `distance` rotated into world space
//! by the entity's current orientation. Computing that offset is
//! single-precision arithmetic done outside the library; the system decides
//! which entities are repositioned and hands out the payloads — orientation,
//! distance, target translation — each action needs. An entity whose target
//! is gone is skipped: its translation is left untouched this frame.

use vstd::prelude::*;

use crate::store::{Entity, Quat, Vec3, World};

verus! {

/// One repositioning to perform: set the translation of `entity` to
/// `target_translation - orientation.rotate(local_forward * distance)`, so
/// that the entity sits `distance` units behind the target along its own
/// facing. `distance` is the single-precision pattern of the control's
/// offset length and `orientation` the entity's current orientation.
#[derive(Clone, Copy, PartialEq, Eq, Structural, Debug)]
pub struct ArcBallAction {
    pub entity: Entity,
    pub orientation: Quat,
    pub distance_bits: u32,
    pub target_translation: Vec3,
}

/// The repositionings one frame performs, over the first `prefix` slots of
/// the store: one action per live entity holding an arc-ball control, an
/// orientation and a translation, in slot order — but only when its target
/// still resolves to a live entity with a translation. Every other slot, and
/// every controlled entity whose target is gone, contributes nothing.
pub open spec fn arc_ball_plan_upto(w: World, prefix: int) -> Seq<ArcBallAction>
    decreases prefix,
{
    if prefix <= 0 || prefix > w@.len() {
        Seq::empty()
    } else {
        let s = w@[prefix - 1];
        let rest = arc_ball_plan_upto(w, prefix - 1);
        if s.alive && s.arc_ball is Some && s.rotation is Some && s.translation is Some
            && w.translation_of(s.arc_ball->Some_0.target) is Some {
            rest.push(
                ArcBallAction {
                    entity: Entity { index: (prefix - 1) as usize, generation: s.generation },
                    orientation: s.rotation->Some_0,
                    distance_bits: s.arc_ball->Some_0.distance_bits,
                    target_translation: w.translation_of(s.arc_ball->Some_0.target)->Some_0,
                },
            )
        } else {
            rest
        }
    }
}

/// The repositionings one frame performs, in slot order.
pub open spec fn arc_ball_plan(w: World) -> Seq<ArcBallAction> {
    arc_ball_plan_upto(w, w@.len() as int)
}

/// Soundness of the plan: every action is for a live controlled entity, and
/// carries that entity's own orientation, its control's distance, and the
/// translation its still-live target holds.
pub proof fn lemma_arc_ball_plan_sound(w: World, prefix: int, k: int)
    requires
        0 <= k < arc_ball_plan_upto(w, prefix).len(),
    ensures
        ({
            let a = arc_ball_plan_upto(w, prefix)[k];
            &&& w.is_live(a.entity)
            &&& w.rotation_of(a.entity) == Some(a.orientation)
            &&& w.arc_ball_of(a.entity) matches Some(c) && c.distance_bits == a.distance_bits
                && w.translation_of(c.target) == Some(a.target_translation)
        }),
    decreases prefix,
{
    if prefix > 0 && prefix <= w@.len() {
        let s = w@[prefix - 1];
        let rest = arc_ball_plan_upto(w, prefix - 1);
        if s.alive && s.arc_ball is Some && s.rotation is Some && s.translation is Some
            && w.translation_of(s.arc_ball->Some_0.target) is Some {
            if k < rest.len() {
                lemma_arc_ball_plan_sound(w, prefix - 1, k);
                assert(arc_ball_plan_upto(w, prefix)[k] == rest[k]);
            } else {
                crate::store::lemma_num_slots_bounded(w);
                let a = arc_ball_plan_upto(w, prefix)[k];
                assert(a.entity.index == prefix - 1);
                assert(w.is_live(a.entity));
            }
        } else {
            assert(arc_ball_plan_upto(w, prefix) == rest);
            lemma_arc_ball_plan_sound(w, prefix - 1, k);
        }
    }
}

/// The dead-target skip: an entity whose arc-ball target no longer resolves
/// to a live entity with a translation gets no action this frame, so its own
/// translation is left exactly as it was.
pub proof fn lemma_stale_target_skipped(w: World, e: Entity)
    requires
        w.arc_ball_of(e) matches Some(c) && w.translation_of(c.target) is None,
    ensures
        forall|k: int| 0 <= k < arc_ball_plan(w).len() ==> #[trigger] arc_ball_plan(w)[k].entity
            != e,
    decreases w@.len(),
{
    assert forall|k: int| 0 <= k < arc_ball_plan(w).len() implies #[trigger] arc_ball_plan(
        w,
    )[k].entity != e by {
        lemma_arc_ball_plan_sound(w, w@.len() as int, k);
    }
}

/// Per-frame arc-ball controller. It holds no state of its own: each frame
/// is computed afresh from the store.
#[derive(Clone, Copy, Debug)]
pub struct ArcBallRotationSystem {}

/// Builds the arc-ball controller.
pub fn build_arc_ball_rotation_system() -> (s: ArcBallRotationSystem) {
    ArcBallRotationSystem {  }
}

impl ArcBallRotationSystem {
    /// One frame: returns exactly the repositionings to perform, in slot
    /// order — one per live arc-ball entity whose target still resolves,
    /// with the payloads the repositioning combines. Entities whose target
    /// is gone are skipped, not failed.
    pub fn run(&self, world: &World) -> (actions: Vec<ArcBallAction>)
        ensures
            actions@ == arc_ball_plan(*world),
    {
        let mut actions: Vec<ArcBallAction> = Vec::new();
        let n = world.num_slots();
        let mut i: usize = 0;
        while i < n
            invariant
                i <= n == world@.len(),
                actions@ == arc_ball_plan_upto(*world, i as int),
            decreases n - i,
        {
            let s = world.slot_at(i);
            if s.alive {
                if let (Some(control), Some(orientation), Some(_)) = (
                    s.arc_ball,
                    s.rotation,
                    s.translation,
                ) {
                    if let Some(target_translation) = world.translation(control.target) {
                        actions.push(
                            ArcBallAction {
                                entity: Entity { index: i, generation: s.generation },
                                orientation,
                                distance_bits: control.distance_bits,
                                target_translation,
                            },
                        );
                    }
                }
            }
            i = i + 1;
        }
        actions
    }
}

} // verus!
