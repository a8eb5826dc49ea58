//! The free-rotation system: drains raw device-motion events and, while the
//! window is focused and the cursor-hide intent is on, turns each motion
//! delta into one incremental rotation of every fly-controlled entity, in
//! stream order.
//!
//! The system decides which rotations happen and in what order; composing a
//! delta onto an orientation is single-precision quaternion arithmetic and is
//! performed outside the library, one action at a time.

use vstd::prelude::*;

use crate::events::{EventChannel, InputEvent, ReaderId, reader_ok};
use crate::resources::{HideCursor, WindowFocus};
use crate::store::{Entity, World};

verus! {

/// One incremental rotation to compose, by right-multiplication, onto the
/// orientation of `entity`: yaw from `dx`, pitch from `dy` (sign inverted),
/// each scaled by the system's sensitivity. The deltas are the double
/// bit patterns carried by the motion event, unchanged.
#[derive(Clone, Copy, PartialEq, Eq, Structural, Debug)]
pub struct RotateAction {
    pub entity: Entity,
    pub dx_bits: u64,
    pub dy_bits: u64,
}

/// The entities the rotation pass touches: every live entity that carries
/// the free-control tag and an orientation, in slot order, as of the first
/// `prefix` slots of the store.
pub open spec fn rotation_targets_upto(w: World, prefix: int) -> Seq<Entity>
    decreases prefix,
{
    if prefix <= 0 || prefix > w@.len() {
        Seq::empty()
    } else {
        let s = w@[prefix - 1];
        if s.alive && s.fly_control && s.rotation is Some {
            rotation_targets_upto(w, prefix - 1).push(
                Entity { index: (prefix - 1) as usize, generation: s.generation },
            )
        } else {
            rotation_targets_upto(w, prefix - 1)
        }
    }
}

/// The entities the rotation pass touches, in slot order.
pub open spec fn rotation_targets(w: World) -> Seq<Entity> {
    rotation_targets_upto(w, w@.len() as int)
}

/// One action per target entity for a single motion event of deltas
/// `(dx_bits, dy_bits)`, in target order.
pub open spec fn motion_actions(targets: Seq<Entity>, dx_bits: u64, dy_bits: u64) -> Seq<
    RotateAction,
>
    decreases targets.len(),
{
    if targets.len() == 0 {
        Seq::empty()
    } else {
        motion_actions(targets.drop_last(), dx_bits, dy_bits).push(
            RotateAction { entity: targets.last(), dx_bits, dy_bits },
        )
    }
}

/// The rotations one frame performs: for each event of the batch in arrival
/// order, if it is a device-motion event and both the focus flag and the
/// hide intent held, one action per target entity; all other events, and all
/// events while unfocused or unhidden, contribute nothing.
pub open spec fn rotation_plan(
    events: Seq<InputEvent>,
    focused: bool,
    hide: bool,
    targets: Seq<Entity>,
) -> Seq<RotateAction>
    decreases events.len(),
{
    if events.len() == 0 {
        Seq::empty()
    } else {
        rotation_plan(events.drop_last(), focused, hide, targets) + (match events.last() {
            InputEvent::DeviceMotion { dx_bits, dy_bits } => if focused && hide {
                motion_actions(targets, dx_bits, dy_bits)
            } else {
                Seq::empty()
            },
            _ => Seq::empty(),
        })
    }
}

/// With the hide intent off, a frame of the rotation pass performs no
/// rotation at all — no orientation is written — whatever the focus state
/// and whatever events arrived.
pub proof fn lemma_no_hide_no_rotation(events: Seq<InputEvent>, focused: bool, targets: Seq<Entity>)
    ensures
        rotation_plan(events, focused, false, targets) =~= Seq::<RotateAction>::empty(),
    decreases events.len(),
{
    if events.len() > 0 {
        lemma_no_hide_no_rotation(events.drop_last(), focused, targets);
    }
}

/// While the window is unfocused, a frame of the rotation pass performs no
/// rotation either.
pub proof fn lemma_unfocused_no_rotation(events: Seq<InputEvent>, hide: bool, targets: Seq<Entity>)
    ensures
        rotation_plan(events, false, hide, targets) =~= Seq::<RotateAction>::empty(),
    decreases events.len(),
{
    if events.len() > 0 {
        lemma_unfocused_no_rotation(events.drop_last(), hide, targets);
    }
}

/// Per-frame view-rotation controller. The sensitivities are single-precision
/// bit patterns, degrees of rotation per unit of pointer delta, fixed at
/// construction; the reader is its private position in the event stream.
#[derive(Debug)]
pub struct FreeRotationSystem {
    pub sensitivity_x_bits: u32,
    pub sensitivity_y_bits: u32,
    pub reader: ReaderId,
}

/// Builds the view-rotation controller against a live event channel:
/// registers its read cursor and fixes the two sensitivities.
pub fn build_free_rotation_system(
    sensitivity_x_bits: u32,
    sensitivity_y_bits: u32,
    channel: &EventChannel,
) -> (s: FreeRotationSystem)
    ensures
        s.sensitivity_x_bits == sensitivity_x_bits,
        s.sensitivity_y_bits == sensitivity_y_bits,
        s.reader.pos() == channel@.len(),
{
    FreeRotationSystem {
        sensitivity_x_bits,
        sensitivity_y_bits,
        reader: channel.register_reader(),
    }
}

/// Collects the entities a rotation frame touches, in slot order.
pub fn collect_rotation_targets(world: &World) -> (targets: Vec<Entity>)
    ensures
        targets@ == rotation_targets(*world),
{
    let mut targets: Vec<Entity> = Vec::new();
    let n = world.num_slots();
    let mut i: usize = 0;
    while i < n
        invariant
            i <= n == world@.len(),
            targets@ == rotation_targets_upto(*world, i as int),
        decreases n - i,
    {
        let s = world.slot_at(i);
        if s.alive && s.fly_control && s.rotation.is_some() {
            targets.push(Entity { index: i, generation: s.generation });
        }
        i = i + 1;
    }
    targets
}

impl FreeRotationSystem {
    /// One frame: drains every event written since the last read and returns
    /// exactly the rotations to perform — for each motion event in arrival
    /// order, while focused with the hide intent on, one incremental
    /// rotation per fly-controlled entity. The returned actions are composed
    /// onto the running orientations one by one, in this order, so that two
    /// small deltas land exactly as they arrived.
    pub fn run(
        &mut self,
        channel: &EventChannel,
        focus: &WindowFocus,
        hide: &HideCursor,
        world: &World,
    ) -> (actions: Vec<RotateAction>)
        requires
            reader_ok(old(self).reader, *channel),
        ensures
            final(self).reader.pos() == channel@.len(),
            final(self).sensitivity_x_bits == old(self).sensitivity_x_bits,
            final(self).sensitivity_y_bits == old(self).sensitivity_y_bits,
            actions@ == rotation_plan(
                channel@.subrange(old(self).reader.pos() as int, channel@.len() as int),
                focus.is_focused,
                hide.hide,
                rotation_targets(*world),
            ),
    {
        let events = channel.read(&mut self.reader);
        let targets = collect_rotation_targets(world);
        let focused = focus.is_focused;
        let mut actions: Vec<RotateAction> = Vec::new();
        let mut i: usize = 0;
        while i < events.len()
            invariant
                i <= events@.len(),
                targets@ == rotation_targets(*world),
                actions@ == rotation_plan(
                    events@.take(i as int),
                    focused,
                    hide.hide,
                    targets@,
                ),
            decreases events@.len() - i,
        {
            proof {
                assert(events@.take(i + 1 as int).drop_last() =~= events@.take(i as int));
                assert(events@.take(i + 1 as int).last() == events@[i as int]);
            }
            match events[i] {
                InputEvent::DeviceMotion { dx_bits, dy_bits } => {
                    if focused && hide.hide {
                        let ghost before = actions@;
                        let mut j: usize = 0;
                        while j < targets.len()
                            invariant
                                j <= targets@.len(),
                                actions@ == before + motion_actions(
                                    targets@.take(j as int),
                                    dx_bits,
                                    dy_bits,
                                ),
                            decreases targets@.len() - j,
                        {
                            proof {
                                assert(targets@.take(j + 1 as int).drop_last() =~= targets@.take(
                                    j as int,
                                ));
                                assert(targets@.take(j + 1 as int).last() == targets@[j as int]);
                            }
                            actions.push(
                                RotateAction { entity: targets[j], dx_bits, dy_bits },
                            );
                            j = j + 1;
                        }
                        proof {
                            assert(targets@.take(targets@.len() as int) =~= targets@);
                        }
                    } else {
                        proof {
                            assert(actions@ =~= actions@ + Seq::<RotateAction>::empty());
                        }
                    }
                },
                _ => {
                    proof {
                        assert(actions@ =~= actions@ + Seq::<RotateAction>::empty());
                    }
                },
            }
            i = i + 1;
        }
        proof {
            assert(events@.take(events@.len() as int) =~= events@);
        }
        actions
    }
}

} // verus!
