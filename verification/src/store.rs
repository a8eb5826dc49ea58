//! A small arena-style entity-component store with generational entity
//! handles: the component sets the camera systems query and mutate, and a
//! liveness check that makes stale handles detectable.
//!
//! Scalars are IEEE-754 bit patterns held in plain integers: a translation is
//! three single-precision patterns, an orientation four. The store moves the
//! patterns around unchanged; combining them numerically happens outside the
//! library.

use vstd::prelude::*;

verus! {

/// A 3-vector of single-precision bit patterns.
#[derive(Clone, Copy, PartialEq, Eq, Structural, Debug)]
pub struct Vec3 {
    pub x_bits: u32,
    pub y_bits: u32,
    pub z_bits: u32,
}

/// A quaternion of single-precision bit patterns, `(i, j, k, w)`.
/// Orientations are kept as unit quaternions by whoever writes them; the
/// store only carries the patterns.
#[derive(Clone, Copy, PartialEq, Eq, Structural, Debug)]
pub struct Quat {
    pub i_bits: u32,
    pub j_bits: u32,
    pub k_bits: u32,
    pub w_bits: u32,
}

/// A generational handle to an entity: a slot index plus the generation the
/// slot had when the handle was issued. A handle goes stale, and stops
/// resolving, once its entity is deleted.
#[derive(Clone, Copy, PartialEq, Eq, Structural, Debug)]
pub struct Entity {
    pub index: usize,
    pub generation: u64,
}

/// Component of an orbiting camera: a weak reference to the entity being
/// orbited and the fixed offset length to keep, as a single-precision bit
/// pattern.
#[derive(Clone, Copy, PartialEq, Eq, Structural, Debug)]
pub struct ArcBallControl {
    pub target: Entity,
    pub distance_bits: u32,
}

impl ArcBallControl {
    /// The distance pattern has its sign bit clear, so the encoded offset
    /// length is not negative.
    pub open spec fn wf(self) -> bool {
        self.distance_bits < 0x8000_0000u32
    }

    /// A control orbiting `target` at the non-negative distance encoded by
    /// `distance_bits`.
    pub fn new(target: Entity, distance_bits: u32) -> (c: ArcBallControl)
        requires
            distance_bits < 0x8000_0000u32,
        ensures
            c.target == target,
            c.distance_bits == distance_bits,
            c.wf(),
    {
        ArcBallControl { target, distance_bits }
    }
}

/// One storage slot: the generation it is on, whether it currently holds a
/// live entity, and that entity's components.
#[derive(Clone, Copy, PartialEq, Eq, Structural, Debug)]
pub struct Slot {
    pub generation: u64,
    pub alive: bool,
    pub translation: Option<Vec3>,
    pub rotation: Option<Quat>,
    pub fly_control: bool,
    pub arc_ball: Option<ArcBallControl>,
}

/// The entity-component store.
pub struct World {
    slots: Vec<Slot>,
}

impl View for World {
    type V = Seq<Slot>;

    /// The slots in index order.
    closed spec fn view(&self) -> Seq<Slot> {
        self.slots@
    }
}

/// The slot count of a store always fits a machine word: the slots live in a
/// vector.
pub proof fn lemma_num_slots_bounded(w: World)
    ensures
        w@.len() <= usize::MAX,
{
    vstd::std_specs::vec::axiom_spec_len(&w.slots);
}

impl World {
    /// Whether `e` resolves: its slot exists, holds a live entity, and is
    /// still on the generation the handle was issued for.
    pub open spec fn is_live(self, e: Entity) -> bool {
        &&& e.index < self@.len()
        &&& self@[e.index as int].alive
        &&& self@[e.index as int].generation == e.generation
    }

    /// The translation component of `e`, or `None` if `e` is stale or has
    /// none.
    pub open spec fn translation_of(self, e: Entity) -> Option<Vec3> {
        if self.is_live(e) {
            self@[e.index as int].translation
        } else {
            None
        }
    }

    /// The orientation component of `e`, or `None` if `e` is stale or has
    /// none.
    pub open spec fn rotation_of(self, e: Entity) -> Option<Quat> {
        if self.is_live(e) {
            self@[e.index as int].rotation
        } else {
            None
        }
    }

    /// The arc-ball control of `e`, or `None` if `e` is stale or has none.
    pub open spec fn arc_ball_of(self, e: Entity) -> Option<ArcBallControl> {
        if self.is_live(e) {
            self@[e.index as int].arc_ball
        } else {
            None
        }
    }

    /// Whether `e` is live and tagged for free movement and rotation.
    pub open spec fn has_fly_control(self, e: Entity) -> bool {
        self.is_live(e) && self@[e.index as int].fly_control
    }

    /// An empty store.
    pub fn new() -> (w: World)
        ensures
            w@ == Seq::<Slot>::empty(),
    {
        let w = World { slots: Vec::new() };
        proof {
            assert(w@ =~= Seq::<Slot>::empty());
        }
        w
    }

    /// How many slots the store currently has (live or not).
    pub fn num_slots(&self) -> (n: usize)
        ensures
            n == self@.len(),
    {
        self.slots.len()
    }

    /// Whether the handle `e` still resolves to a live entity.
    pub fn is_alive(&self, e: Entity) -> (r: bool)
        ensures
            r == self.is_live(e),
    {
        e.index < self.slots.len() && self.slots[e.index].alive
            && self.slots[e.index].generation == e.generation
    }

    /// Creates a fresh entity with no components. The first dead slot whose
    /// generation is not exhausted is revived on a new generation; otherwise
    /// a slot is appended. No live entity is disturbed, and no handle issued
    /// before this call resolves to the new entity.
    pub fn create_entity(&mut self) -> (e: Entity)
        ensures
            final(self).is_live(e),
            !old(self).is_live(e),
            final(self)@[e.index as int] == (Slot {
                generation: e.generation,
                alive: true,
                translation: None,
                rotation: None,
                fly_control: false,
                arc_ball: None,
            }),
            forall|i: int| 0 <= i < old(self)@.len() && i != e.index ==> final(self)@[i] == old(self)@[i],
            old(self)@.len() <= final(self)@.len(),
            forall|e2: Entity| old(self).is_live(e2) ==> final(self).is_live(e2)
                && final(self)@[e2.index as int] == old(self)@[e2.index as int],
    {
        let mut i: usize = 0;
        while i < self.slots.len()
            invariant
                i <= self@.len(),
                self@ == old(self)@,
            decreases self@.len() - i,
        {
            let s = self.slots[i];
            if !s.alive && s.generation < u64::MAX {
                let generation = s.generation + 1;
                self.slots.set(i, Slot {
                    generation,
                    alive: true,
                    translation: None,
                    rotation: None,
                    fly_control: false,
                    arc_ball: None,
                });
                return Entity { index: i, generation };
            }
            i = i + 1;
        }
        let index = self.slots.len();
        self.slots.push(Slot {
            generation: 0,
            alive: true,
            translation: None,
            rotation: None,
            fly_control: false,
            arc_ball: None,
        });
        Entity { index, generation: 0 }
    }

    /// Deletes the entity `e` resolves to, leaving every other slot exactly
    /// as it was; a stale or unknown handle is ignored. Afterwards `e` no
    /// longer resolves.
    pub fn delete_entity(&mut self, e: Entity)
        ensures
            !final(self).is_live(e),
            old(self).is_live(e) ==> final(self)@ == old(self)@.update(
                e.index as int,
                (Slot { alive: false, ..old(self)@[e.index as int] }),
            ),
            !old(self).is_live(e) ==> final(self)@ == old(self)@,
            forall|e2: Entity| old(self).is_live(e2) && e2.index != e.index
                ==> final(self).is_live(e2)
                    && final(self)@[e2.index as int] == old(self)@[e2.index as int],
    {
        if self.is_alive(e) {
            let s = self.slots[e.index];
            self.slots.set(e.index, Slot { alive: false, ..s });
        }
    }

    /// Gives `e` the translation `v`, replacing any it had. Nothing else in
    /// the store changes.
    pub fn set_translation(&mut self, e: Entity, v: Vec3)
        requires
            old(self).is_live(e),
        ensures
            final(self)@ == old(self)@.update(
                e.index as int,
                (Slot { translation: Some(v), ..old(self)@[e.index as int] }),
            ),
            final(self).translation_of(e) == Some(v),
    {
        let s = self.slots[e.index];
        self.slots.set(e.index, Slot { translation: Some(v), ..s });
    }

    /// Gives `e` the orientation `q`, replacing any it had. Nothing else in
    /// the store changes.
    pub fn set_rotation(&mut self, e: Entity, q: Quat)
        requires
            old(self).is_live(e),
        ensures
            final(self)@ == old(self)@.update(
                e.index as int,
                (Slot { rotation: Some(q), ..old(self)@[e.index as int] }),
            ),
            final(self).rotation_of(e) == Some(q),
    {
        let s = self.slots[e.index];
        self.slots.set(e.index, Slot { rotation: Some(q), ..s });
    }

    /// Attaches or removes the free-control tag on `e`. Nothing else in the
    /// store changes.
    pub fn set_fly_control(&mut self, e: Entity, fly: bool)
        requires
            old(self).is_live(e),
        ensures
            final(self)@ == old(self)@.update(
                e.index as int,
                (Slot { fly_control: fly, ..old(self)@[e.index as int] }),
            ),
            final(self).has_fly_control(e) == fly,
    {
        let s = self.slots[e.index];
        self.slots.set(e.index, Slot { fly_control: fly, ..s });
    }

    /// Attaches the arc-ball control `c` to `e`, replacing any it had.
    /// Nothing else in the store changes.
    pub fn set_arc_ball(&mut self, e: Entity, c: ArcBallControl)
        requires
            old(self).is_live(e),
            c.wf(),
        ensures
            final(self)@ == old(self)@.update(
                e.index as int,
                (Slot { arc_ball: Some(c), ..old(self)@[e.index as int] }),
            ),
            final(self).arc_ball_of(e) == Some(c),
    {
        let s = self.slots[e.index];
        self.slots.set(e.index, Slot { arc_ball: Some(c), ..s });
    }

    /// The translation component of `e`, or `None` if `e` is stale or has
    /// none.
    pub fn translation(&self, e: Entity) -> (r: Option<Vec3>)
        ensures
            r == self.translation_of(e),
    {
        if self.is_alive(e) {
            self.slots[e.index].translation
        } else {
            None
        }
    }

    /// The orientation component of `e`, or `None` if `e` is stale or has
    /// none.
    pub fn rotation(&self, e: Entity) -> (r: Option<Quat>)
        ensures
            r == self.rotation_of(e),
    {
        if self.is_alive(e) {
            self.slots[e.index].rotation
        } else {
            None
        }
    }

    /// The arc-ball control of `e`, or `None` if `e` is stale or has none.
    pub fn arc_ball(&self, e: Entity) -> (r: Option<ArcBallControl>)
        ensures
            r == self.arc_ball_of(e),
    {
        if self.is_alive(e) {
            self.slots[e.index].arc_ball
        } else {
            None
        }
    }

    /// Whether `e` is live and carries the free-control tag.
    pub fn fly_control(&self, e: Entity) -> (r: bool)
        ensures
            r == self.has_fly_control(e),
    {
        self.is_alive(e) && self.slots[e.index].fly_control
    }

    /// The slot at `i`, for read-only inspection of the store in index order.
    pub fn slot_at(&self, i: usize) -> (s: Slot)
        requires
            i < self@.len(),
        ensures
            s == self@[i as int],
    {
        self.slots[i]
    }
}

} // verus!
