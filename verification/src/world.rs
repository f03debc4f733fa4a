//! Facet-indexed entity store.
//!
//! An entity is an opaque identifier: an index into a set of parallel facet
//! tables.  Each table holds, for every live entity, either that entity's
//! facet or the mark that the facet is absent.  Systems address entities by
//! which facets they carry, not by a type hierarchy.
//!
//! The store is mutated only through `spawn`, the `attach_*` methods and the
//! `tag_*` methods; every method preserves well-formedness, so a reader never
//! observes tables of differing lengths or an attached facet that breaks its
//! own invariant.

use vstd::prelude::*;
use crate::components::ControlProfile;
use crate::components::MotionState;
use crate::components::WrapPolicy;

verus! {

/// Number of `true` entries in a sequence of tag marks.
pub open spec fn count_true(s: Seq<bool>) -> int
    decreases s.len(),
{
    if s.len() == 0 {
        0
    } else {
        count_true(s.drop_last()) + if s.last() {
            1int
        } else {
            0int
        }
    }
}

/// The entity store: parallel facet tables, all indexed by entity id.
pub struct World {
    /// Texture handle from which the entity's drawable material is derived,
    /// for entities that are rendered as sprites.
    pub materials: Vec<Option<u64>>,
    /// Motion state facets.
    pub motions: Vec<Option<MotionState>>,
    /// Wrap policy facets.
    pub wraps: Vec<Option<WrapPolicy>>,
    /// Control profile facets (player-controlled entities only).
    pub controls: Vec<Option<ControlProfile>>,
    /// Main-camera identity tags.
    pub camera_tags: Vec<bool>,
    /// Asteroid identity tags.
    pub asteroid_tags: Vec<bool>,
    /// Ship (player) identity tags.
    pub ship_tags: Vec<bool>,
}

impl World {
    /// Number of live entities; entity ids are `0 .. entity_count`.
    pub open spec fn entity_count(self) -> nat {
        self.materials@.len()
    }

    /// Well-formedness: every facet table covers exactly the live entities,
    /// and every attached wrap policy and control profile satisfies its own
    /// invariant.
    pub open spec fn wf(self) -> bool {
        &&& self.motions@.len() == self.entity_count()
        &&& self.wraps@.len() == self.entity_count()
        &&& self.controls@.len() == self.entity_count()
        &&& self.camera_tags@.len() == self.entity_count()
        &&& self.asteroid_tags@.len() == self.entity_count()
        &&& self.ship_tags@.len() == self.entity_count()
        &&& forall|i: int|
            0 <= i < self.entity_count() ==> ((#[trigger] self.wraps@[i]) matches Some(w)
                ==> w.wf())
        &&& forall|i: int|
            0 <= i < self.entity_count() ==> ((#[trigger] self.controls@[i]) matches Some(c)
                ==> c.wf())
    }

    /// An empty store with no entities.
    pub fn new() -> (w: World)
        ensures
            w.wf(),
            w.entity_count() == 0,
            w.materials@ == Seq::<Option<u64>>::empty(),
            w.motions@ == Seq::<Option<MotionState>>::empty(),
            w.wraps@ == Seq::<Option<WrapPolicy>>::empty(),
            w.controls@ == Seq::<Option<ControlProfile>>::empty(),
            w.camera_tags@ == Seq::<bool>::empty(),
            w.asteroid_tags@ == Seq::<bool>::empty(),
            w.ship_tags@ == Seq::<bool>::empty(),
    {
        World {
            materials: Vec::new(),
            motions: Vec::new(),
            wraps: Vec::new(),
            controls: Vec::new(),
            camera_tags: Vec::new(),
            asteroid_tags: Vec::new(),
            ship_tags: Vec::new(),
        }
    }

    /// Creates a fresh entity with no facets attached and returns its id.
    pub fn spawn(&mut self) -> (id: usize)
        requires
            old(self).wf(),
        ensures
            final(self).wf(),
            id == old(self).entity_count(),
            final(self).entity_count() == old(self).entity_count() + 1,
            final(self).materials@ == old(self).materials@.push(None),
            final(self).motions@ == old(self).motions@.push(None),
            final(self).wraps@ == old(self).wraps@.push(None),
            final(self).controls@ == old(self).controls@.push(None),
            final(self).camera_tags@ == old(self).camera_tags@.push(false),
            final(self).asteroid_tags@ == old(self).asteroid_tags@.push(false),
            final(self).ship_tags@ == old(self).ship_tags@.push(false),
    {
        let id = self.materials.len();
        self.materials.push(None);
        self.motions.push(None);
        self.wraps.push(None);
        self.controls.push(None);
        self.camera_tags.push(false);
        self.asteroid_tags.push(false);
        self.ship_tags.push(false);
        id
    }

    /// Attaches (or replaces) the drawable-material facet of `id`: the
    /// texture handle its sprite material is derived from.
    pub fn attach_material(&mut self, id: usize, texture: u64)
        requires
            old(self).wf(),
            id < old(self).entity_count(),
        ensures
            final(self).wf(),
            final(self).materials@ == old(self).materials@.update(id as int, Some(texture)),
            final(self).motions@ == old(self).motions@,
            final(self).wraps@ == old(self).wraps@,
            final(self).controls@ == old(self).controls@,
            final(self).camera_tags@ == old(self).camera_tags@,
            final(self).asteroid_tags@ == old(self).asteroid_tags@,
            final(self).ship_tags@ == old(self).ship_tags@,
    {
        self.materials[id] = Some(texture);
    }

    /// Attaches (or replaces) the motion state facet of `id`.
    pub fn attach_motion(&mut self, id: usize, motion: MotionState)
        requires
            old(self).wf(),
            id < old(self).entity_count(),
        ensures
            final(self).wf(),
            final(self).motions@ == old(self).motions@.update(id as int, Some(motion)),
            final(self).materials@ == old(self).materials@,
            final(self).wraps@ == old(self).wraps@,
            final(self).controls@ == old(self).controls@,
            final(self).camera_tags@ == old(self).camera_tags@,
            final(self).asteroid_tags@ == old(self).asteroid_tags@,
            final(self).ship_tags@ == old(self).ship_tags@,
    {
        self.motions[id] = Some(motion);
    }

    /// Attaches (or replaces) the wrap policy facet of `id`.
    pub fn attach_wrap(&mut self, id: usize, wrap: WrapPolicy)
        requires
            old(self).wf(),
            id < old(self).entity_count(),
            wrap.wf(),
        ensures
            final(self).wf(),
            final(self).wraps@ == old(self).wraps@.update(id as int, Some(wrap)),
            final(self).materials@ == old(self).materials@,
            final(self).motions@ == old(self).motions@,
            final(self).controls@ == old(self).controls@,
            final(self).camera_tags@ == old(self).camera_tags@,
            final(self).asteroid_tags@ == old(self).asteroid_tags@,
            final(self).ship_tags@ == old(self).ship_tags@,
    {
        self.wraps[id] = Some(wrap);
    }

    /// Attaches (or replaces) the control profile facet of `id`.
    pub fn attach_control(&mut self, id: usize, control: ControlProfile)
        requires
            old(self).wf(),
            id < old(self).entity_count(),
            control.wf(),
        ensures
            final(self).wf(),
            final(self).controls@ == old(self).controls@.update(id as int, Some(control)),
            final(self).materials@ == old(self).materials@,
            final(self).motions@ == old(self).motions@,
            final(self).wraps@ == old(self).wraps@,
            final(self).camera_tags@ == old(self).camera_tags@,
            final(self).asteroid_tags@ == old(self).asteroid_tags@,
            final(self).ship_tags@ == old(self).ship_tags@,
    {
        self.controls[id] = Some(control);
    }

    /// Marks `id` as the main camera.
    pub fn tag_camera(&mut self, id: usize)
        requires
            old(self).wf(),
            id < old(self).entity_count(),
        ensures
            final(self).wf(),
            final(self).camera_tags@ == old(self).camera_tags@.update(id as int, true),
            final(self).materials@ == old(self).materials@,
            final(self).motions@ == old(self).motions@,
            final(self).wraps@ == old(self).wraps@,
            final(self).controls@ == old(self).controls@,
            final(self).asteroid_tags@ == old(self).asteroid_tags@,
            final(self).ship_tags@ == old(self).ship_tags@,
    {
        self.camera_tags[id] = true;
    }

    /// Marks `id` as an asteroid.
    pub fn tag_asteroid(&mut self, id: usize)
        requires
            old(self).wf(),
            id < old(self).entity_count(),
        ensures
            final(self).wf(),
            final(self).asteroid_tags@ == old(self).asteroid_tags@.update(id as int, true),
            final(self).materials@ == old(self).materials@,
            final(self).motions@ == old(self).motions@,
            final(self).wraps@ == old(self).wraps@,
            final(self).controls@ == old(self).controls@,
            final(self).camera_tags@ == old(self).camera_tags@,
            final(self).ship_tags@ == old(self).ship_tags@,
    {
        self.asteroid_tags[id] = true;
    }

    /// Marks `id` as the player's ship.
    pub fn tag_ship(&mut self, id: usize)
        requires
            old(self).wf(),
            id < old(self).entity_count(),
        ensures
            final(self).wf(),
            final(self).ship_tags@ == old(self).ship_tags@.update(id as int, true),
            final(self).materials@ == old(self).materials@,
            final(self).motions@ == old(self).motions@,
            final(self).wraps@ == old(self).wraps@,
            final(self).controls@ == old(self).controls@,
            final(self).camera_tags@ == old(self).camera_tags@,
            final(self).asteroid_tags@ == old(self).asteroid_tags@,
    {
        self.ship_tags[id] = true;
    }

    /// Number of live entities.
    pub fn len(&self) -> (n: usize)
        requires
            self.wf(),
        ensures
            n == self.entity_count(),
    {
        self.materials.len()
    }

    /// Counts the entities that carry the main-camera tag.
    pub fn count_cameras(&self) -> (n: usize)
        requires
            self.wf(),
        ensures
            n == count_true(self.camera_tags@),
    {
        let mut n: usize = 0;
        let mut i: usize = 0;
        while i < self.camera_tags.len()
            invariant
                i <= self.camera_tags@.len(),
                n == count_true(self.camera_tags@.take(i as int)),
                n <= i,
            decreases self.camera_tags@.len() - i,
        {
            proof {
                assert(self.camera_tags@.take(i + 1).drop_last() =~= self.camera_tags@.take(
                    i as int,
                ));
                assert(self.camera_tags@.take(i + 1).last() == self.camera_tags@[i as int]);
            }
            if self.camera_tags[i] {
                n = n + 1;
            }
            i = i + 1;
        }
        proof {
            assert(self.camera_tags@.take(i as int) =~= self.camera_tags@);
        }
        n
    }

    /// The drawable-material facet of `id`, if attached.
    pub fn material_of(&self, id: usize) -> (m: Option<u64>)
        requires
            self.wf(),
            id < self.entity_count(),
        ensures
            m == self.materials@[id as int],
    {
        self.materials[id]
    }

    /// The motion state facet of `id`, if attached.
    pub fn motion_of(&self, id: usize) -> (m: Option<MotionState>)
        requires
            self.wf(),
            id < self.entity_count(),
        ensures
            m == self.motions@[id as int],
    {
        self.motions[id]
    }

    /// The wrap policy facet of `id`, if attached.
    pub fn wrap_of(&self, id: usize) -> (w: Option<WrapPolicy>)
        requires
            self.wf(),
            id < self.entity_count(),
        ensures
            w == self.wraps@[id as int],
    {
        self.wraps[id]
    }

    /// The control profile facet of `id`, if attached.
    pub fn control_of(&self, id: usize) -> (c: Option<ControlProfile>)
        requires
            self.wf(),
            id < self.entity_count(),
        ensures
            c == self.controls@[id as int],
    {
        self.controls[id]
    }

    /// Whether `id` carries the main-camera tag.
    pub fn has_camera_tag(&self, id: usize) -> (b: bool)
        requires
            self.wf(),
            id < self.entity_count(),
        ensures
            b == self.camera_tags@[id as int],
    {
        self.camera_tags[id]
    }

    /// Whether `id` carries the asteroid tag.
    pub fn has_asteroid_tag(&self, id: usize) -> (b: bool)
        requires
            self.wf(),
            id < self.entity_count(),
        ensures
            b == self.asteroid_tags@[id as int],
    {
        self.asteroid_tags[id]
    }

    /// Whether `id` carries the ship tag.
    pub fn has_ship_tag(&self, id: usize) -> (b: bool)
        requires
            self.wf(),
            id < self.entity_count(),
        ensures
            b == self.ship_tags@[id as int],
    {
        self.ship_tags[id]
    }
}

} // verus!
