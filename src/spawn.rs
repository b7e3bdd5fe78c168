//! The spawn registry: world coordinates harvested from level markers, handed
//! out round-robin to actor creation and to respawning.
use vstd::prelude::*;

use crate::geometry::Vec3;

verus! {

/// The spawn coordinate an actor was last placed at.
#[derive(Clone, Copy, Debug, PartialEq, Eq, Structural)]
pub struct SpawnPoint {
    pub position: Vec3,
}

impl SpawnPoint {
    pub fn new(position: Vec3) -> (r: SpawnPoint)
        ensures
            r.position == position,
    {
        SpawnPoint { position }
    }
}

/// Marks a level node as a spawn candidate.
#[derive(Clone, Copy, Debug, PartialEq, Eq, Structural)]
pub struct SpawnPont;

/// Marks the root of a loaded level scene.
#[derive(Clone, Copy, Debug, PartialEq, Eq, Structural)]
pub struct LoadedMarker;

/// Installs the registry and the harvesting of spawn markers.
#[derive(Clone, Copy, Debug, PartialEq, Eq, Structural)]
pub struct SpawnPlugin;

/// Registers the spawn marker component.
#[derive(Clone, Copy, Debug, PartialEq, Eq, Structural)]
pub struct ComponentPlugin;

#[derive(Clone, Copy, Debug, PartialEq, Eq, Structural)]
pub enum SpawnError {
    /// The registry holds no coordinate.
    NoSpawnPoint,
}

impl SpawnError {
    pub fn message(&self) -> (r: &'static str)
        ensures
            r@ == "no spawn point available"@,
    {
        "no spawn point available"
    }
}

/// The ordered catalogue of spawn coordinates. A taken coordinate stays in
/// the catalogue: `take` walks it round-robin so that successive actors are
/// spread over all coordinates.
pub struct SpawnProperty {
    points: Vec<Vec3>,
    next: usize,
}

impl SpawnProperty {
    /// The cursor points into the catalogue, or is zero when it is empty.
    pub closed spec fn wf(&self) -> bool {
        if self.points@.len() == 0 {
            self.next == 0
        } else {
            self.next < self.points@.len()
        }
    }

    /// The coordinates, in the order they were registered.
    pub closed spec fn points(&self) -> Seq<Vec3> {
        self.points@
    }

    /// The index of the coordinate that `take` hands out next.
    pub closed spec fn cursor(&self) -> nat {
        self.next as nat
    }

    /// The cursor indexes a coordinate, or is zero when there is none.
    pub open spec fn cursor_in_range(&self) -> bool {
        if self.points().len() == 0 {
            self.cursor() == 0
        } else {
            self.cursor() < self.points().len()
        }
    }

    pub fn empty() -> (r: SpawnProperty)
        ensures
            r.points() == Seq::<Vec3>::empty(),
            r.cursor() == 0,
            r.wf(),
            r.cursor_in_range(),
    {
        SpawnProperty { points: Vec::new(), next: 0 }
    }

    pub fn len(&self) -> (r: usize)
        ensures
            r == self.points().len(),
    {
        self.points.len()
    }

    pub fn is_empty(&self) -> (r: bool)
        ensures
            r == (self.points().len() == 0),
    {
        self.points.len() == 0
    }

    /// Appends a coordinate.
    pub fn push(&mut self, position: Vec3)
        requires
            old(self).wf(),
        ensures
            final(self).wf(),
            old(self).cursor_in_range(),
            final(self).cursor_in_range(),
            final(self).points() == old(self).points().push(position),
            final(self).cursor() == old(self).cursor(),
    {
        self.points.push(position);
    }

    /// Registers the positions of the spawn markers found in a level, in
    /// order.
    pub fn process_spawn_point(&mut self, markers: &Vec<Vec3>)
        requires
            old(self).wf(),
        ensures
            final(self).wf(),
            old(self).cursor_in_range(),
            final(self).cursor_in_range(),
            final(self).points() == old(self).points() + markers@,
            final(self).cursor() == old(self).cursor(),
    {
        let mut i: usize = 0;
        while i < markers.len()
            invariant
                i <= markers@.len(),
                self.wf(),
                self.points() == old(self).points() + markers@.subrange(0, i as int),
                self.cursor() == old(self).cursor(),
            decreases markers@.len() - i,
        {
            self.push(markers[i]);
            assert(markers@.subrange(0, i + 1) == markers@.subrange(0, i as int).push(markers@[i as int]));
            i = i + 1;
        }
        assert(markers@.subrange(0, markers@.len() as int) == markers@);
    }

    /// Hands out the coordinate under the cursor and moves the cursor on,
    /// wrapping round; fails on an empty registry.
    pub fn take(&mut self) -> (r: Result<Vec3, SpawnError>)
        requires
            old(self).wf(),
        ensures
            final(self).wf(),
            old(self).cursor_in_range(),
            final(self).cursor_in_range(),
            old(self).points().len() == 0 ==> r == Err::<Vec3, SpawnError>(SpawnError::NoSpawnPoint)
                && final(self).points() == old(self).points() && final(self).cursor() == old(self).cursor(),
            old(self).points().len() > 0 ==> r == Ok::<Vec3, SpawnError>(old(self).points()[old(self).cursor() as int])
                && final(self).points() == old(self).points()
                && final(self).cursor() == (old(self).cursor() + 1) % old(self).points().len(),
    {
        if self.points.len() == 0 {
            return Err(SpawnError::NoSpawnPoint);
        }
        let p = self.points[self.next];
        let len = self.points.len();
        if self.next + 1 == len {
            assert((len as int) % (len as int) == 0) by {
                vstd::arithmetic::div_mod::lemma_mod_self_0(len as int);
            }
            self.next = 0;
        } else {
            assert(((self.next + 1) as int) % (len as int) == self.next + 1) by {
                vstd::arithmetic::div_mod::lemma_small_mod((self.next + 1) as nat, len as nat);
            }
            self.next = self.next + 1;
        }
        Ok(p)
    }
}

/// A well-formed registry's cursor is in range.
pub proof fn lemma_cursor_in_range(registry: &SpawnProperty)
    requires
        registry.wf(),
    ensures
        registry.cursor_in_range(),
{
}

/// Whether a level has provided at least one spawn coordinate.
pub fn is_loaded(spawn_point: &SpawnProperty) -> (r: bool)
    ensures
        r == (spawn_point.points().len() > 0),
{
    !spawn_point.is_empty()
}

} // verus!
