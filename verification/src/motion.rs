//! Shared body state: a position with a collision radius, and the explicit
//! identifier allocator that replaces a process-wide counter.
use vstd::prelude::*;

use crate::geom::Vec3i;

verus! {

/// Hands out identifiers for bodies, one greater each time.
pub struct IdAllocator {
    pub next: u128,
}

impl IdAllocator {
    pub fn new() -> (r: IdAllocator)
        ensures
            r.next == 1,
    {
        IdAllocator { next: 1 }
    }

    pub fn get_next_id(&mut self) -> (r: u128)
        requires
            old(self).next < u128::MAX,
        ensures
            r == old(self).next,
            final(self).next == old(self).next + 1,
    {
        let id = self.next;
        self.next = self.next + 1;
        id
    }
}

/// A body's position together with its collision radius.
#[derive(Clone)]
pub struct MovementAndCollision {
    pub id: u128,
    pub radius: i64,
    pub position: Vec3i,
    pub been_hit: bool,
    pub moved: bool,
}

impl MovementAndCollision {
    pub fn new(radius: i64, position: Vec3i, ids: &mut IdAllocator) -> (r: MovementAndCollision)
        requires
            old(ids).next < u128::MAX,
        ensures
            r.radius == radius,
            r.position == position,
            !r.been_hit,
            !r.moved,
            r.id == old(ids).next,
            final(ids).next == old(ids).next + 1,
    {
        MovementAndCollision { id: ids.get_next_id(), radius, position, been_hit: false, moved: false }
    }
}

} // verus!
