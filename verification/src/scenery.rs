//! Static scenery: a tagged variant per kind, each carrying its own body
//! radius and collision radius in milli-units.
use vstd::prelude::*;

use crate::geom::Vec3i;
use crate::motion::{IdAllocator, MovementAndCollision};

verus! {

#[allow(non_camel_case_types)]
#[derive(Clone, Copy, PartialEq, Eq, Structural, Debug)]
pub enum SceneryType {
    TREE,
    HOUSE,
    OFFICE1,
}

/// A static obstacle inside a cell. `position` is in cell-local milli-units;
/// `collision_radius` is the radius scenery queries test against, while the
/// body radius in `movement_collision` is the one a vehicle strike tests.
pub struct Scenery {
    pub movement_collision: MovementAndCollision,
    pub scenery_type: SceneryType,
    pub position: Vec3i,
    pub collision_radius: i64,
}

impl Scenery {
    /// Bounds every query relies on, and the body position matching the
    /// scenery position.
    pub open spec fn wf(self) -> bool {
        &&& self.position.bounded(1_000_000)
        &&& 0 <= self.collision_radius <= 100_000
        &&& 0 <= self.movement_collision.radius <= 100_000
        &&& self.movement_collision.position == self.position
    }

    pub fn new_tree(position: Vec3i, ids: &mut IdAllocator) -> (r: Scenery)
        requires
            old(ids).next < u128::MAX,
            position.bounded(1_000_000),
        ensures
            r.wf(),
            r.scenery_type == SceneryType::TREE,
            r.position == position,
            r.collision_radius == 250,
            r.movement_collision.radius == 400,
            r.movement_collision.position == position,
            r.movement_collision.id == old(ids).next,
            final(ids).next == old(ids).next + 1,
    {
        Scenery {
            movement_collision: MovementAndCollision::new(400, position, ids),
            scenery_type: SceneryType::TREE,
            position,
            collision_radius: 250,
        }
    }

    pub fn new_house(position: Vec3i, ids: &mut IdAllocator) -> (r: Scenery)
        requires
            old(ids).next < u128::MAX,
            position.bounded(1_000_000),
        ensures
            r.wf(),
            r.scenery_type == SceneryType::HOUSE,
            r.position == position,
            r.collision_radius == 1000,
            r.movement_collision.radius == 600,
            r.movement_collision.position == position,
            r.movement_collision.id == old(ids).next,
            final(ids).next == old(ids).next + 1,
    {
        Scenery {
            movement_collision: MovementAndCollision::new(600, position, ids),
            scenery_type: SceneryType::HOUSE,
            position,
            collision_radius: 1000,
        }
    }

    pub fn new_office1(position: Vec3i, ids: &mut IdAllocator) -> (r: Scenery)
        requires
            old(ids).next < u128::MAX,
            position.bounded(1_000_000),
        ensures
            r.wf(),
            r.scenery_type == SceneryType::OFFICE1,
            r.position == position,
            r.collision_radius == 1000,
            r.movement_collision.radius == 900,
            r.movement_collision.position == position,
            r.movement_collision.id == old(ids).next,
            final(ids).next == old(ids).next + 1,
    {
        Scenery {
            movement_collision: MovementAndCollision::new(900, position, ids),
            scenery_type: SceneryType::OFFICE1,
            position,
            collision_radius: 1000,
        }
    }
}

} // verus!
