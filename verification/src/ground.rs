//! The world grid: `BY x BY` cells, wrap-around cell addressing, and the
//! spatial queries the vehicle and the agents run each tick.
use vstd::prelude::*;

use crate::geom::{div_trunc, sq, tdiv, Vec3i, COORD_LIMIT};
use crate::landscape::{
    spec_contains_road, spec_height_at, spec_object_pick, spec_scenery_pick, Landscape,
    LandscapeObject,
};
use crate::scenery::{Scenery, SceneryType};
use crate::trig::{cos_milli, normalize_mdeg, sin_milli, spec_cos_milli, spec_sin_milli};

verus! {

/// Cells along each axis of the grid.
pub const BY: usize = 5;

/// One cell's footprint side, in milli-units.
pub const MUL_MILLI: i64 = 6400;

/// Half the world's extent from the centre, in milli-units.
pub const HALF_WORLD_MILLI: i64 = 16_000;

/// The full world footprint, in milli-units: the distance a wrap teleports.
pub const WORLD_SPAN_MILLI: i64 = 32_000;

/// Offset from cell indices to the world origin of a cell.
pub const CELL_ORIGIN_OFFSET_MILLI: i64 = 12_800;

/// Wraps a raw cell index into `[0, BY)` by whole grid widths.
pub fn wrap_value(v: i32) -> (r: i32)
    ensures
        0 <= r < BY as i32,
        r as int == (v as int) % (BY as int),
{
    let mut r = v;
    while r >= BY as i32
        invariant
            (r as int) % (BY as int) == (v as int) % (BY as int),
        decreases r as int,
    {
        r = r - BY as i32;
    }
    while r < 0
        invariant
            r < BY as i32,
            (r as int) % (BY as int) == (v as int) % (BY as int),
        decreases (if r < 0 {
            -(r as int)
        } else {
            0int
        }),
    {
        r = r + BY as i32;
    }
    r
}

/// One wrap step along the x axis: a coordinate strictly beyond a world
/// boundary moves by exactly one world footprint back toward the other side.
pub open spec fn spec_wrap_x(t: int) -> int {
    if t < -(HALF_WORLD_MILLI as int) {
        t + WORLD_SPAN_MILLI
    } else if t > HALF_WORLD_MILLI as int {
        t - WORLD_SPAN_MILLI
    } else {
        t
    }
}

/// One wrap step along the z axis; its boundary test is inclusive.
pub open spec fn spec_wrap_z(t: int) -> int {
    if t <= -(HALF_WORLD_MILLI as int) {
        t + WORLD_SPAN_MILLI
    } else if t >= HALF_WORLD_MILLI as int {
        t - WORLD_SPAN_MILLI
    } else {
        t
    }
}

/// Wrap step along x: any coordinate within one world footprint of the valid
/// band comes back inside `[-HALF_WORLD_MILLI, HALF_WORLD_MILLI]`, shifted by
/// exactly one footprint when it was beyond a boundary.
pub fn wrap_coord_x(t: i64) -> (r: i64)
    requires
        -(HALF_WORLD_MILLI + WORLD_SPAN_MILLI) <= t <= HALF_WORLD_MILLI + WORLD_SPAN_MILLI,
    ensures
        r == spec_wrap_x(t as int),
        -HALF_WORLD_MILLI <= r <= HALF_WORLD_MILLI,
{
    if t < -HALF_WORLD_MILLI {
        t + WORLD_SPAN_MILLI
    } else if t > HALF_WORLD_MILLI {
        t - WORLD_SPAN_MILLI
    } else {
        t
    }
}

/// Wrap step along z, with the inclusive boundary test.
pub fn wrap_coord_z(t: i64) -> (r: i64)
    requires
        -(HALF_WORLD_MILLI + WORLD_SPAN_MILLI) <= t <= HALF_WORLD_MILLI + WORLD_SPAN_MILLI,
    ensures
        r == spec_wrap_z(t as int),
        -HALF_WORLD_MILLI <= r <= HALF_WORLD_MILLI,
{
    if t <= -HALF_WORLD_MILLI {
        t + WORLD_SPAN_MILLI
    } else if t >= HALF_WORLD_MILLI {
        t - WORLD_SPAN_MILLI
    } else {
        t
    }
}

/// The cell index a world coordinate resolves to: floor division of the
/// shifted coordinate by the cell footprint, saturated to the edge cells.
pub open spec fn spec_cell_index(c: int) -> int {
    let v = c + HALF_WORLD_MILLI;
    if v < 0 {
        0
    } else if v / (MUL_MILLI as int) >= BY {
        BY - 1
    } else {
        v / (MUL_MILLI as int)
    }
}

/// World origin of the cell at grid position `(x, y)`.
pub open spec fn spec_cell_origin(x: int, y: int) -> Vec3i {
    Vec3i {
        x: (x * MUL_MILLI - CELL_ORIGIN_OFFSET_MILLI) as i64,
        y: 0,
        z: (y * MUL_MILLI - CELL_ORIGIN_OFFSET_MILLI) as i64,
    }
}

/// The world: the cell grid, the last-reported player position, and the
/// derived set of currently visible cells.
pub struct Ground {
    pub land: Vec<Vec<Landscape>>,
    pub player_pos: Vec3i,
    pub to_display: Vec<(i32, i32)>,
}

/// Angle of one visibility-fan sample, in whole degrees relative to the
/// facing angle: every fifth degree across `[-120, 125]`.
pub open spec fn spec_fan_angle(a: int) -> bool {
    -120 <= a <= 125 && a % 5 == 0
}

/// The raw (unwrapped) cell coordinate one fan sample lands on.
pub open spec fn spec_fan_cell(cx: int, cz: int, camera: int, away: int, a: int) -> (int, int) {
    let ang = ((a - camera) * 1000) % 360_000;
    (
        tdiv(cx * 1000 + spec_sin_milli(ang) * away, 1000),
        tdiv(cz * 1000 - spec_cos_milli(ang) * away, 1000),
    )
}

pub open spec fn spec_is_neighbor(p: (int, int), cx: int, cz: int) -> bool {
    cx - 1 <= p.0 <= cx + 1 && cz - 1 <= p.1 <= cz + 1
}

/// Everything `sort_out_what_to_display` may show: the 3x3 neighborhood of
/// the centre cell plus the visibility-fan samples.
pub open spec fn spec_visible_allowed(p: (int, int), cx: int, cz: int, camera: int) -> bool {
    spec_is_neighbor(p, cx, cz) || exists|away: int, a: int|
        -1 <= away < 2 * (BY as int) && spec_fan_angle(a) && p == spec_fan_cell(
            cx,
            cz,
            camera,
            away,
            a,
        )
}

/// Appends a cell coordinate unless it is already present, keeping the list
/// duplicate-free: the set semantics of the visible-cell collection.
fn insert_cell(v: &mut Vec<(i32, i32)>, c: (i32, i32))
    ensures
        forall|p: (i32, i32)| #[trigger]
            final(v)@.contains(p) <==> (old(v)@.contains(p) || p == c),
        (forall|i: int, j: int|
            0 <= i < j < old(v)@.len() ==> old(v)@[i] != old(v)@[j]) ==> (forall|i: int, j: int|
            0 <= i < j < final(v)@.len() ==> final(v)@[i] != final(v)@[j]),
{
    let mut i: usize = 0;
    while i < v.len()
        invariant
            i <= v@.len(),
            forall|k: int| 0 <= k < i ==> v@[k] != c,
        decreases v@.len() - i,
    {
        if v[i].0 == c.0 && v[i].1 == c.1 {
            proof {
                assert(v@[i as int] == c);
            }
            return ;
        }
        i = i + 1;
    }
    v.push(c);
    proof {
        let ov = old(v)@;
        assert forall|p: (i32, i32)| #[trigger] v@.contains(p) implies (ov.contains(p) || p
            == c) by {
            let k = choose|k: int| 0 <= k < v@.len() && v@[k] == p;
            if k < ov.len() {
                assert(ov[k] == p);
            }
        }
        assert forall|p: (i32, i32)| ov.contains(p) || p == c implies #[trigger] v@.contains(
            p,
        ) by {
            if ov.contains(p) {
                let k = choose|k: int| 0 <= k < ov.len() && ov[k] == p;
                assert(v@[k] == p);
            } else {
                assert(v@[ov.len() as int] == p);
            }
        }
        if forall|i: int, j: int| 0 <= i < j < ov.len() ==> ov[i] != ov[j] {
            assert forall|i: int, j: int| 0 <= i < j < v@.len() implies v@[i] != v@[j] by {
                if j < ov.len() {
                    assert(ov[i] != ov[j]);
                } else {
                    assert(v@[j] == c && v@[i] == ov[i]);
                }
            }
        }
    }
}

impl Ground {
    /// Opaque: callers carry it as a fact; only the grid's own methods open it.
    #[verifier::opaque]
    pub open spec fn wf(self) -> bool {
        &&& self.land@.len() == BY
        &&& forall|y: int| 0 <= y < BY ==> (#[trigger] self.land@[y])@.len() == BY
        &&& forall|y: int, x: int|
            0 <= y < BY && 0 <= x < BY ==> (#[trigger] self.land@[y]@[x]).wf()
        &&& forall|y: int, x: int|
            0 <= y < BY && 0 <= x < BY ==> (#[trigger] self.land@[y]@[x]).xyz == spec_cell_origin(
                x,
                y,
            )
    }

    /// The cell the world point `(x, z)` resolves to.
    pub open spec fn spec_cell_at(self, x: int, z: int) -> Landscape {
        self.land@[spec_cell_index(z)]@[spec_cell_index(x)]
    }

    /// The shape `new` validates: a `BY x BY` grid whose every cell sits at
    /// its grid origin.
    pub open spec fn spec_grid_shaped(land: Seq<Vec<Landscape>>) -> bool {
        &&& land.len() == BY
        &&& forall|y: int| 0 <= y < BY ==> (#[trigger] land[y])@.len() == BY
        &&& forall|y: int, x: int|
            0 <= y < BY && 0 <= x < BY ==> (#[trigger] land[y]@[x]).xyz == spec_cell_origin(x, y)
    }

    /// Builds the grid from `BY x BY` cells; it fails exactly when the shape
    /// is wrong or a cell sits away from its grid origin, the fatal
    /// malformed-world outcome.
    pub fn new(land: Vec<Vec<Landscape>>) -> (r: Option<Ground>)
        requires
            forall|y: int, x: int|
                0 <= y < land@.len() && 0 <= x < land@[y]@.len() ==> (
                #[trigger] land@[y]@[x]).wf(),
        ensures
            r is Some <==> Ground::spec_grid_shaped(land@),
            match r {
                Option::Some(g) => g.wf() && g.land@ == land@ && g.player_pos == (Vec3i {
                    x: 0,
                    y: 0,
                    z: 0,
                }),
                Option::None => true,
            },
    {
        proof {
            reveal(Ground::wf);
        }
        if land.len() != BY {
            return None;
        }
        let mut y: usize = 0;
        while y < BY
            invariant
                land@.len() == BY,
                y <= BY,
                forall|yy: int, xx: int|
                    0 <= yy < land@.len() && 0 <= xx < land@[yy]@.len() ==> (
                    #[trigger] land@[yy]@[xx]).wf(),
                forall|yy: int| 0 <= yy < y ==> (#[trigger] land@[yy])@.len() == BY,
                forall|yy: int, xx: int|
                    0 <= yy < y && 0 <= xx < BY ==> (#[trigger] land@[yy]@[xx]).xyz
                        == spec_cell_origin(xx, yy),
            decreases BY - y,
        {
            let row = &land[y];
            if row.len() != BY {
                return None;
            }
            let mut x: usize = 0;
            while x < BY
                invariant
                    land@.len() == BY,
                    y < BY,
                    row == &land@[y as int],
                    row@.len() == BY,
                    x <= BY,
                    forall|yy: int, xx: int|
                        0 <= yy < land@.len() && 0 <= xx < land@[yy]@.len() ==> (
                        #[trigger] land@[yy]@[xx]).wf(),
                    forall|xx: int|
                        0 <= xx < x ==> (#[trigger] row@[xx]).xyz == spec_cell_origin(
                            xx,
                            y as int,
                        ),
                decreases BY - x,
            {
                let expect = spec_cell_origin_exec(x, y);
                let got = row[x].xyz;
                if got.x != expect.x || got.y != expect.y || got.z != expect.z {
                    return None;
                }
                x = x + 1;
            }
            y = y + 1;
        }
        Some(Ground { land, player_pos: Vec3i { x: 0, y: 0, z: 0 }, to_display: Vec::new() })
    }

    /// Resolves a world point to grid indices; total, always in range (the
    /// edge cells absorb out-of-range queries).
    pub fn get_current_cell(x: i64, z: i64) -> (r: (usize, usize))
        requires
            -COORD_LIMIT <= x <= COORD_LIMIT,
            -COORD_LIMIT <= z <= COORD_LIMIT,
        ensures
            r.0 < BY,
            r.1 < BY,
            r.0 as int == spec_cell_index(x as int),
            r.1 as int == spec_cell_index(z as int),
    {
        let xx = Ground::cell_index(x);
        let zz = Ground::cell_index(z);
        (xx, zz)
    }

    fn cell_index(c: i64) -> (r: usize)
        requires
            -COORD_LIMIT <= c <= COORD_LIMIT,
        ensures
            r < BY,
            r as int == spec_cell_index(c as int),
    {
        let v = c + HALF_WORLD_MILLI;
        if v < 0 {
            return 0;
        }
        let q = ((v as u64) / (MUL_MILLI as u64)) as usize;
        if q >= BY {
            BY - 1
        } else {
            q
        }
    }

    pub fn set_player_position(&mut self, x: i64, z: i64)
        ensures
            final(self).player_pos == (Vec3i { x, y: old(self).player_pos.y, z }),
            final(self).land@ == old(self).land@,
            final(self).to_display@ == old(self).to_display@,
            final(self).wf() == old(self).wf(),
    {
        self.player_pos.x = x;
        self.player_pos.z = z;
        proof {
            assert(final(self).wf() == old(self).wf()) by {
                reveal(Ground::wf);
            }
        }
    }

    /// The cell under a world point.
    pub fn currently_under_landscape(&self, x: i64, z: i64) -> (r: &Landscape)
        requires
            self.wf(),
            -COORD_LIMIT <= x <= COORD_LIMIT,
            -COORD_LIMIT <= z <= COORD_LIMIT,
        ensures
            *r == self.spec_cell_at(x as int, z as int),
            r.wf(),
    {
        proof {
            reveal(Ground::wf);
        }
        let (xx, zz) = Ground::get_current_cell(x, z);
        &self.land[zz][xx]
    }

    /// The smallest road/obstacle polygon containing the world point, if any;
    /// resolved in the cell the point falls in.
    pub fn object_at(&self, x: i64, z: i64) -> (r: Option<&LandscapeObject>)
        requires
            self.wf(),
            -COORD_LIMIT <= x <= COORD_LIMIT,
            -COORD_LIMIT <= z <= COORD_LIMIT,
        ensures
            ({
                let cell = self.spec_cell_at(x as int, z as int);
                match spec_object_pick(cell.landscape_objects@, x - cell.xyz.x, z - cell.xyz.z) {
                    Option::None => r is None,
                    Option::Some(k) => r matches Option::Some(o) && *o
                        == cell.landscape_objects@[k],
                }
            }),
    {
        proof {
            reveal(Ground::wf);
        }
        let (xx, zz) = Ground::get_current_cell(x, z);
        self.land[zz][xx].object_at(x, z)
    }

    /// The first scenery entry whose collision disc covers the world point,
    /// with the origin of the cell it lives in.
    pub fn scenery_at(&self, x: i64, z: i64) -> (r: (Option<&Scenery>, &Vec3i))
        requires
            self.wf(),
            -COORD_LIMIT <= x <= COORD_LIMIT,
            -COORD_LIMIT <= z <= COORD_LIMIT,
        ensures
            ({
                let cell = self.spec_cell_at(x as int, z as int);
                *r.1 == cell.xyz && match spec_scenery_pick(
                    cell.scenery_instances@,
                    cell.xyz,
                    x as int,
                    z as int,
                    0,
                ) {
                    Option::None => r.0 is None,
                    Option::Some(k) => r.0 matches Option::Some(s) && *s
                        == cell.scenery_instances@[k],
                }
            }),
    {
        proof {
            reveal(Ground::wf);
        }
        let (xx, zz) = Ground::get_current_cell(x, z);
        (self.land[zz][xx].scenery_at(x, z), &self.land[zz][xx].xyz)
    }

    /// Height of the terrain under a world point.
    pub fn position_height(&self, x: i64, z: i64) -> (r: i64)
        requires
            self.wf(),
            -COORD_LIMIT <= x <= COORD_LIMIT,
            -COORD_LIMIT <= z <= COORD_LIMIT,
        ensures
            r == spec_height_at(self.spec_cell_at(x as int, z as int), x as int, z as int),
            -1_000_000 <= r <= 1_000_000,
    {
        proof {
            reveal(Ground::wf);
        }
        let (xx, zz) = Ground::get_current_cell(x, z);
        self.land[zz][xx].position_height(x, z)
    }

    /// Recomputes the derived view of visible cells for this frame.
    pub fn update(&mut self, player_position: Vec3i, camera_angle: i64)
        requires
            old(self).wf(),
            player_position.bounded(COORD_LIMIT as int),
            0 <= camera_angle < 360,
        ensures
            final(self).land@ == old(self).land@,
            final(self).player_pos == old(self).player_pos,
            final(self).wf(),
            final(self).display_ok(player_position, camera_angle as int),
    {
        self.sort_out_what_to_display(player_position, camera_angle);
    }

    /// What the recomputed visible-cell list promises: duplicate-free, holds
    /// the whole 3x3 neighborhood of the centre cell and every fan sample,
    /// and nothing else.
    pub open spec fn display_ok(self, player_position: Vec3i, camera_angle: int) -> bool {
        let cx = spec_cell_index(player_position.x as int);
        let cz = spec_cell_index(player_position.z as int);
        let s = self.to_display@;
        &&& forall|i: int, j: int| 0 <= i < j < s.len() ==> s[i] != s[j]
        &&& forall|p: (i32, i32)| #[trigger]
            s.contains(p) ==> spec_visible_allowed((p.0 as int, p.1 as int), cx, cz, camera_angle)
        &&& forall|px: int, pz: int|
            #![trigger s.contains((px as i32, pz as i32))]
            cx - 1 <= px <= cx + 1 && cz - 1 <= pz <= cz + 1 ==> s.contains(
                ((px as i32, pz as i32)),
            )
        &&& forall|away: int, a: int|
            #![trigger spec_fan_cell(cx, cz, camera_angle, away, a)]
            -1 <= away < 2 * (BY as int) && spec_fan_angle(a) ==> s.contains(
                ((
                    spec_fan_cell(cx, cz, camera_angle, away, a).0 as i32,
                    spec_fan_cell(cx, cz, camera_angle, away, a).1 as i32,
                )),
            )
    }

    /// The visible-cell coordinates computed by the last `update`; raw, to be
    /// wrapped with `wrap_value` before indexing the grid.
    pub fn displayed_cells(&self) -> (r: &Vec<(i32, i32)>)
        ensures
            r@ == self.to_display@,
    {
        &self.to_display
    }

    #[verifier::rlimit(100)]
    fn sort_out_what_to_display(&mut self, player_position: Vec3i, camera_angle: i64)
        requires
            old(self).wf(),
            player_position.bounded(COORD_LIMIT as int),
            0 <= camera_angle < 360,
        ensures
            final(self).land@ == old(self).land@,
            final(self).player_pos == old(self).player_pos,
            final(self).wf(),
            final(self).display_ok(player_position, camera_angle as int),
    {
        self.to_display = Vec::new();
        let (cxu, czu) = Ground::get_current_cell(player_position.x, player_position.z);
        let cx = cxu as i32;
        let cz = czu as i32;
        let ghost gcx = spec_cell_index(player_position.x as int);
        let ghost gcz = spec_cell_index(player_position.z as int);

        // the centre cell and its full ring of neighbours
        let mut dx: i32 = -1;
        while dx <= 1
            invariant
                self.land@ == old(self).land@,
                self.player_pos == old(self).player_pos,
                cx == gcx && cz == gcz,
                0 <= cx < 5 && 0 <= cz < 5,
                -1 <= dx <= 2,
                forall|i: int, j: int|
                    0 <= i < j < self.to_display@.len() ==> self.to_display@[i]
                        != self.to_display@[j],
                forall|p: (i32, i32)| #[trigger]
                    self.to_display@.contains(p) ==> spec_is_neighbor(
                        (p.0 as int, p.1 as int),
                        gcx,
                        gcz,
                    ),
                forall|px: int, pz: int|
                    #![trigger self.to_display@.contains((px as i32, pz as i32))]
                    gcx - 1 <= px < gcx + dx && gcz - 1 <= pz <= gcz + 1
                        ==> self.to_display@.contains(((px as i32, pz as i32))),
            decreases 2 - dx,
        {
            let mut dz: i32 = -1;
            while dz <= 1
                invariant
                    self.land@ == old(self).land@,
                    self.player_pos == old(self).player_pos,
                    cx == gcx && cz == gcz,
                    0 <= cx < 5 && 0 <= cz < 5,
                    -1 <= dx <= 1,
                    -1 <= dz <= 2,
                    forall|i: int, j: int|
                        0 <= i < j < self.to_display@.len() ==> self.to_display@[i]
                            != self.to_display@[j],
                    forall|p: (i32, i32)| #[trigger]
                        self.to_display@.contains(p) ==> spec_is_neighbor(
                            (p.0 as int, p.1 as int),
                            gcx,
                            gcz,
                        ),
                    forall|px: int, pz: int|
                        #![trigger self.to_display@.contains((px as i32, pz as i32))]
                        gcx - 1 <= px < gcx + dx && gcz - 1 <= pz <= gcz + 1
                            ==> self.to_display@.contains(((px as i32, pz as i32))),
                    forall|pz: int|
                        #![trigger self.to_display@.contains(((gcx + dx) as i32, pz as i32))]
                        gcz - 1 <= pz < gcz + dz ==> self.to_display@.contains(
                            (((gcx + dx) as i32, pz as i32)),
                        ),
                decreases 2 - dz,
            {
                insert_cell(&mut self.to_display, (cx + dx, cz + dz));
                dz = dz + 1;
            }
            dx = dx + 1;
        }

        // the forward visibility fan
        let mut away: i64 = -1;
        while away < 2 * (BY as i64)
            invariant
                self.land@ == old(self).land@,
                self.player_pos == old(self).player_pos,
                cx == gcx && cz == gcz,
                0 <= cx < 5 && 0 <= cz < 5,
                0 <= camera_angle < 360,
                -1 <= away <= 2 * (BY as int),
                forall|i: int, j: int|
                    0 <= i < j < self.to_display@.len() ==> self.to_display@[i]
                        != self.to_display@[j],
                forall|p: (i32, i32)| #[trigger]
                    self.to_display@.contains(p) ==> spec_visible_allowed(
                        (p.0 as int, p.1 as int),
                        gcx,
                        gcz,
                        camera_angle as int,
                    ),
                forall|px: int, pz: int|
                    #![trigger self.to_display@.contains((px as i32, pz as i32))]
                    gcx - 1 <= px <= gcx + 1 && gcz - 1 <= pz <= gcz + 1
                        ==> self.to_display@.contains(((px as i32, pz as i32))),
                forall|aw: int, an: int|
                    #![trigger spec_fan_cell(gcx, gcz, camera_angle as int, aw, an)]
                    -1 <= aw < away && spec_fan_angle(an) ==> self.to_display@.contains(
                        ((
                            spec_fan_cell(gcx, gcz, camera_angle as int, aw, an).0 as i32,
                            spec_fan_cell(gcx, gcz, camera_angle as int, aw, an).1 as i32,
                        )),
                    ),
            decreases 2 * (BY as int) - away,
        {
            let mut a: i64 = -120;
            while a < 130
                invariant
                    self.land@ == old(self).land@,
                    self.player_pos == old(self).player_pos,
                    cx == gcx && cz == gcz,
                    0 <= cx < 5 && 0 <= cz < 5,
                    0 <= camera_angle < 360,
                    -1 <= away < 2 * (BY as int),
                    -120 <= a <= 130,
                    a % 5 == 0,
                    forall|i: int, j: int|
                        0 <= i < j < self.to_display@.len() ==> self.to_display@[i]
                            != self.to_display@[j],
                    forall|p: (i32, i32)| #[trigger]
                        self.to_display@.contains(p) ==> spec_visible_allowed(
                            (p.0 as int, p.1 as int),
                            gcx,
                            gcz,
                            camera_angle as int,
                        ),
                    forall|px: int, pz: int|
                        #![trigger self.to_display@.contains((px as i32, pz as i32))]
                        gcx - 1 <= px <= gcx + 1 && gcz - 1 <= pz <= gcz + 1
                            ==> self.to_display@.contains(((px as i32, pz as i32))),
                    forall|aw: int, an: int|
                        #![trigger spec_fan_cell(gcx, gcz, camera_angle as int, aw, an)]
                        -1 <= aw < away && spec_fan_angle(an) ==> self.to_display@.contains(
                            ((
                                spec_fan_cell(gcx, gcz, camera_angle as int, aw, an).0 as i32,
                                spec_fan_cell(gcx, gcz, camera_angle as int, aw, an).1 as i32,
                            )),
                        ),
                    forall|an: int|
                        #![trigger spec_fan_cell(gcx, gcz, camera_angle as int, away as int, an)]
                        -120 <= an < a && an % 5 == 0 ==> self.to_display@.contains(
                            ((
                                spec_fan_cell(gcx, gcz, camera_angle as int, away as int, an).0
                                    as i32,
                                spec_fan_cell(gcx, gcz, camera_angle as int, away as int, an).1
                                    as i32,
                            )),
                        ),
                decreases 130 - a,
            {
                let ang = normalize_mdeg((a - camera_angle) * 1000);
                let s = sin_milli(ang);
                let c = cos_milli(ang);
                proof {
                    assert(-10_000 <= s * away <= 10_000) by (nonlinear_arith)
                        requires
                            -1000 <= s <= 1000 && -1 <= away <= 10,
                    ;
                    assert(-10_000 <= c * away <= 10_000) by (nonlinear_arith)
                        requires
                            -1000 <= c <= 1000 && -1 <= away <= 10,
                    ;
                }
                let sx = div_trunc((cx as i64) * 1000 + s * away, 1000);
                let sz = div_trunc((cz as i64) * 1000 - c * away, 1000);
                proof {
                    assert(-15 <= sx <= 15 && -15 <= sz <= 15);
                    assert((sx as int, sz as int) == spec_fan_cell(
                        gcx,
                        gcz,
                        camera_angle as int,
                        away as int,
                        a as int,
                    ));
                }
                insert_cell(&mut self.to_display, (sx as i32, sz as i32));
                a = a + 5;
            }
            away = away + 1;
        }
        proof {
            assert(self.wf() == old(self).wf()) by {
                reveal(Ground::wf);
            }
        }
    }
}

/// The label of the polygon under a world point, if any.
pub open spec fn spec_road_label(g: Ground, x: int, z: int) -> Option<Seq<u8>> {
    let cell = g.spec_cell_at(x, z);
    match spec_object_pick(cell.landscape_objects@, x - cell.xyz.x, z - cell.xyz.z) {
        Option::None => Option::None,
        Option::Some(k) => Option::Some(cell.landscape_objects@[k].description@),
    }
}

/// Whether any polygon covers the world point. Opaque: the navigation proofs
/// only ever compare calls of it, never open it.
#[verifier::opaque]
pub open spec fn spec_on_polygon(g: Ground, x: int, z: int) -> bool {
    spec_road_label(g, x, z) is Some
}

/// Whether the point is over a polygon whose label holds "road".
pub open spec fn spec_on_road(g: Ground, x: int, z: int) -> bool {
    match spec_road_label(g, x, z) {
        Option::Some(d) => spec_contains_road(d),
        Option::None => false,
    }
}

/// The scenery kind struck at a world point: the cell's first covering
/// scenery entry, when the point also lies inside that entry's body radius.
pub open spec fn spec_scenery_strike(g: Ground, x: int, z: int) -> Option<SceneryType> {
    let cell = g.spec_cell_at(x, z);
    match spec_scenery_pick(cell.scenery_instances@, cell.xyz, x, z, 0) {
        Option::None => Option::None,
        Option::Some(k) => {
            let sc = cell.scenery_instances@[k];
            if sq(cell.xyz.x + sc.position.x - x) + sq(cell.xyz.z + sc.position.z - z)
                < sc.movement_collision.radius * sc.movement_collision.radius {
                Option::Some(sc.scenery_type)
            } else {
                Option::None
            }
        },
    }
}

/// Terrain height under a world point of the grid.
pub open spec fn spec_ground_height(g: Ground, x: int, z: int) -> int {
    spec_height_at(g.spec_cell_at(x, z), x, z)
}

/// Exec twin of `spec_cell_origin`.
fn spec_cell_origin_exec(x: usize, y: usize) -> (r: Vec3i)
    requires
        x < BY,
        y < BY,
    ensures
        r == spec_cell_origin(x as int, y as int),
{
    Vec3i {
        x: (x as i64) * MUL_MILLI - CELL_ORIGIN_OFFSET_MILLI,
        y: 0,
        z: (y as i64) * MUL_MILLI - CELL_ORIGIN_OFFSET_MILLI,
    }
}

} // verus!
