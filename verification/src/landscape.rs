//! One cell of the world: its height field, its labeled road/obstacle
//! polygons and its static scenery, with the spatial queries over them.
//!
//! Cell-local coordinates are milli-units; a cell spans 32 columns by 32 rows
//! of 200 milli-units each, centred on the cell origin.
use vstd::prelude::*;

use crate::geom::{absi, dist2_xz, div_trunc, lemma_tdiv_bound, spec_dist2_xz, sq, tdiv, Vec3i, COORD_LIMIT};
use crate::motion::IdAllocator;
use crate::scenery::{Scenery, SceneryType};

verus! {

/// Side of one height-field square, in milli-units.
pub const SQUARE_SIZE_MILLI: i64 = 200;

pub const SQUARE_ROWS: usize = 32;

pub const SQUARE_COLUMNS: usize = 32;

/// Half of a cell's footprint, in milli-units.
pub const CELL_HALF_MILLI: i64 = 3200;

/// Bound on every world-data coordinate and height, in milli-units.
pub const DATA_LIMIT: i64 = 1_000_000;

/// One sample of a cell's height field.
#[derive(Clone)]
pub struct AtCell {
    pub height: i64,
}

/// A labeled polygon in cell-local space: a road, or a tagged obstacle
/// footprint.
#[derive(Clone)]
pub struct LandscapeObject {
    pub vertices: Vec<Vec3i>,
    pub description: Vec<u8>,
}

impl LandscapeObject {
    pub open spec fn wf(self) -> bool {
        &&& 3 <= self.vertices@.len() <= 4096
        &&& forall|i: int|
            0 <= i < self.vertices@.len() ==> (#[trigger] self.vertices@[i]).bounded(
                DATA_LIMIT as int,
            )
    }
}

/// A cell: height field, polygons and scenery, at a fixed world origin.
pub struct Landscape {
    pub height_map: Vec<Vec<AtCell>>,
    pub xyz: Vec3i,
    pub name: Vec<u8>,
    pub landscape_objects: Vec<LandscapeObject>,
    pub scenery_instances: Vec<Scenery>,
}

/// One record of the world-description input, already split into plain
/// values; coordinates are raw height-field steps in milli-units (1000 per
/// step), as the description file writes them.
pub enum WorldRecord {
    /// An `o` record: a scenery placement of the named kind.
    Object { kind: Vec<u8>, x: i64, y: i64, z: i64 },
    /// A `d` record: the label of the polygon being assembled.
    Description(Vec<u8>),
    /// A plain row: one polygon vertex.
    Vertex { x: i64, y: i64, z: i64 },
    /// An `s` record: side-wall markers, closing the polygon being assembled.
    Sides { s1: bool, s2: bool, s3: bool, s4: bool },
}

// --- assembly of the world-description records -------------------------------
/// The assembly state while the records of one cell are folded: whether any
/// record was malformed so far, the finished polygons (vertices and labels,
/// in parallel), the placed scenery, and the open polygon's buffered rows,
/// label and vertices.
pub struct WorldAssembly {
    pub ok: bool,
    pub object_vertices: Seq<Seq<Vec3i>>,
    pub object_labels: Seq<Seq<u8>>,
    pub sceneries: Seq<(SceneryType, Vec3i)>,
    pub rows: Seq<Vec3i>,
    pub label: Seq<u8>,
    pub verts: Seq<Vec3i>,
}

/// The numeric range a raw record coordinate must lie in.
pub open spec fn spec_record_in_range(x: int, y: int, z: int) -> bool {
    &&& -4_000_000 <= x <= 4_000_000
    &&& -4_000_000 <= y <= 4_000_000
    &&& -4_000_000 <= z <= 4_000_000
}

/// A raw record coordinate scaled into cell-local milli-units: one fifth of
/// the raw value (200 milli-units per 1000-milli step), the ground axes
/// shifted to the cell centre.
pub open spec fn spec_scaled_vertex(x: int, y: int, z: int) -> Vec3i {
    Vec3i {
        x: (tdiv(x, 5) - CELL_HALF_MILLI) as i64,
        y: tdiv(y, 5) as i64,
        z: (tdiv(z, 5) - CELL_HALF_MILLI) as i64,
    }
}

/// The scenery kind a placement record names, if a known one: the bytes of
/// "tree", "house" or "office1".
pub open spec fn spec_kind_of(kind: Seq<u8>) -> Option<SceneryType> {
    if kind.len() == 4 && kind[0] == 116 && kind[1] == 114 && kind[2] == 101 && kind[3] == 101 {
        Option::Some(SceneryType::TREE)
    } else if kind.len() == 5 && kind[0] == 104 && kind[1] == 111 && kind[2] == 117 && kind[3]
        == 115 && kind[4] == 101 {
        Option::Some(SceneryType::HOUSE)
    } else if kind.len() == 7 && kind[0] == 111 && kind[1] == 102 && kind[2] == 102 && kind[3]
        == 105 && kind[4] == 99 && kind[5] == 101 && kind[6] == 49 {
        Option::Some(SceneryType::OFFICE1)
    } else {
        Option::None
    }
}

pub open spec fn spec_assembly_init() -> WorldAssembly {
    WorldAssembly {
        ok: true,
        object_vertices: Seq::empty(),
        object_labels: Seq::empty(),
        sceneries: Seq::empty(),
        rows: Seq::empty(),
        label: Seq::empty(),
        verts: Seq::empty(),
    }
}

/// One record folded into the assembly: an out-of-range coordinate, an
/// overgrown polygon or one closed with fewer than three vertices fails it; a
/// placement of a known kind adds scenery; a label record names the open
/// polygon; a vertex row is scaled and buffered, the fourth row of a group
/// entering as the strip third-current-first; a side record closes the open
/// polygon.
pub open spec fn spec_assemble_step(st: WorldAssembly, rec: WorldRecord) -> WorldAssembly {
    if !st.ok {
        st
    } else {
        match rec {
            WorldRecord::Object { kind, x, y, z } => {
                if !spec_record_in_range(x as int, y as int, z as int) {
                    WorldAssembly { ok: false, ..st }
                } else {
                    match spec_kind_of(kind@) {
                        Option::Some(k) => WorldAssembly {
                            sceneries: st.sceneries.push(
                                (k, spec_scaled_vertex(x as int, y as int, z as int)),
                            ),
                            ..st
                        },
                        Option::None => st,
                    }
                }
            },
            WorldRecord::Description(d) => WorldAssembly { label: d@, ..st },
            WorldRecord::Vertex { x, y, z } => {
                if !spec_record_in_range(x as int, y as int, z as int) {
                    WorldAssembly { ok: false, ..st }
                } else {
                    let v = spec_scaled_vertex(x as int, y as int, z as int);
                    let rows2 = st.rows.push(v);
                    let verts2 = if rows2.len() == 4 {
                        st.verts.push(rows2[2]).push(v).push(rows2[0])
                    } else {
                        st.verts.push(v)
                    };
                    if verts2.len() > 4096 {
                        WorldAssembly { ok: false, ..st }
                    } else {
                        WorldAssembly { rows: rows2, verts: verts2, ..st }
                    }
                }
            },
            WorldRecord::Sides { s1, s2, s3, s4 } => {
                if st.verts.len() < 3 {
                    WorldAssembly { ok: false, ..st }
                } else {
                    WorldAssembly {
                        object_vertices: st.object_vertices.push(st.verts),
                        object_labels: st.object_labels.push(st.label),
                        rows: Seq::empty(),
                        label: Seq::empty(),
                        verts: Seq::empty(),
                        ..st
                    }
                }
            },
        }
    }
}

/// The records of one cell, folded in order.
pub open spec fn spec_assemble(records: Seq<WorldRecord>) -> WorldAssembly
    decreases records.len(),
{
    if records.len() == 0 {
        spec_assembly_init()
    } else {
        spec_assemble_step(spec_assemble(records.drop_last()), records.last())
    }
}

/// A failed assembly never recovers: once a record is malformed, the whole
/// record list is.
pub proof fn lemma_assemble_fail_sticky(records: Seq<WorldRecord>, i: int)
    requires
        0 <= i <= records.len(),
        !spec_assemble(records.subrange(0, i)).ok,
    ensures
        !spec_assemble(records).ok,
    decreases records.len() - i,
{
    if i == records.len() {
        assert(records.subrange(0, i) =~= records);
    } else {
        assert(records.subrange(0, i + 1).drop_last() =~= records.subrange(0, i));
        assert(records.subrange(0, i + 1).last() == records[i]);
        lemma_assemble_fail_sticky(records, i + 1);
    }
}

// --- "road" in a label -----------------------------------------------------
/// The bytes of "road".
pub open spec fn spec_is_road_at(s: Seq<u8>, i: int) -> bool {
    s[i] == 114 && s[i + 1] == 111 && s[i + 2] == 97 && s[i + 3] == 100
}

pub open spec fn spec_contains_road(s: Seq<u8>) -> bool {
    exists|i: int| 0 <= i && i + 4 <= s.len() && spec_is_road_at(s, i)
}

pub open spec fn spec_starts_with_road(s: Seq<u8>) -> bool {
    s.len() >= 4 && spec_is_road_at(s, 0)
}

/// Whether a polygon label holds the bytes "road" anywhere.
pub fn description_contains_road(v: &Vec<u8>) -> (b: bool)
    ensures
        b == spec_contains_road(v@),
{
    if v.len() < 4 {
        return false;
    }
    let n = v.len() - 3;
    let mut i: usize = 0;
    while i < n
        invariant
            v@.len() >= 4,
            n == v@.len() - 3,
            n + 3 <= usize::MAX,
            i <= n,
            forall|j: int| 0 <= j < i ==> !spec_is_road_at(v@, j),
        decreases n - i,
    {
        proof {
            assert(i + 3 < v@.len());
        }
        if v[i] == 114 && v[i + 1] == 111 && v[i + 2] == 97 && v[i + 3] == 100 {
            proof {
                assert(spec_is_road_at(v@, i as int));
            }
            return true;
        }
        i = i + 1;
    }
    false
}

/// Whether a polygon label begins with the bytes "road".
pub fn description_starts_with_road(v: &Vec<u8>) -> (b: bool)
    ensures
        b == spec_starts_with_road(v@),
{
    v.len() >= 4 && v[0] == 114 && v[1] == 111 && v[2] == 97 && v[3] == 100
}

/// Copies a byte string.
pub fn copy_bytes(v: &Vec<u8>) -> (r: Vec<u8>)
    ensures
        r@ == v@,
{
    let mut r: Vec<u8> = Vec::new();
    let mut i: usize = 0;
    while i < v.len()
        invariant
            i <= v@.len(),
            r@ == v@.subrange(0, i as int),
        decreases v@.len() - i,
    {
        r.push(v[i]);
        i = i + 1;
    }
    proof {
        assert(r@ == v@.subrange(0, v@.len() as int));
        assert(v@.subrange(0, v@.len() as int) == v@);
    }
    r
}

// --- point-in-polygon ------------------------------------------------------
/// Whether the ray cast in the positive-x direction from `(x, z)` crosses the
/// edge from vertex `a` to previous vertex `b`: the edge straddles the query
/// row and the exact intersection abscissa lies left of `x`.
pub open spec fn spec_edge_crosses(x: int, z: int, a: Vec3i, b: Vec3i) -> bool {
    ((a.z < z && b.z >= z) || (b.z < z && a.z >= z)) && (if b.z > a.z {
        (z - a.z) * (b.x - a.x) < (x - a.x) * (b.z - a.z)
    } else {
        (z - a.z) * (b.x - a.x) > (x - a.x) * (b.z - a.z)
    })
}

/// Crossing parity over the first `n` edges, edge `i` running from vertex `i`
/// back to vertex `i - 1` (vertex `len - 1` for `i == 0`).
pub open spec fn spec_contains_upto(x: int, z: int, vs: Seq<Vec3i>, n: int) -> bool
    decreases n,
{
    if n <= 0 {
        false
    } else {
        let i = n - 1;
        let j = if i == 0 {
            vs.len() - 1
        } else {
            i - 1
        };
        spec_contains_upto(x, z, vs, n - 1) != spec_edge_crosses(x, z, vs[i], vs[j])
    }
}

/// Ray-crossing point-in-polygon test in cell-local coordinates.
pub open spec fn spec_polygon_contains(x: int, z: int, vs: Seq<Vec3i>) -> bool {
    spec_contains_upto(x, z, vs, vs.len() as int)
}

pub fn polygon_contains_x_z(x: i64, z: i64, p_xyz: &Vec<Vec3i>) -> (b: bool)
    requires
        p_xyz@.len() >= 1,
        -4_000_000 <= x <= 4_000_000,
        -4_000_000 <= z <= 4_000_000,
        forall|i: int|
            0 <= i < p_xyz@.len() ==> (#[trigger] p_xyz@[i]).bounded(DATA_LIMIT as int),
    ensures
        b == spec_polygon_contains(x as int, z as int, p_xyz@),
{
    let mut j = p_xyz.len() - 1;
    let mut does_contain = false;
    let mut i: usize = 0;
    while i < p_xyz.len()
        invariant
            p_xyz@.len() >= 1,
            i <= p_xyz@.len(),
            j == (if i == 0 {
                p_xyz@.len() - 1
            } else {
                i - 1
            }),
            -4_000_000 <= x <= 4_000_000,
            -4_000_000 <= z <= 4_000_000,
            forall|k: int|
                0 <= k < p_xyz@.len() ==> (#[trigger] p_xyz@[k]).bounded(DATA_LIMIT as int),
            does_contain == spec_contains_upto(x as int, z as int, p_xyz@, i as int),
        decreases p_xyz@.len() - i,
    {
        let a = p_xyz[i];
        let b = p_xyz[j];
        if (a.z < z && b.z >= z) || (b.z < z && a.z >= z) {
            proof {
                assert((z - a.z) * (b.x - a.x) <= 10_000_000_000_000 && (z - a.z) * (b.x - a.x)
                    >= -10_000_000_000_000) by (nonlinear_arith)
                    requires
                        -5_000_000 <= z - a.z <= 5_000_000 && -2_000_000 <= b.x - a.x
                            <= 2_000_000,
                ;
                assert((x - a.x) * (b.z - a.z) <= 10_000_000_000_000 && (x - a.x) * (b.z - a.z)
                    >= -10_000_000_000_000) by (nonlinear_arith)
                    requires
                        -5_000_000 <= x - a.x <= 5_000_000 && -2_000_000 <= b.z - a.z
                            <= 2_000_000,
                ;
            }
            let lhs = (z - a.z) * (b.x - a.x);
            let rhs = (x - a.x) * (b.z - a.z);
            let crosses = if b.z > a.z {
                lhs < rhs
            } else {
                lhs > rhs
            };
            does_contain = does_contain != crosses;
        }
        j = i;
        i = i + 1;
    }
    does_contain
}

// --- shoelace area ---------------------------------------------------------
/// Partial shoelace sum over the first `n` vertices, each weighted by the
/// z-difference of its cyclic neighbours.
pub open spec fn spec_shoelace_upto(vs: Seq<Vec3i>, n: int) -> int
    decreases n,
{
    if n <= 0 {
        0
    } else {
        let i = n - 1;
        let zn = if i == vs.len() - 1 {
            vs[0].z
        } else {
            vs[i + 1].z
        };
        let zp = if i == 0 {
            vs[vs.len() - 1].z
        } else {
            vs[i - 1].z
        };
        spec_shoelace_upto(vs, n - 1) + vs[i].x * (zn - zp)
    }
}

/// Twice the planar area of a polygon, in squared milli-units; comparisons
/// between polygons are unaffected by the factor.
pub open spec fn spec_area2(vs: Seq<Vec3i>) -> int {
    absi(spec_shoelace_upto(vs, vs.len() as int))
}

pub fn area2_x_z(vertices: &Vec<Vec3i>) -> (r: i64)
    requires
        3 <= vertices@.len() <= 4096,
        forall|i: int|
            0 <= i < vertices@.len() ==> (#[trigger] vertices@[i]).bounded(DATA_LIMIT as int),
    ensures
        r == spec_area2(vertices@),
        0 <= r <= 0x4000_0000_0000_0000,
{
    let mut sum: i64 = 0;
    let mut i: usize = 0;
    while i < vertices.len()
        invariant
            3 <= vertices@.len() <= 4096,
            i <= vertices@.len(),
            forall|k: int|
                0 <= k < vertices@.len() ==> (#[trigger] vertices@[k]).bounded(DATA_LIMIT as int),
            sum == spec_shoelace_upto(vertices@, i as int),
            -4_000_000_000_000 * (i as int) <= sum <= 4_000_000_000_000 * (i as int),
        decreases vertices@.len() - i,
    {
        let zn = if i == vertices.len() - 1 {
            vertices[0].z
        } else {
            vertices[i + 1].z
        };
        let zp = if i == 0 {
            vertices[vertices.len() - 1].z
        } else {
            vertices[i - 1].z
        };
        let x = vertices[i].x;
        proof {
            assert(x * (zn - zp) <= 4_000_000_000_000 && x * (zn - zp) >= -4_000_000_000_000)
                by (nonlinear_arith)
                requires
                    -1_000_000 <= x <= 1_000_000 && -4_000_000 <= zn - zp <= 4_000_000,
            ;
            assert(4_000_000_000_000 * (i as int) + 4_000_000_000_000 == 4_000_000_000_000 * (
            i as int + 1)) by (nonlinear_arith);
            assert(4_000_000_000_000 * (i as int + 1) <= 4_000_000_000_000 * 4096)
                by (nonlinear_arith)
                requires
                    i as int + 1 <= 4096,
            ;
        }
        sum = sum + x * (zn - zp);
        i = i + 1;
    }
    if sum >= 0 {
        sum
    } else {
        -sum
    }
}

// --- smallest containing polygon -------------------------------------------
/// The index the polygon scan settles on: the containing polygon of strictly
/// smallest doubled area, the earliest among equal minima.
pub open spec fn spec_object_pick(objs: Seq<LandscapeObject>, x: int, z: int) -> Option<int>
    decreases objs.len(),
{
    if objs.len() == 0 {
        Option::None
    } else {
        let prev = spec_object_pick(objs.drop_last(), x, z);
        let i = objs.len() - 1;
        let better = match prev {
            Option::None => true,
            Option::Some(p) => spec_area2(objs[i].vertices@) < spec_area2(objs[p].vertices@),
        };
        if better && spec_polygon_contains(x, z, objs[i].vertices@) {
            Option::Some(i as int)
        } else {
            prev
        }
    }
}

/// The law of the polygon scan: when it settles on a polygon, that polygon
/// contains the point and has strictly smaller doubled area than every other
/// containing polygon, equal-area ties resolved to the earliest; when it
/// settles on none, no polygon contains the point.
pub proof fn lemma_object_pick_props(objs: Seq<LandscapeObject>, x: int, z: int)
    ensures
        match spec_object_pick(objs, x, z) {
            Option::None => forall|j: int|
                0 <= j < objs.len() ==> !spec_polygon_contains(x, z, (#[trigger] objs[j]).vertices@),
            Option::Some(k) => {
                &&& 0 <= k < objs.len()
                &&& spec_polygon_contains(x, z, objs[k].vertices@)
                &&& forall|j: int|
                    0 <= j < objs.len() && spec_polygon_contains(
                        x,
                        z,
                        (#[trigger] objs[j]).vertices@,
                    ) ==> (spec_area2(objs[k].vertices@) < spec_area2(objs[j].vertices@) || (
                    spec_area2(objs[k].vertices@) == spec_area2(objs[j].vertices@) && k <= j))
            },
        },
    decreases objs.len(),
{
    let n = objs.len() as int;
    if n > 0 {
        let pre = objs.drop_last();
        lemma_object_pick_props(pre, x, z);
        assert(pre.len() == n - 1);
        assert forall|j: int| 0 <= j < n - 1 implies #[trigger] pre[j] == objs[j] by {}
        let prev = spec_object_pick(pre, x, z);
        let last_in = spec_polygon_contains(x, z, objs[n - 1].vertices@);
        match prev {
            Option::None => {
                if last_in {
                    assert(spec_object_pick(objs, x, z) == Option::Some(n - 1));
                    assert forall|j: int|
                        0 <= j < n && spec_polygon_contains(
                            x,
                            z,
                            (#[trigger] objs[j]).vertices@,
                        ) implies (spec_area2(objs[n - 1].vertices@) < spec_area2(objs[j].vertices@)
                        || (spec_area2(objs[n - 1].vertices@) == spec_area2(objs[j].vertices@) && n
                            - 1 <= j)) by {
                        if j < n - 1 {
                            assert(!spec_polygon_contains(x, z, pre[j].vertices@));
                        }
                    }
                } else {
                    assert(spec_object_pick(objs, x, z) is None);
                    assert forall|j: int|
                        0 <= j < n implies !spec_polygon_contains(
                        x,
                        z,
                        (#[trigger] objs[j]).vertices@,
                    ) by {
                        if j < n - 1 {
                            assert(!spec_polygon_contains(x, z, pre[j].vertices@));
                        }
                    }
                }
            },
            Option::Some(p) => {
                let better = spec_area2(objs[n - 1].vertices@) < spec_area2(objs[p].vertices@);
                if better && last_in {
                    assert(spec_object_pick(objs, x, z) == Option::Some(n - 1));
                    assert forall|j: int|
                        0 <= j < n && spec_polygon_contains(
                            x,
                            z,
                            (#[trigger] objs[j]).vertices@,
                        ) implies (spec_area2(objs[n - 1].vertices@) < spec_area2(objs[j].vertices@)
                        || (spec_area2(objs[n - 1].vertices@) == spec_area2(objs[j].vertices@) && n
                            - 1 <= j)) by {
                        if j < n - 1 {
                            assert(spec_polygon_contains(x, z, pre[j].vertices@));
                        }
                    }
                } else {
                    assert(spec_object_pick(objs, x, z) == Option::Some(p));
                    assert forall|j: int|
                        0 <= j < n && spec_polygon_contains(
                            x,
                            z,
                            (#[trigger] objs[j]).vertices@,
                        ) implies (spec_area2(objs[p].vertices@) < spec_area2(objs[j].vertices@) || (
                        spec_area2(objs[p].vertices@) == spec_area2(objs[j].vertices@) && p
                            <= j)) by {
                        if j < n - 1 {
                            assert(spec_polygon_contains(x, z, pre[j].vertices@));
                        }
                    }
                }
            },
        }
    }
}

/// The scenery scan finds an in-range index whose disc covers the point, or
/// no disc at or after `i` covers it.
pub proof fn lemma_scenery_pick_props(scs: Seq<Scenery>, cell: Vec3i, x: int, z: int, i: int)
    requires
        0 <= i,
    ensures
        match spec_scenery_pick(scs, cell, x, z, i) {
            Option::None => forall|j: int|
                i <= j < scs.len() ==> !spec_scenery_hit(#[trigger] scs[j], cell, x, z),
            Option::Some(k) => i <= k < scs.len() && spec_scenery_hit(scs[k], cell, x, z),
        },
    decreases scs.len() - i,
{
    if 0 <= i < scs.len() {
        if !spec_scenery_hit(scs[i], cell, x, z) {
            lemma_scenery_pick_props(scs, cell, x, z, i + 1);
        }
    }
}

impl Landscape {
    /// Opaque: callers carry it as a fact; only the cell's own methods open it.
    #[verifier::opaque]
    pub open spec fn wf(self) -> bool {
        &&& self.xyz.bounded(DATA_LIMIT as int)
        &&& self.height_map@.len() == 32
        &&& forall|r: int| 0 <= r < 32 ==> (#[trigger] self.height_map@[r])@.len() == 32
        &&& forall|r: int, c: int|
            0 <= r < 32 && 0 <= c < 32 ==> -1_000_000 <= (#[trigger] self.height_map@[r]@[c]).height
                <= 1_000_000
        &&& forall|i: int|
            0 <= i < self.landscape_objects@.len() ==> (#[trigger] self.landscape_objects@[i]).wf()
        &&& forall|i: int|
            0 <= i < self.scenery_instances@.len() ==> (#[trigger] self.scenery_instances@[i]).wf()
    }

    /// The bounds `from_parts` validates on the origin and the height field.
    pub open spec fn spec_cell_frame_ok(xyz: Vec3i, height_map: Seq<Vec<AtCell>>) -> bool {
        &&& xyz.bounded(DATA_LIMIT as int)
        &&& height_map.len() == 32
        &&& forall|r: int| 0 <= r < 32 ==> (#[trigger] height_map[r])@.len() == 32
        &&& forall|r: int, c: int|
            0 <= r < 32 && 0 <= c < 32 ==> -1_000_000 <= (#[trigger] height_map[r]@[c]).height
                <= 1_000_000
    }

    /// Every bound `from_parts` validates, as one predicate over the parts.
    pub open spec fn spec_parts_ok(
        xyz: Vec3i,
        height_map: Seq<Vec<AtCell>>,
        landscape_objects: Seq<LandscapeObject>,
        scenery_instances: Seq<Scenery>,
    ) -> bool {
        &&& Landscape::spec_cell_frame_ok(xyz, height_map)
        &&& forall|i: int|
            0 <= i < landscape_objects.len() ==> (#[trigger] landscape_objects[i]).wf()
        &&& forall|i: int|
            0 <= i < scenery_instances.len() ==> (#[trigger] scenery_instances[i]).wf()
    }

    /// Builds a cell from already-assembled parts, validating every bound the
    /// queries rely on; it fails exactly on a part out of bounds, the fatal
    /// malformed-world outcome.
    pub fn from_parts(
        xyz: Vec3i,
        name: Vec<u8>,
        height_map: Vec<Vec<AtCell>>,
        landscape_objects: Vec<LandscapeObject>,
        scenery_instances: Vec<Scenery>,
    ) -> (r: Option<Landscape>)
        ensures
            r is Some <==> Landscape::spec_parts_ok(
                xyz,
                height_map@,
                landscape_objects@,
                scenery_instances@,
            ),
            match r {
                Option::Some(l) => l.wf() && l.xyz == xyz && l.name@ == name@
                    && l.height_map@ == height_map@ && l.landscape_objects@
                    == landscape_objects@ && l.scenery_instances@ == scenery_instances@,
                Option::None => true,
            },
    {
        proof {
            reveal(Landscape::wf);
        }
        if !(xyz.x >= -DATA_LIMIT && xyz.x <= DATA_LIMIT && xyz.y >= -DATA_LIMIT && xyz.y
            <= DATA_LIMIT && xyz.z >= -DATA_LIMIT && xyz.z <= DATA_LIMIT) {
            return None;
        }
        if height_map.len() != 32 {
            return None;
        }
        let mut r: usize = 0;
        while r < 32
            invariant
                height_map@.len() == 32,
                r <= 32,
                forall|k: int| 0 <= k < r ==> (#[trigger] height_map@[k])@.len() == 32,
                forall|k: int, c: int|
                    0 <= k < r && 0 <= c < 32 ==> -1_000_000 <= (
                    #[trigger] height_map@[k]@[c]).height <= 1_000_000,
            decreases 32 - r,
        {
            let row = &height_map[r];
            if row.len() != 32 {
                proof {
                    assert(height_map@[r as int]@.len() != 32);
                }
                return None;
            }
            let mut c: usize = 0;
            while c < 32
                invariant
                    height_map@.len() == 32,
                    r < 32,
                    row == &height_map@[r as int],
                    row@.len() == 32,
                    c <= 32,
                    forall|k: int|
                        0 <= k < c ==> -1_000_000 <= (#[trigger] row@[k]).height <= 1_000_000,
                decreases 32 - c,
            {
                if row[c].height < -1_000_000 || row[c].height > 1_000_000 {
                    proof {
                        assert(!(-1_000_000 <= height_map@[r as int]@[c as int].height
                            <= 1_000_000));
                    }
                    return None;
                }
                c = c + 1;
            }
            r = r + 1;
        }
        let mut i: usize = 0;
        while i < landscape_objects.len()
            invariant
                i <= landscape_objects@.len(),
                forall|k: int| 0 <= k < i ==> (#[trigger] landscape_objects@[k]).wf(),
            decreases landscape_objects@.len() - i,
        {
            let o = &landscape_objects[i];
            if o.vertices.len() < 3 || o.vertices.len() > 4096 {
                proof {
                    assert(!landscape_objects@[i as int].wf());
                }
                return None;
            }
            let mut v: usize = 0;
            while v < o.vertices.len()
                invariant
                    i < landscape_objects@.len(),
                    o == &landscape_objects@[i as int],
                    v <= o.vertices@.len(),
                    forall|k: int|
                        0 <= k < v ==> (#[trigger] o.vertices@[k]).bounded(DATA_LIMIT as int),
                decreases o.vertices@.len() - v,
            {
                let p = o.vertices[v];
                if p.x < -DATA_LIMIT || p.x > DATA_LIMIT || p.y < -DATA_LIMIT || p.y > DATA_LIMIT
                    || p.z < -DATA_LIMIT || p.z > DATA_LIMIT {
                    proof {
                        assert(!landscape_objects@[i as int].vertices@[v as int].bounded(
                            DATA_LIMIT as int,
                        ));
                        assert(!landscape_objects@[i as int].wf());
                    }
                    return None;
                }
                v = v + 1;
            }
            i = i + 1;
        }
        let mut s: usize = 0;
        while s < scenery_instances.len()
            invariant
                s <= scenery_instances@.len(),
                forall|k: int| 0 <= k < s ==> (#[trigger] scenery_instances@[k]).wf(),
            decreases scenery_instances@.len() - s,
        {
            let sc = &scenery_instances[s];
            if !(sc.position.x >= -DATA_LIMIT && sc.position.x <= DATA_LIMIT && sc.position.y
                >= -DATA_LIMIT && sc.position.y <= DATA_LIMIT && sc.position.z >= -DATA_LIMIT
                && sc.position.z <= DATA_LIMIT) {
                proof {
                    assert(!scenery_instances@[s as int].wf());
                }
                return None;
            }
            if sc.collision_radius < 0 || sc.collision_radius > 100_000
                || sc.movement_collision.radius < 0 || sc.movement_collision.radius > 100_000 {
                proof {
                    assert(!scenery_instances@[s as int].wf());
                }
                return None;
            }
            if !(sc.movement_collision.position.x == sc.position.x
                && sc.movement_collision.position.y == sc.position.y
                && sc.movement_collision.position.z == sc.position.z) {
                proof {
                    assert(!scenery_instances@[s as int].wf());
                }
                return None;
            }
            s = s + 1;
        }
        Some(Landscape { height_map, xyz, name, landscape_objects, scenery_instances })
    }

    /// Builds a cell from the records of one world-description file, exactly
    /// as `spec_assemble` states it: vertex rows are grouped into labeled
    /// polygons, each closed by a side-marker record; `o` records place
    /// scenery of a known kind; raw coordinates are scaled into cell-local
    /// milli-units. It fails exactly when a record is malformed or the origin
    /// or height field is out of bounds — the fatal malformed-world outcome.
    #[verifier::rlimit(100)]
    pub fn new(
        xyz: Vec3i,
        name: Vec<u8>,
        height_map: Vec<Vec<AtCell>>,
        records: Vec<WorldRecord>,
        ids: &mut IdAllocator,
    ) -> (r: Option<Landscape>)
        requires
            old(ids).next + records@.len() < u128::MAX,
        ensures
            ({
                let a = spec_assemble(records@);
                &&& (r is Some <==> (a.ok && Landscape::spec_cell_frame_ok(xyz, height_map@)))
                &&& match r {
                    Option::Some(l) => {
                        &&& l.wf()
                        &&& l.xyz == xyz
                        &&& l.name@ == name@
                        &&& l.height_map@ == height_map@
                        &&& l.landscape_objects@.len() == a.object_vertices.len()
                        &&& forall|i: int|
                            0 <= i < a.object_vertices.len() ==> (
                            #[trigger] l.landscape_objects@[i]).vertices@ == a.object_vertices[i]
                        &&& forall|i: int|
                            0 <= i < a.object_labels.len() ==> (
                            #[trigger] l.landscape_objects@[i]).description@ == a.object_labels[i]
                        &&& l.scenery_instances@.len() == a.sceneries.len()
                        &&& forall|i: int|
                            0 <= i < a.sceneries.len() ==> {
                                let sc = #[trigger] l.scenery_instances@[i];
                                &&& sc.scenery_type == a.sceneries[i].0
                                &&& sc.position == a.sceneries[i].1
                                &&& sc.movement_collision.id == old(ids).next + i
                            }
                        &&& final(ids).next == old(ids).next + a.sceneries.len()
                    },
                    Option::None => old(ids).next <= final(ids).next <= old(ids).next
                        + records@.len(),
                }
            }),
    {
        let mut landscape_objects: Vec<LandscapeObject> = Vec::new();
        let mut scenery_instances: Vec<Scenery> = Vec::new();
        let mut rows: Vec<Vec3i> = Vec::new();
        let mut cur_desc: Vec<u8> = Vec::new();
        let mut cur_verts: Vec<Vec3i> = Vec::new();
        let mut i: usize = 0;
        while i < records.len()
            invariant
                i <= records@.len(),
                old(ids).next + records@.len() < u128::MAX,
                spec_assemble(records@.subrange(0, i as int)).ok,
                spec_assemble(records@.subrange(0, i as int)).sceneries.len() <= i,
                landscape_objects@.len() == spec_assemble(
                    records@.subrange(0, i as int),
                ).object_vertices.len(),
                spec_assemble(records@.subrange(0, i as int)).object_labels.len()
                    == spec_assemble(records@.subrange(0, i as int)).object_vertices.len(),
                forall|k: int|
                    0 <= k < landscape_objects@.len() ==> (
                    #[trigger] landscape_objects@[k]).vertices@ == spec_assemble(
                        records@.subrange(0, i as int),
                    ).object_vertices[k],
                forall|k: int|
                    0 <= k < landscape_objects@.len() ==> (
                    #[trigger] landscape_objects@[k]).description@ == spec_assemble(
                        records@.subrange(0, i as int),
                    ).object_labels[k],
                forall|k: int|
                    0 <= k < landscape_objects@.len() ==> (
                    #[trigger] landscape_objects@[k]).wf(),
                scenery_instances@.len() == spec_assemble(
                    records@.subrange(0, i as int),
                ).sceneries.len(),
                forall|k: int|
                    0 <= k < scenery_instances@.len() ==> {
                        let sc = #[trigger] scenery_instances@[k];
                        &&& sc.scenery_type == spec_assemble(
                            records@.subrange(0, i as int),
                        ).sceneries[k].0
                        &&& sc.position == spec_assemble(
                            records@.subrange(0, i as int),
                        ).sceneries[k].1
                        &&& sc.movement_collision.id == old(ids).next + k
                        &&& sc.wf()
                    },
                ids.next == old(ids).next + spec_assemble(
                    records@.subrange(0, i as int),
                ).sceneries.len(),
                rows@ == spec_assemble(records@.subrange(0, i as int)).rows,
                cur_desc@ == spec_assemble(records@.subrange(0, i as int)).label,
                cur_verts@ == spec_assemble(records@.subrange(0, i as int)).verts,
                cur_verts@.len() <= 4096,
                forall|k: int|
                    0 <= k < cur_verts@.len() ==> (#[trigger] cur_verts@[k]).bounded(
                        DATA_LIMIT as int,
                    ),
                forall|k: int|
                    0 <= k < rows@.len() ==> (#[trigger] rows@[k]).bounded(DATA_LIMIT as int),
            decreases records@.len() - i,
        {
            proof {
                assert(records@.subrange(0, i + 1).drop_last() =~= records@.subrange(0, i as int));
                assert(records@.subrange(0, i + 1).last() == records@[i as int]);
            }
            let rec = &records[i];
            match rec {
                WorldRecord::Object { kind, x, y, z } => {
                    if *x < -4_000_000 || *x > 4_000_000 || *y < -4_000_000 || *y > 4_000_000
                        || *z < -4_000_000 || *z > 4_000_000 {
                        proof {
                            lemma_assemble_fail_sticky(records@, i + 1);
                        }
                        return None;
                    }
                    proof {
                        lemma_tdiv_bound(*x as int, 5, 4_000_000);
                        lemma_tdiv_bound(*y as int, 5, 4_000_000);
                        lemma_tdiv_bound(*z as int, 5, 4_000_000);
                    }
                    let pos = Vec3i {
                        x: div_trunc(*x, 5) - CELL_HALF_MILLI,
                        y: div_trunc(*y, 5),
                        z: div_trunc(*z, 5) - CELL_HALF_MILLI,
                    };
                    // the bytes of "tree", "house" and "office1"
                    let is_tree = kind.len() == 4 && kind[0] == 116 && kind[1] == 114 && kind[2]
                        == 101 && kind[3] == 101;
                    let is_house = kind.len() == 5 && kind[0] == 104 && kind[1] == 111 && kind[2]
                        == 117 && kind[3] == 115 && kind[4] == 101;
                    let is_office1 = kind.len() == 7 && kind[0] == 111 && kind[1] == 102 && kind[2]
                        == 102 && kind[3] == 105 && kind[4] == 99 && kind[5] == 101 && kind[6]
                        == 49;
                    let ghost snap = scenery_instances@;
                    if is_tree {
                        let sc = Scenery::new_tree(pos, ids);
                        scenery_instances.push(sc);
                        proof {
                            assert(scenery_instances@ == snap.push(sc));
                            assert(forall|k: int|
                                0 <= k < snap.len() ==> #[trigger] snap.push(sc)[k] == snap[k]);
                        }
                    } else if is_house {
                        let sc = Scenery::new_house(pos, ids);
                        scenery_instances.push(sc);
                        proof {
                            assert(scenery_instances@ == snap.push(sc));
                            assert(forall|k: int|
                                0 <= k < snap.len() ==> #[trigger] snap.push(sc)[k] == snap[k]);
                        }
                    } else if is_office1 {
                        let sc = Scenery::new_office1(pos, ids);
                        scenery_instances.push(sc);
                        proof {
                            assert(scenery_instances@ == snap.push(sc));
                            assert(forall|k: int|
                                0 <= k < snap.len() ==> #[trigger] snap.push(sc)[k] == snap[k]);
                        }
                    }
                    // an unknown kind is not special: the record is skipped
                },
                WorldRecord::Description(d) => {
                    cur_desc = copy_bytes(d);
                },
                WorldRecord::Vertex { x, y, z } => {
                    if *x < -4_000_000 || *x > 4_000_000 || *y < -4_000_000 || *y > 4_000_000
                        || *z < -4_000_000 || *z > 4_000_000 {
                        proof {
                            lemma_assemble_fail_sticky(records@, i + 1);
                        }
                        return None;
                    }
                    proof {
                        lemma_tdiv_bound(*x as int, 5, 4_000_000);
                        lemma_tdiv_bound(*y as int, 5, 4_000_000);
                        lemma_tdiv_bound(*z as int, 5, 4_000_000);
                    }
                    let v = Vec3i {
                        x: div_trunc(*x, 5) - CELL_HALF_MILLI,
                        y: div_trunc(*y, 5),
                        z: div_trunc(*z, 5) - CELL_HALF_MILLI,
                    };
                    rows.push(v);
                    if rows.len() == 4 {
                        // the fourth row of a group closes a quad: it enters as
                        // the strip third-current-first, as the renderer walks it
                        cur_verts.push(rows[2]);
                        cur_verts.push(v);
                        cur_verts.push(rows[0]);
                    } else {
                        cur_verts.push(v);
                    }
                    if cur_verts.len() > 4096 {
                        proof {
                            lemma_assemble_fail_sticky(records@, i + 1);
                        }
                        return None;
                    }
                },
                WorldRecord::Sides { s1: _, s2: _, s3: _, s4: _ } => {
                    if cur_verts.len() < 3 {
                        proof {
                            lemma_assemble_fail_sticky(records@, i + 1);
                        }
                        return None;
                    }
                    let obj = LandscapeObject { vertices: cur_verts, description: cur_desc };
                    landscape_objects.push(obj);
                    cur_verts = Vec::new();
                    cur_desc = Vec::new();
                    rows = Vec::new();
                },
            }
            i = i + 1;
        }
        proof {
            assert(records@.subrange(0, records@.len() as int) =~= records@);
        }
        let built = Landscape::from_parts(xyz, name, height_map, landscape_objects, scenery_instances);
        proof {
            if built is Some {
                assert(Landscape::spec_cell_frame_ok(xyz, height_map@));
            } else {
                assert(!Landscape::spec_cell_frame_ok(xyz, height_map@));
            }
        }
        built
    }

    /// The polygon at world point `(x, z)`: among the polygons that contain
    /// the cell-local point, the one with the smallest planar area, ties
    /// resolved to the earliest in the list.
    pub fn object_at(&self, x: i64, z: i64) -> (r: Option<&LandscapeObject>)
        requires
            self.wf(),
            -COORD_LIMIT <= x <= COORD_LIMIT,
            -COORD_LIMIT <= z <= COORD_LIMIT,
        ensures
            match spec_object_pick(
                self.landscape_objects@,
                x - self.xyz.x,
                z - self.xyz.z,
            ) {
                Option::None => r is None,
                Option::Some(k) => r matches Option::Some(o) && *o == self.landscape_objects@[k],
            },
    {
        proof {
            reveal(Landscape::wf);
        }
        let lx = x - self.xyz.x;
        let lz = z - self.xyz.z;
        let mut found: Option<usize> = None;
        let mut best_area: i64 = 0;
        let mut i: usize = 0;
        while i < self.landscape_objects.len()
            invariant
                self.wf(),
                -4_000_000 <= lx <= 4_000_000,
                -4_000_000 <= lz <= 4_000_000,
                i <= self.landscape_objects@.len(),
                match spec_object_pick(
                    self.landscape_objects@.subrange(0, i as int),
                    lx as int,
                    lz as int,
                ) {
                    Option::None => found is None,
                    Option::Some(k) => found matches Option::Some(f) && f == k && f < i
                        && best_area == spec_area2(self.landscape_objects@[k].vertices@),
                },
            decreases self.landscape_objects@.len() - i,
        {
            proof {
                reveal(Landscape::wf);
                let full = self.landscape_objects@;
                let pre = full.subrange(0, i as int);
                let cur = full.subrange(0, i + 1);
                assert(cur.drop_last() =~= pre);
                assert forall|p: int| 0 <= p <= i as int implies cur[p] == full[p] by {}
            }
            let o = &self.landscape_objects[i];
            let a = area2_x_z(&o.vertices);
            let better = match found {
                None => true,
                Some(_) => a < best_area,
            };
            if better {
                if polygon_contains_x_z(lx, lz, &o.vertices) {
                    found = Some(i);
                    best_area = a;
                }
            }
            i = i + 1;
        }
        proof {
            assert(self.landscape_objects@.subrange(0, self.landscape_objects@.len() as int)
                =~= self.landscape_objects@);
        }
        match found {
            None => None,
            Some(k) => Some(&self.landscape_objects[k]),
        }
    }

    /// First scenery entry, in scan order, whose squared ground-plane
    /// distance to the world point is below its squared collision radius.
    pub fn scenery_at(&self, x: i64, z: i64) -> (r: Option<&Scenery>)
        requires
            self.wf(),
            -COORD_LIMIT <= x <= COORD_LIMIT,
            -COORD_LIMIT <= z <= COORD_LIMIT,
        ensures
            match spec_scenery_pick(self.scenery_instances@, self.xyz, x as int, z as int, 0) {
                Option::None => r is None,
                Option::Some(k) => r matches Option::Some(s) && *s == self.scenery_instances@[k],
            },
    {
        proof {
            reveal(Landscape::wf);
        }
        let q = Vec3i { x, y: 0, z };
        let mut i: usize = 0;
        while i < self.scenery_instances.len()
            invariant
                self.wf(),
                -COORD_LIMIT <= x <= COORD_LIMIT,
                -COORD_LIMIT <= z <= COORD_LIMIT,
                q == (Vec3i { x, y: 0, z }),
                i <= self.scenery_instances@.len(),
                spec_scenery_pick(self.scenery_instances@, self.xyz, x as int, z as int, 0)
                    == spec_scenery_pick(
                    self.scenery_instances@,
                    self.xyz,
                    x as int,
                    z as int,
                    i as int,
                ),
            decreases self.scenery_instances@.len() - i,
        {
            let s = &self.scenery_instances[i];
            proof {
                reveal(Landscape::wf);
                assert(self.scenery_instances@[i as int].wf());
                let cr = self.scenery_instances@[i as int].collision_radius as int;
                assert(0 <= cr * cr <= 10_000_000_000) by (nonlinear_arith)
                    requires
                        0 <= cr <= 100_000,
                ;
            }
            let world = Vec3i {
                x: self.xyz.x + s.position.x,
                y: 0,
                z: self.xyz.z + s.position.z,
            };
            let d2 = dist2_xz(world, q);
            if d2 < s.collision_radius * s.collision_radius {
                return Some(s);
            }
            i = i + 1;
        }
        None
    }

    /// Height-field sample under a world point: floor-indexed row and column,
    /// zero outside the field.
    pub fn position_height(&self, x: i64, z: i64) -> (r: i64)
        requires
            self.wf(),
            -COORD_LIMIT <= x <= COORD_LIMIT,
            -COORD_LIMIT <= z <= COORD_LIMIT,
        ensures
            r == spec_height_at(*self, x as int, z as int),
            -1_000_000 <= r <= 1_000_000,
    {
        proof {
            reveal(Landscape::wf);
        }
        let dx = x - self.xyz.x + CELL_HALF_MILLI;
        let dz = z - self.xyz.z + CELL_HALF_MILLI;
        if dx < 0 || dz < 0 {
            return 0;
        }
        let col = ((dx as u64) / 200) as usize;
        let row = ((dz as u64) / 200) as usize;
        if col >= SQUARE_COLUMNS || row >= SQUARE_ROWS {
            return 0;
        }
        self.height_map[row][col].height
    }
}

/// First scenery index at or after `i` whose squared XZ distance from the
/// world point is below its squared collision radius.
pub open spec fn spec_scenery_pick(
    scs: Seq<Scenery>,
    cell: Vec3i,
    x: int,
    z: int,
    i: int,
) -> Option<int>
    decreases scs.len() - i,
{
    if i < 0 || i >= scs.len() {
        Option::None
    } else if spec_scenery_hit(scs[i], cell, x, z) {
        Option::Some(i)
    } else {
        spec_scenery_pick(scs, cell, x, z, i + 1)
    }
}

pub open spec fn spec_scenery_hit(s: Scenery, cell: Vec3i, x: int, z: int) -> bool {
    sq(cell.x + s.position.x - x) + sq(cell.z + s.position.z - z) < s.collision_radius
        * s.collision_radius
}

/// Height lookup as a function of the cell and the world point.
pub open spec fn spec_height_at(land: Landscape, x: int, z: int) -> int {
    let dx = x - land.xyz.x + CELL_HALF_MILLI;
    let dz = z - land.xyz.z + CELL_HALF_MILLI;
    if dx < 0 || dz < 0 {
        0
    } else {
        let col = dx / 200;
        let row = dz / 200;
        if col >= 32 || row >= 32 {
            0
        } else {
            land.height_map@[row]@[col].height as int
        }
    }
}

} // verus!
