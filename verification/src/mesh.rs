//! Index generation for the procedural meshes (quads, plane, cube, UV sphere).

use vstd::prelude::*;

verus! {

/// The six corners of the two triangles that cover a quad whose four
/// vertices are numbered `base .. base + 4` counter-clockwise.
pub open spec fn quad_corner(base: int, j: int) -> int {
    if j == 0 {
        base
    } else if j == 1 {
        base + 1
    } else if j == 2 {
        base + 2
    } else if j == 3 {
        base
    } else if j == 4 {
        base + 2
    } else {
        base + 3
    }
}

/// Position in an index list of corner `j` of the `f`-th group of six.
pub open spec fn slot(f: int, j: int) -> int {
    6 * f + j
}

/// `idx` lists `faces` quads one after the other, quad `f` using vertices
/// `4 * f .. 4 * f + 4`.
pub open spec fn is_quad_list(idx: Seq<u32>, faces: nat) -> bool {
    &&& idx.len() == 6 * faces
    &&& forall|f: int, j: int|
        0 <= f < faces && 0 <= j < 6 ==> #[trigger] idx[slot(f, j)] == quad_corner(4 * f, j)
}

/// Triangle-list indices for `faces` independent quads with four vertices each.
pub fn quad_list_indices(faces: u32) -> (idx: Vec<u32>)
    requires
        4 * faces <= u32::MAX + 1,
    ensures
        is_quad_list(idx@, faces as nat),
        idx@.len() == 6 * faces,
        faces >= 1 ==> idx@[0] == 0 && idx@[1] == 1 && idx@[2] == 2 && idx@[3] == 0 && idx@[4]
            == 2 && idx@[5] == 3,
        forall|k: int| 0 <= k < idx@.len() ==> #[trigger] idx@[k] == idx@[k % 6] + 4 * (k / 6),
{
    let mut idx: Vec<u32> = Vec::new();
    let mut i: u32 = 0;
    while i < faces
        invariant
            i <= faces,
            4 * faces <= u32::MAX + 1,
            idx@.len() == 6 * i,
            forall|f: int, j: int|
                0 <= f < i && 0 <= j < 6 ==> #[trigger] idx@[slot(f, j)] == quad_corner(4 * f, j),
        decreases faces - i,
    {
        let base: u32 = i * 4;
        let ghost before = idx@;
        idx.push(base);
        idx.push(base + 1);
        idx.push(base + 2);
        idx.push(base);
        idx.push(base + 2);
        idx.push(base + 3);
        assert forall|f: int, j: int| 0 <= f < i + 1 && 0 <= j < 6 implies #[trigger] idx@[slot(f, j)]
            == quad_corner(4 * f, j) by {
            if f < i {
                assert(idx@[slot(f, j)] == before[slot(f, j)]);
            }
        }
        i = i + 1;
    }
    proof {
        lemma_quad_list_shifted(idx@, faces as nat);
    }
    idx
}


/// Number of vertices of a UV sphere with the given segment counts: one
/// vertex per (latitude ring, longitude step) pair, rings and steps both
/// including their closing end.
pub open spec fn sphere_vertex_count(lat: nat, lon: nat) -> nat {
    (lat + 1) * (lon + 1)
}

/// Vertex number of the grid point on ring `y`, step `x`.
pub open spec fn sphere_vertex(lon: int, y: int, x: int) -> int {
    y * (lon + 1) + x
}

/// Corner `j` of the two triangles of grid cell `(y, x)`:
/// `(a, b, a + 1)` and `(b, b + 1, a + 1)` where `a` is the cell's upper-left
/// vertex and `b` the one below it.
pub open spec fn sphere_corner(lon: int, y: int, x: int, j: int) -> int {
    let a = sphere_vertex(lon, y, x);
    let b = a + lon + 1;
    if j == 0 {
        a
    } else if j == 1 {
        b
    } else if j == 2 {
        a + 1
    } else if j == 3 {
        b
    } else if j == 4 {
        b + 1
    } else {
        a + 1
    }
}

/// Position of corner `j` of cell `(y, x)` in the index list: cells are
/// listed ring by ring, six corners each.
pub open spec fn sphere_slot(lon: int, y: int, x: int, j: int) -> int {
    6 * (y * lon + x) + j
}

/// `idx` is the triangle list of a UV sphere with `lat` rings of `lon` cells.
pub open spec fn is_sphere_index_list(idx: Seq<u32>, lat: nat, lon: nat) -> bool {
    &&& idx.len() == 6 * lat * lon
    &&& forall|y: int, x: int, j: int|
        0 <= y < lat && 0 <= x < lon && 0 <= j < 6 ==> #[trigger] idx[sphere_slot(lon as int, y, x, j)]
            == sphere_corner(lon as int, y, x, j)
}

/// The sphere's vertex numbers fit in `u32` (or it has no cells at all).
pub open spec fn sphere_fits(lat: nat, lon: nat) -> bool {
    lat == 0 || lon == 0 || sphere_vertex_count(lat, lon) <= u32::MAX + 1
}

proof fn lemma_cell_order(lon: int, y1: int, x1: int, y2: int, x2: int)
    by (nonlinear_arith)
    requires
        0 <= x1 < lon,
        0 <= y1,
        0 <= x2,
        y1 < y2 || (y1 == y2 && x1 < x2),
    ensures
        y1 * lon + x1 < y2 * lon + x2,
{
}

proof fn lemma_sphere_corner_bound(lat: int, lon: int, y: int, x: int)
    by (nonlinear_arith)
    requires
        0 <= y < lat,
        0 <= x < lon,
    ensures
        (y + 1) * (lon + 1) + x + 1 <= (lat + 1) * (lon + 1) - 1,
        y * (lon + 1) + x + lon + 1 == (y + 1) * (lon + 1) + x,
        lon + 1 <= (lat + 1) * (lon + 1),
        0 <= y * (lon + 1),
{
}

proof fn lemma_sphere_len(lon: int, y: int, x: int)
    by (nonlinear_arith)
    requires
        0 <= y,
        0 <= x < lon,
    ensures
        6 * (y * lon + x) + 6 == 6 * (y * lon + (x + 1)),
        6 * (y * lon + lon) == 6 * ((y + 1) * lon),
{
}

/// Triangle-list indices of a UV sphere with `latitude_segments` rings and
/// `longitude_segments` cells per ring, over the vertex grid in which ring
/// `y`, step `x` is vertex `y * (longitude_segments + 1) + x`.
pub fn sphere_indices(latitude_segments: u32, longitude_segments: u32) -> (idx: Vec<u32>)
    requires
        sphere_fits(latitude_segments as nat, longitude_segments as nat),
    ensures
        is_sphere_index_list(idx@, latitude_segments as nat, longitude_segments as nat),
        idx@.len() == 6 * latitude_segments * longitude_segments,
        latitude_segments >= 1 && longitude_segments >= 1 ==> idx@[0] == 0 && idx@[1]
            == longitude_segments + 1 && idx@[2] == 1 && idx@[3] == longitude_segments + 1
            && idx@[4] == longitude_segments + 2 && idx@[5] == 1,
        forall|k: int|
            0 <= k < idx@.len() ==> #[trigger] idx@[k] == idx@[k % 6] + (k / 6)
                / longitude_segments as int * (longitude_segments + 1) + (k / 6)
                % longitude_segments as int,
{
    let lat = latitude_segments;
    let lon = longitude_segments;
    let mut idx: Vec<u32> = Vec::new();
    let mut y: u32 = 0;
    while y < lat
        invariant
            y <= lat,
            sphere_fits(lat as nat, lon as nat),
            idx@.len() == 6 * (y * lon),
            forall|y1: int, x1: int, j: int|
                0 <= y1 < y && 0 <= x1 < lon && 0 <= j < 6 ==> #[trigger] idx@[sphere_slot(
                    lon as int,
                    y1,
                    x1,
                    j,
                )] == sphere_corner(lon as int, y1, x1, j),
        decreases lat - y,
    {
        let mut x: u32 = 0;
        while x < lon
            invariant
                y < lat,
                x <= lon,
                sphere_fits(lat as nat, lon as nat),
                idx@.len() == 6 * (y * lon + x),
                forall|y1: int, x1: int, j: int|
                    (0 <= y1 < y && 0 <= x1 < lon || y1 == y && 0 <= x1 < x) && 0 <= j < 6
                        ==> #[trigger] idx@[sphere_slot(lon as int, y1, x1, j)] == sphere_corner(
                        lon as int,
                        y1,
                        x1,
                        j,
                    ),
            decreases lon - x,
        {
            proof {
                lemma_sphere_corner_bound(lat as int, lon as int, y as int, x as int);
                lemma_sphere_len(lon as int, y as int, x as int);
            }
            let a: u32 = y * (lon + 1) + x;
            let b: u32 = a + lon + 1;
            let ghost before = idx@;
            idx.push(a);
            idx.push(b);
            idx.push(a + 1);
            idx.push(b);
            idx.push(b + 1);
            idx.push(a + 1);
            assert forall|y1: int, x1: int, j: int|
                (0 <= y1 < y && 0 <= x1 < lon || y1 == y && 0 <= x1 < x + 1) && 0 <= j < 6
                    implies #[trigger] idx@[sphere_slot(lon as int, y1, x1, j)] == sphere_corner(
                    lon as int,
                    y1,
                    x1,
                    j,
                ) by {
                if y1 < y || x1 < x {
                    lemma_cell_order(lon as int, y1, x1, y as int, x as int);
                    assert(idx@[sphere_slot(lon as int, y1, x1, j)] == before[sphere_slot(
                        lon as int,
                        y1,
                        x1,
                        j,
                    )]);
                }
            }
            x = x + 1;
        }
        proof {
            if lon > 0 {
                lemma_sphere_len(lon as int, y as int, 0);
            } else {
                assert(y * lon == 0 && (y + 1) * lon == 0) by (nonlinear_arith)
                    requires
                        lon == 0,
                ;
            }
        }
        y = y + 1;
    }
    assert(6 * (lat * lon) == 6 * lat * lon) by (nonlinear_arith);
    proof {
        lemma_sphere_cells_shifted(idx@, lat as nat, lon as nat);
    }
    idx
}


/// Indices of the flat plane: one quad over vertices `0 .. 4`.
pub fn plane_indices() -> (idx: Vec<u32>)
    ensures
        is_quad_list(idx@, 1),
        idx@ == seq![0u32, 1, 2, 0, 2, 3],
{
    let idx = quad_list_indices(1);
    assert(idx@[slot(0, 0)] == 0 && idx@[slot(0, 1)] == 1 && idx@[slot(0, 2)] == 2);
    assert(idx@[slot(0, 3)] == 0 && idx@[slot(0, 4)] == 2 && idx@[slot(0, 5)] == 3);
    assert(idx@ =~= seq![0u32, 1, 2, 0, 2, 3]);
    idx
}

/// Indices of the cube: six faces, face `f` being the quad over vertices
/// `4 * f .. 4 * f + 4`.
pub fn cube_indices() -> (idx: Vec<u32>)
    ensures
        is_quad_list(idx@, 6),
        idx@ == seq![
            0u32, 1, 2, 0, 2, 3,
            4, 5, 6, 4, 6, 7,
            8, 9, 10, 8, 10, 11,
            12, 13, 14, 12, 14, 15,
            16, 17, 18, 16, 18, 19,
            20, 21, 22, 20, 22, 23,
        ],
{
    let idx = quad_list_indices(6);
    assert(idx@ =~= seq![
        0u32, 1, 2, 0, 2, 3,
        4, 5, 6, 4, 6, 7,
        8, 9, 10, 8, 10, 11,
        12, 13, 14, 12, 14, 15,
        16, 17, 18, 16, 18, 19,
        20, 21, 22, 20, 22, 23,
    ]) by {
        assert forall|k: int| 0 <= k < 36 implies idx@[k] == 4 * (k / 6) + (if k % 6 == 0 {
            0int
        } else if k % 6 == 1 {
            1int
        } else if k % 6 == 2 {
            2int
        } else if k % 6 == 3 {
            0int
        } else if k % 6 == 4 {
            2int
        } else {
            3int
        }) by {
            assert(idx@[k] == idx@[k % 6] + 4 * (k / 6));
        }
    }
    idx
}

/// Triangle `t` of a triangle list has three different corners.
pub open spec fn triangle_is_proper(idx: Seq<u32>, t: int) -> bool {
    &&& idx[3 * t] != idx[3 * t + 1]
    &&& idx[3 * t] != idx[3 * t + 2]
    &&& idx[3 * t + 1] != idx[3 * t + 2]
}

/// Every quad of a quad list is the first one, `[0, 1, 2, 0, 2, 3]`,
/// shifted by four vertices per quad: its two triangles share the diagonal
/// `4f, 4f + 2` and together cover all four of its vertices.
pub proof fn lemma_quad_list_shifted(idx: Seq<u32>, faces: nat)
    requires
        is_quad_list(idx, faces),
    ensures
        faces >= 1 ==> idx[0] == 0 && idx[1] == 1 && idx[2] == 2 && idx[3] == 0 && idx[4] == 2
            && idx[5] == 3,
        forall|k: int| 0 <= k < idx.len() ==> #[trigger] idx[k] == idx[k % 6] + 4 * (k / 6),
{
    if faces >= 1 {
        assert(idx[slot(0, 0)] == quad_corner(0, 0));
        assert(idx[slot(0, 1)] == quad_corner(0, 1));
        assert(idx[slot(0, 2)] == quad_corner(0, 2));
        assert(idx[slot(0, 3)] == quad_corner(0, 3));
        assert(idx[slot(0, 4)] == quad_corner(0, 4));
        assert(idx[slot(0, 5)] == quad_corner(0, 5));
    }
    assert forall|k: int| 0 <= k < idx.len() implies #[trigger] idx[k] == idx[k % 6] + 4 * (k
        / 6) by {
        let (f, j) = lemma_split_slot(k);
        vstd::arithmetic::div_mod::lemma_fundamental_div_mod_converse(k, 6, f, j);
        lemma_group_bound(k, f, j, faces as int);
        assert(idx[slot(f, j)] == quad_corner(4 * f, j));
        assert(idx[slot(0, j)] == quad_corner(0, j));
    }
}

/// Every cell `(y, x)` of a sphere's list is cell `(0, 0)`,
/// `[0, lon + 1, 1, lon + 1, lon + 2, 1]`, shifted by the cell's upper-left
/// vertex `y * (lon + 1) + x`: its triangles `(a, b, a + 1)` and
/// `(b, b + 1, a + 1)` together cover the whole quad `a, a + 1, b, b + 1`.
pub proof fn lemma_sphere_cells_shifted(idx: Seq<u32>, lat: nat, lon: nat)
    requires
        is_sphere_index_list(idx, lat, lon),
    ensures
        lat >= 1 && lon >= 1 ==> idx[0] == 0 && idx[1] == lon + 1 && idx[2] == 1 && idx[3] == lon
            + 1 && idx[4] == lon + 2 && idx[5] == 1,
        forall|k: int|
            0 <= k < idx.len() ==> #[trigger] idx[k] == idx[k % 6] + (k / 6) / lon as int * (lon
                + 1) + (k / 6) % lon as int,
{
    if lat >= 1 && lon >= 1 {
        assert(idx[sphere_slot(lon as int, 0, 0, 0)] == sphere_corner(lon as int, 0, 0, 0));
        assert(idx[sphere_slot(lon as int, 0, 0, 1)] == sphere_corner(lon as int, 0, 0, 1));
        assert(idx[sphere_slot(lon as int, 0, 0, 2)] == sphere_corner(lon as int, 0, 0, 2));
        assert(idx[sphere_slot(lon as int, 0, 0, 3)] == sphere_corner(lon as int, 0, 0, 3));
        assert(idx[sphere_slot(lon as int, 0, 0, 4)] == sphere_corner(lon as int, 0, 0, 4));
        assert(idx[sphere_slot(lon as int, 0, 0, 5)] == sphere_corner(lon as int, 0, 0, 5));
    }
    assert forall|k: int| 0 <= k < idx.len() implies #[trigger] idx[k] == idx[k % 6] + (k / 6)
        / lon as int * (lon + 1) + (k / 6) % lon as int by {
        let (c, j) = lemma_split_slot(k);
        vstd::arithmetic::div_mod::lemma_fundamental_div_mod_converse(k, 6, c, j);
        lemma_split_cell(k, c, j, lat as int, lon as int);
        let y = c / lon as int;
        let x = c % lon as int;
        assert(idx[sphere_slot(lon as int, y, x, j)] == sphere_corner(lon as int, y, x, j));
        assert(0 * (lon as int + 1) == 0);
        assert(idx[sphere_slot(lon as int, 0, 0, j)] == sphere_corner(lon as int, 0, 0, j));
    }
}

/// Splits a position of an index list into its group of six and its corner.
proof fn lemma_split_slot(k: int) -> (fj: (int, int))
    requires
        0 <= k,
    ensures
        0 <= fj.0,
        0 <= fj.1 < 6,
        k == slot(fj.0, fj.1),
{
    vstd::arithmetic::div_mod::lemma_fundamental_div_mod(k, 6);
    (k / 6, k % 6)
}

proof fn lemma_group_bound(k: int, f: int, j: int, groups: int)
    by (nonlinear_arith)
    requires
        0 <= j < 6,
        0 <= f,
        k == 6 * f + j,
        k < 6 * groups,
    ensures
        f < groups,
{
}

/// Every index of a list of `faces` quads names one of the `4 * faces`
/// quad vertices, and the three corners of every triangle are distinct.
pub proof fn lemma_quad_list_valid(idx: Seq<u32>, faces: nat)
    requires
        is_quad_list(idx, faces),
    ensures
        forall|k: int| 0 <= k < idx.len() ==> #[trigger] idx[k] < 4 * faces,
        forall|t: int| 0 <= t < idx.len() / 3 ==> #[trigger] triangle_is_proper(idx, t),
{
    assert forall|k: int| 0 <= k < idx.len() implies #[trigger] idx[k] < 4 * faces by {
        let (f, j) = lemma_split_slot(k);
        lemma_group_bound(k, f, j, faces as int);
        assert(idx[slot(f, j)] == quad_corner(4 * f, j));
    }
    assert forall|t: int| 0 <= t < idx.len() / 3 implies triangle_is_proper(idx, t) by {
        let f = t / 2;
        let h = t % 2;
        vstd::arithmetic::div_mod::lemma_fundamental_div_mod(t, 2);
        assert(3 * t < idx.len());
        lemma_group_bound(3 * t, f, 3 * h, faces as int);
        // the triangle's corners are corners 3h, 3h + 1, 3h + 2 of quad f
        assert(idx[slot(f, 3 * h)] == quad_corner(4 * f, 3 * h));
        assert(idx[slot(f, 3 * h + 1)] == quad_corner(4 * f, 3 * h + 1));
        assert(idx[slot(f, 3 * h + 2)] == quad_corner(4 * f, 3 * h + 2));
    }
}

/// Every index of a sphere's triangle list names one of its grid vertices,
/// and the three corners of every triangle are distinct.
pub proof fn lemma_sphere_indices_valid(idx: Seq<u32>, lat: nat, lon: nat)
    requires
        is_sphere_index_list(idx, lat, lon),
    ensures
        forall|k: int| 0 <= k < idx.len() ==> #[trigger] idx[k] < sphere_vertex_count(lat, lon),
        forall|t: int| 0 <= t < idx.len() / 3 ==> #[trigger] triangle_is_proper(idx, t),
{
    assert forall|k: int| 0 <= k < idx.len() implies #[trigger] idx[k] < sphere_vertex_count(
        lat,
        lon,
    ) by {
        let (c, j) = lemma_split_slot(k);
        lemma_split_cell(k, c, j, lat as int, lon as int);
        let y = c / lon as int;
        let x = c % lon as int;
        lemma_sphere_corner_bound(lat as int, lon as int, y, x);
        assert(idx[sphere_slot(lon as int, y, x, j)] == sphere_corner(lon as int, y, x, j));
    }
    assert forall|t: int| 0 <= t < idx.len() / 3 implies triangle_is_proper(idx, t) by {
        let c = t / 2;
        let h = t % 2;
        vstd::arithmetic::div_mod::lemma_fundamental_div_mod(t, 2);
        assert(3 * t < idx.len());
        lemma_split_cell(3 * t, c, 3 * h, lat as int, lon as int);
        let y = c / lon as int;
        let x = c % lon as int;
        // the triangle's corners are corners 3h, 3h + 1, 3h + 2 of cell (y, x)
        assert(idx[sphere_slot(lon as int, y, x, 3 * h)] == sphere_corner(lon as int, y, x, 3 * h));
        assert(idx[sphere_slot(lon as int, y, x, 3 * h + 1)] == sphere_corner(
            lon as int,
            y,
            x,
            3 * h + 1,
        ));
        assert(idx[sphere_slot(lon as int, y, x, 3 * h + 2)] == sphere_corner(
            lon as int,
            y,
            x,
            3 * h + 2,
        ));
    }
}

/// Position `k = 6 * c + j` of a sphere list lies in cell
/// `(c / lon, c % lon)` of the grid.
proof fn lemma_split_cell(k: int, c: int, j: int, lat: int, lon: int)
    requires
        0 <= c,
        0 <= j < 6,
        k == 6 * c + j,
        0 <= k < 6 * lat * lon,
        0 <= lat,
        0 <= lon,
    ensures
        lon > 0,
        0 <= c / lon < lat,
        0 <= c % lon < lon,
        k == sphere_slot(lon, c / lon, c % lon, j),
{
    assert(6 * lat * lon == 6 * (lat * lon)) by (nonlinear_arith);
    lemma_group_bound(k, c, j, lat * lon);
    assert(lon > 0) by (nonlinear_arith)
        requires
            0 <= c < lat * lon,
            0 <= lat,
            0 <= lon,
    ;
    vstd::arithmetic::div_mod::lemma_fundamental_div_mod(c, lon);
    vstd::arithmetic::div_mod::lemma_mod_pos_bound(c, lon);
    let y = c / lon;
    let x = c % lon;
    assert(0 <= y < lat) by (nonlinear_arith)
        requires
            c == lon * y + x,
            0 <= x < lon,
            0 <= c < lat * lon,
            lon > 0,
    ;
    assert(k == sphere_slot(lon, y, x, j)) by (nonlinear_arith)
        requires
            c == lon * y + x,
            k == 6 * c + j,
    ;
}

} // verus!
