use vstd::prelude::*;

verus! {

/// Vertex data of a generated shape, on an integer lattice.
///
/// A position component is a multiple of half the shape's extent along its
/// axis (`-1`, `0` or `1`), so a caller scales it by that half extent;
/// texture coordinates and normals are exact.
pub struct GeometryData {
    pub positions: Vec<i8>,
    pub uvs: Vec<u8>,
    pub normals: Vec<i8>,
    pub indices: Vec<u32>,
}

/// Generators of simple shapes.
pub struct Geom;

/// Lattice positions of the XY plane, four corners counter-clockwise from
/// the bottom left.
pub open spec fn spec_plane_positions() -> Seq<i8> {
    seq![-1i8, -1i8, 0i8, 1i8, -1i8, 0i8, 1i8, 1i8, 0i8, -1i8, 1i8, 0i8]
}

/// Texture coordinates of the plane's corners.
pub open spec fn spec_plane_uvs() -> Seq<u8> {
    seq![0u8, 1u8, 1u8, 1u8, 1u8, 0u8, 0u8, 0u8]
}

/// The plane faces +Z at every corner.
pub open spec fn spec_plane_normals() -> Seq<i8> {
    seq![0i8, 0i8, 1i8, 0i8, 0i8, 1i8, 0i8, 0i8, 1i8, 0i8, 0i8, 1i8]
}

/// Two triangles over the four corners.
pub open spec fn spec_plane_indices() -> Seq<u32> {
    seq![0u32, 1u32, 2u32, 0u32, 2u32, 3u32]
}

impl Geom {
    /// An XY plane centred on the origin; positions are in units of half
    /// the width (x) and half the height (y).
    pub fn plane() -> (geometry: GeometryData)
        ensures
            geometry.positions@ == spec_plane_positions(),
            geometry.uvs@ == spec_plane_uvs(),
            geometry.normals@ == spec_plane_normals(),
            geometry.indices@ == spec_plane_indices(),
    {
        let geometry = GeometryData {
            positions: vec![-1i8, -1, 0, 1, -1, 0, 1, 1, 0, -1, 1, 0],
            uvs: vec![0u8, 1, 1, 1, 1, 0, 0, 0],
            normals: vec![0i8, 0, 1, 0, 0, 1, 0, 0, 1, 0, 0, 1],
            indices: vec![0u32, 1, 2, 0, 2, 3],
        };
        proof {
            assert(geometry.positions@ =~= spec_plane_positions());
            assert(geometry.uvs@ =~= spec_plane_uvs());
            assert(geometry.normals@ =~= spec_plane_normals());
            assert(geometry.indices@ =~= spec_plane_indices());
        }
        geometry
    }
}

} // verus!

verus! {

/// Corner `corner` (0..4) of face `face` (0..6) of the cube, in units of
/// half the edge length; corners run counter-clockwise seen from outside.
pub open spec fn spec_cube_corner(face: int, corner: int) -> Seq<i8> {
    if face == 0 {
        if corner == 0 {
            seq![1i8, -1i8, -1i8]
        } else if corner == 1 {
            seq![1i8, 1i8, -1i8]
        } else if corner == 2 {
            seq![1i8, 1i8, 1i8]
        } else {
            seq![1i8, -1i8, 1i8]
        }
    } else if face == 1 {
        if corner == 0 {
            seq![-1i8, -1i8, 1i8]
        } else if corner == 1 {
            seq![-1i8, 1i8, 1i8]
        } else if corner == 2 {
            seq![-1i8, 1i8, -1i8]
        } else {
            seq![-1i8, -1i8, -1i8]
        }
    } else if face == 2 {
        if corner == 0 {
            seq![-1i8, 1i8, -1i8]
        } else if corner == 1 {
            seq![-1i8, 1i8, 1i8]
        } else if corner == 2 {
            seq![1i8, 1i8, 1i8]
        } else {
            seq![1i8, 1i8, -1i8]
        }
    } else if face == 3 {
        if corner == 0 {
            seq![-1i8, -1i8, 1i8]
        } else if corner == 1 {
            seq![-1i8, -1i8, -1i8]
        } else if corner == 2 {
            seq![1i8, -1i8, -1i8]
        } else {
            seq![1i8, -1i8, 1i8]
        }
    } else if face == 4 {
        if corner == 0 {
            seq![-1i8, -1i8, 1i8]
        } else if corner == 1 {
            seq![1i8, -1i8, 1i8]
        } else if corner == 2 {
            seq![1i8, 1i8, 1i8]
        } else {
            seq![-1i8, 1i8, 1i8]
        }
    } else {
        if corner == 0 {
            seq![1i8, -1i8, -1i8]
        } else if corner == 1 {
            seq![-1i8, -1i8, -1i8]
        } else if corner == 2 {
            seq![-1i8, 1i8, -1i8]
        } else {
            seq![1i8, 1i8, -1i8]
        }
    }
}


/// Outward unit normal of face `face` (0..6): +X, -X, +Y, -Y, +Z, -Z.
pub open spec fn spec_cube_normal(face: int) -> Seq<i8> {
    if face == 0 {
        seq![1i8, 0i8, 0i8]
    } else if face == 1 {
        seq![-1i8, 0i8, 0i8]
    } else if face == 2 {
        seq![0i8, 1i8, 0i8]
    } else if face == 3 {
        seq![0i8, -1i8, 0i8]
    } else if face == 4 {
        seq![0i8, 0i8, 1i8]
    } else {
        seq![0i8, 0i8, -1i8]
    }
}

/// Lattice positions of the cube: four corners per face, faces in order.
pub open spec fn spec_cube_positions() -> Seq<i8> {
    Seq::new(72, |k: int| spec_cube_corner(k / 12, (k % 12) / 3)[k % 3])
}

/// Normals of the cube: each corner carries its face's normal.
pub open spec fn spec_cube_normals() -> Seq<i8> {
    Seq::new(72, |k: int| spec_cube_normal(k / 12)[k % 3])
}

/// Texture coordinates of one face's corners.
pub open spec fn spec_face_uvs() -> Seq<u8> {
    seq![0u8, 0u8, 1u8, 0u8, 1u8, 1u8, 0u8, 1u8]
}

/// Texture coordinates of the cube: every face maps the whole texture.
pub open spec fn spec_cube_uvs() -> Seq<u8> {
    Seq::new(48, |k: int| spec_face_uvs()[k % 8])
}

/// Corner order of the two triangles of a face.
pub open spec fn spec_face_triangles() -> Seq<u32> {
    seq![0u32, 1u32, 2u32, 0u32, 2u32, 3u32]
}

/// Indices of the cube: two triangles per face over that face's corners.
pub open spec fn spec_cube_indices() -> Seq<u32> {
    Seq::new(36, |k: int| (4 * (k / 6) + spec_face_triangles()[k % 6]) as u32)
}

impl Geom {
    /// A cube centred on the origin with 24 vertices (four per face, so
    /// each face has its own normal) and 36 indices; positions are in units
    /// of half the edge length.
    pub fn cube() -> (geometry: GeometryData)
        ensures
            geometry.positions@ == spec_cube_positions(),
            geometry.uvs@ == spec_cube_uvs(),
            geometry.normals@ == spec_cube_normals(),
            geometry.indices@ == spec_cube_indices(),
    {
        let geometry = GeometryData {
            positions: vec![1i8, -1i8, -1i8, 1i8, 1i8, -1i8, 1i8, 1i8, 1i8, 1i8, -1i8, 1i8, -1i8, -1i8, 1i8, -1i8, 1i8, 1i8, -1i8, 1i8, -1i8, -1i8, -1i8, -1i8, -1i8, 1i8, -1i8, -1i8, 1i8, 1i8, 1i8, 1i8, 1i8, 1i8, 1i8, -1i8, -1i8, -1i8, 1i8, -1i8, -1i8, -1i8, 1i8, -1i8, -1i8, 1i8, -1i8, 1i8, -1i8, -1i8, 1i8, 1i8, -1i8, 1i8, 1i8, 1i8, 1i8, -1i8, 1i8, 1i8, 1i8, -1i8, -1i8, -1i8, -1i8, -1i8, -1i8, 1i8, -1i8, 1i8, 1i8, -1i8],
            uvs: vec![0u8, 0u8, 1u8, 0u8, 1u8, 1u8, 0u8, 1u8, 0u8, 0u8, 1u8, 0u8, 1u8, 1u8, 0u8, 1u8, 0u8, 0u8, 1u8, 0u8, 1u8, 1u8, 0u8, 1u8, 0u8, 0u8, 1u8, 0u8, 1u8, 1u8, 0u8, 1u8, 0u8, 0u8, 1u8, 0u8, 1u8, 1u8, 0u8, 1u8, 0u8, 0u8, 1u8, 0u8, 1u8, 1u8, 0u8, 1u8],
            normals: vec![1i8, 0i8, 0i8, 1i8, 0i8, 0i8, 1i8, 0i8, 0i8, 1i8, 0i8, 0i8, -1i8, 0i8, 0i8, -1i8, 0i8, 0i8, -1i8, 0i8, 0i8, -1i8, 0i8, 0i8, 0i8, 1i8, 0i8, 0i8, 1i8, 0i8, 0i8, 1i8, 0i8, 0i8, 1i8, 0i8, 0i8, -1i8, 0i8, 0i8, -1i8, 0i8, 0i8, -1i8, 0i8, 0i8, -1i8, 0i8, 0i8, 0i8, 1i8, 0i8, 0i8, 1i8, 0i8, 0i8, 1i8, 0i8, 0i8, 1i8, 0i8, 0i8, -1i8, 0i8, 0i8, -1i8, 0i8, 0i8, -1i8, 0i8, 0i8, -1i8],
            indices: vec![0u32, 1u32, 2u32, 0u32, 2u32, 3u32, 4u32, 5u32, 6u32, 4u32, 6u32, 7u32, 8u32, 9u32, 10u32, 8u32, 10u32, 11u32, 12u32, 13u32, 14u32, 12u32, 14u32, 15u32, 16u32, 17u32, 18u32, 16u32, 18u32, 19u32, 20u32, 21u32, 22u32, 20u32, 22u32, 23u32],
        };
        proof {
            assert(geometry.positions@ =~= spec_cube_positions());
            assert(geometry.uvs@ =~= spec_cube_uvs());
            assert(geometry.normals@ =~= spec_cube_normals());
            assert(geometry.indices@ =~= spec_cube_indices());
        }
        geometry
    }
}

} // verus!

verus! {

/// Component `axis` of vertex `vertex` in a flat list of 3-vectors.
pub open spec fn spec_component(values: Seq<i8>, vertex: int, axis: int) -> int {
    values[3 * vertex + axis] as int
}

/// The dot product of the normal of the triangle
/// (p0, p1, p2) with `n`, where vertices are indices into `positions`.
pub open spec fn spec_winding(positions: Seq<i8>, v0: int, v1: int, v2: int, n: Seq<i8>) -> int {
    let e0 = |a: int| spec_component(positions, v1, a) - spec_component(positions, v0, a);
    let e1 = |a: int| spec_component(positions, v2, a) - spec_component(positions, v0, a);
    (e0(1) * e1(2) - e0(2) * e1(1)) * n[0] + (e0(2) * e1(0) - e0(0) * e1(2)) * n[1] + (e0(0) * e1(1)
        - e0(1) * e1(0)) * n[2]
}

/// One component of vertex `vertex` is at distance one (a half edge) from
/// the origin.
pub open spec fn spec_on_boundary(positions: Seq<i8>, vertex: int) -> bool {
    ||| spec_component(positions, vertex, 0) * spec_component(positions, vertex, 0) == 1
    ||| spec_component(positions, vertex, 1) * spec_component(positions, vertex, 1) == 1
    ||| spec_component(positions, vertex, 2) * spec_component(positions, vertex, 2) == 1
}

/// Cube law: 24 vertices with two texture coordinates and a normal each,
/// 36 indices, and every index names one of the 24 vertices.
pub proof fn law_cube_counts()
    ensures
        spec_cube_positions().len() == 3 * 24,
        spec_cube_uvs().len() == 2 * 24,
        spec_cube_normals().len() == spec_cube_positions().len(),
        spec_cube_indices().len() == 36,
        forall|k: int| 0 <= k < 36 ==> #[trigger] spec_cube_indices()[k] < 24,
{
    assert forall|k: int| 0 <= k < 36 implies #[trigger] spec_cube_indices()[k] < 24 by {
        assert(k / 6 <= 5);
        assert(spec_face_triangles()[k % 6] <= 3);
    }
}

proof fn lemma_unit_square(x: int)
    requires
        -1 <= x <= 1,
    ensures
        x * x == if x == 0 {
            0int
        } else {
            1int
        },
{
    assert(x == -1 || x == 0 || x == 1);
    if x == -1 {
        assert(x * x == 1) by (nonlinear_arith)
            requires
                x == -1,
        ;
    } else if x == 1 {
        assert(x * x == 1) by (nonlinear_arith)
            requires
                x == 1,
        ;
    } else {
        assert(x * x == 0) by (nonlinear_arith)
            requires
                x == 0,
        ;
    }
}

/// Difference of two lattice coordinates.
spec fn e(a: int, b: int) -> int {
    a - b
}

proof fn lemma_cube_position(v: int, a: int)
    requires
        0 <= v < 24,
        0 <= a < 3,
    ensures
        spec_component(spec_cube_positions(), v, a) == spec_cube_corner(v / 4, v % 4)[a] as int,
{
    assert((3 * v + a) / 12 == v / 4 && ((3 * v + a) % 12) / 3 == v % 4 && (3 * v + a) % 3 == a);
}

proof fn lemma_cube_normal(v: int, a: int)
    requires
        0 <= v < 24,
        0 <= a < 3,
    ensures
        spec_component(spec_cube_normals(), v, a) == spec_cube_normal(v / 4)[a] as int,
{
    assert((3 * v + a) / 12 == v / 4 && (3 * v + a) % 3 == a);
}

proof fn lemma_corner_facts(f: int, c: int)
    requires
        0 <= f < 6,
        0 <= c < 4,
    ensures
        forall|a: int| 0 <= a < 3 ==> -1 <= #[trigger] spec_cube_corner(f, c)[a] <= 1,
        spec_cube_corner(f, c)[0] * spec_cube_corner(f, c)[0] == 1,
{
    if f == 0 {
        if c == 0 {
            assert(spec_cube_corner(f, c)[0] == 1 && spec_cube_corner(f, c)[1] == -1 && spec_cube_corner(f, c)[2] == -1);
        } else if c == 1 {
            assert(spec_cube_corner(f, c)[0] == 1 && spec_cube_corner(f, c)[1] == 1 && spec_cube_corner(f, c)[2] == -1);
        } else if c == 2 {
            assert(spec_cube_corner(f, c)[0] == 1 && spec_cube_corner(f, c)[1] == 1 && spec_cube_corner(f, c)[2] == 1);
        } else {
            assert(spec_cube_corner(f, c)[0] == 1 && spec_cube_corner(f, c)[1] == -1 && spec_cube_corner(f, c)[2] == 1);
        }
    } else if f == 1 {
        if c == 0 {
            assert(spec_cube_corner(f, c)[0] == -1 && spec_cube_corner(f, c)[1] == -1 && spec_cube_corner(f, c)[2] == 1);
        } else if c == 1 {
            assert(spec_cube_corner(f, c)[0] == -1 && spec_cube_corner(f, c)[1] == 1 && spec_cube_corner(f, c)[2] == 1);
        } else if c == 2 {
            assert(spec_cube_corner(f, c)[0] == -1 && spec_cube_corner(f, c)[1] == 1 && spec_cube_corner(f, c)[2] == -1);
        } else {
            assert(spec_cube_corner(f, c)[0] == -1 && spec_cube_corner(f, c)[1] == -1 && spec_cube_corner(f, c)[2] == -1);
        }
    } else if f == 2 {
        if c == 0 {
            assert(spec_cube_corner(f, c)[0] == -1 && spec_cube_corner(f, c)[1] == 1 && spec_cube_corner(f, c)[2] == -1);
        } else if c == 1 {
            assert(spec_cube_corner(f, c)[0] == -1 && spec_cube_corner(f, c)[1] == 1 && spec_cube_corner(f, c)[2] == 1);
        } else if c == 2 {
            assert(spec_cube_corner(f, c)[0] == 1 && spec_cube_corner(f, c)[1] == 1 && spec_cube_corner(f, c)[2] == 1);
        } else {
            assert(spec_cube_corner(f, c)[0] == 1 && spec_cube_corner(f, c)[1] == 1 && spec_cube_corner(f, c)[2] == -1);
        }
    } else if f == 3 {
        if c == 0 {
            assert(spec_cube_corner(f, c)[0] == -1 && spec_cube_corner(f, c)[1] == -1 && spec_cube_corner(f, c)[2] == 1);
        } else if c == 1 {
            assert(spec_cube_corner(f, c)[0] == -1 && spec_cube_corner(f, c)[1] == -1 && spec_cube_corner(f, c)[2] == -1);
        } else if c == 2 {
            assert(spec_cube_corner(f, c)[0] == 1 && spec_cube_corner(f, c)[1] == -1 && spec_cube_corner(f, c)[2] == -1);
        } else {
            assert(spec_cube_corner(f, c)[0] == 1 && spec_cube_corner(f, c)[1] == -1 && spec_cube_corner(f, c)[2] == 1);
        }
    } else if f == 4 {
        if c == 0 {
            assert(spec_cube_corner(f, c)[0] == -1 && spec_cube_corner(f, c)[1] == -1 && spec_cube_corner(f, c)[2] == 1);
        } else if c == 1 {
            assert(spec_cube_corner(f, c)[0] == 1 && spec_cube_corner(f, c)[1] == -1 && spec_cube_corner(f, c)[2] == 1);
        } else if c == 2 {
            assert(spec_cube_corner(f, c)[0] == 1 && spec_cube_corner(f, c)[1] == 1 && spec_cube_corner(f, c)[2] == 1);
        } else {
            assert(spec_cube_corner(f, c)[0] == -1 && spec_cube_corner(f, c)[1] == 1 && spec_cube_corner(f, c)[2] == 1);
        }
    } else {
        if c == 0 {
            assert(spec_cube_corner(f, c)[0] == 1 && spec_cube_corner(f, c)[1] == -1 && spec_cube_corner(f, c)[2] == -1);
        } else if c == 1 {
            assert(spec_cube_corner(f, c)[0] == -1 && spec_cube_corner(f, c)[1] == -1 && spec_cube_corner(f, c)[2] == -1);
        } else if c == 2 {
            assert(spec_cube_corner(f, c)[0] == -1 && spec_cube_corner(f, c)[1] == 1 && spec_cube_corner(f, c)[2] == -1);
        } else {
            assert(spec_cube_corner(f, c)[0] == 1 && spec_cube_corner(f, c)[1] == 1 && spec_cube_corner(f, c)[2] == -1);
        }
    }
    lemma_unit_square(spec_cube_corner(f, c)[0] as int);
}

proof fn lemma_normal_facts(f: int)
    requires
        0 <= f < 6,
    ensures
        ({
            let n = spec_cube_normal(f);
            &&& n[0] * n[0] + n[1] * n[1] + n[2] * n[2] == 1
            &&& (n[0] != 0) as int + (n[1] != 0) as int + (n[2] != 0) as int == 1
        }),
{
    if f == 0 {
        assert(spec_cube_normal(f)[0] == 1 && spec_cube_normal(f)[1] == 0 && spec_cube_normal(f)[2] == 0);
    } else if f == 1 {
        assert(spec_cube_normal(f)[0] == -1 && spec_cube_normal(f)[1] == 0 && spec_cube_normal(f)[2] == 0);
    } else if f == 2 {
        assert(spec_cube_normal(f)[0] == 0 && spec_cube_normal(f)[1] == 1 && spec_cube_normal(f)[2] == 0);
    } else if f == 3 {
        assert(spec_cube_normal(f)[0] == 0 && spec_cube_normal(f)[1] == -1 && spec_cube_normal(f)[2] == 0);
    } else if f == 4 {
        assert(spec_cube_normal(f)[0] == 0 && spec_cube_normal(f)[1] == 0 && spec_cube_normal(f)[2] == 1);
    } else {
        assert(spec_cube_normal(f)[0] == 0 && spec_cube_normal(f)[1] == 0 && spec_cube_normal(f)[2] == -1);
    }
    let n = spec_cube_normal(f);
    lemma_unit_square(n[0] as int);
    lemma_unit_square(n[1] as int);
    lemma_unit_square(n[2] as int);
}

/// Cube law: every vertex lies on the surface of the cube: no component is
/// beyond the half edge, and one of them is on it.
pub proof fn law_cube_vertices_on_surface()
    ensures
        forall|v: int, a: int|
            0 <= v < 24 && 0 <= a < 3 ==> -1 <= #[trigger] spec_component(spec_cube_positions(), v, a)
                <= 1,
        forall|v: int| 0 <= v < 24 ==> #[trigger] spec_on_boundary(spec_cube_positions(), v),
{
    assert forall|v: int, a: int| 0 <= v < 24 && 0 <= a < 3 implies -1 <= #[trigger] spec_component(
        spec_cube_positions(),
        v,
        a,
    ) <= 1 by {
        lemma_cube_position(v, a);
        lemma_corner_facts(v / 4, v % 4);
    }
    assert forall|v: int| 0 <= v < 24 implies #[trigger] spec_on_boundary(spec_cube_positions(), v) by {
        lemma_cube_position(v, 0);
        lemma_corner_facts(v / 4, v % 4);
    }
}

/// Cube law: every normal is a unit vector along one axis, and the four
/// corners of a face share their face's normal.
pub proof fn law_cube_normals()
    ensures
        forall|v: int|
            0 <= v < 24 ==> {
                let x = #[trigger] spec_component(spec_cube_normals(), v, 0);
                let y = spec_component(spec_cube_normals(), v, 1);
                let z = spec_component(spec_cube_normals(), v, 2);
                &&& x * x + y * y + z * z == 1
                &&& (x != 0) as int + (y != 0) as int + (z != 0) as int == 1
            },
        forall|v: int, a: int|
            0 <= v < 24 && 0 <= a < 3 ==> #[trigger] spec_component(spec_cube_normals(), v, a)
                == spec_component(spec_cube_normals(), 4 * (v / 4), a),
{
    assert forall|v: int| 0 <= v < 24 implies {
        let x = #[trigger] spec_component(spec_cube_normals(), v, 0);
        let y = spec_component(spec_cube_normals(), v, 1);
        let z = spec_component(spec_cube_normals(), v, 2);
        &&& x * x + y * y + z * z == 1
        &&& (x != 0) as int + (y != 0) as int + (z != 0) as int == 1
    } by {
        lemma_cube_normal(v, 0);
        lemma_cube_normal(v, 1);
        lemma_cube_normal(v, 2);
        lemma_normal_facts(v / 4);
    }
    assert forall|v: int, a: int| 0 <= v < 24 && 0 <= a < 3 implies #[trigger] spec_component(
        spec_cube_normals(),
        v,
        a,
    ) == spec_component(spec_cube_normals(), 4 * (v / 4), a) by {
        lemma_cube_normal(v, a);
        lemma_cube_normal(4 * (v / 4), a);
        assert((4 * (v / 4)) / 4 == v / 4);
    }
}

proof fn lemma_face_winding(f: int)
    requires
        0 <= f < 6,
    ensures
        ({
            let p0 = spec_cube_corner(f, 0);
            let p1 = spec_cube_corner(f, 1);
            let p2 = spec_cube_corner(f, 2);
            let n = spec_cube_normal(f);
            let e0 = |a: int| p1[a] - p0[a];
            let e1 = |a: int| p2[a] - p0[a];
            (e0(1) * e1(2) - e0(2) * e1(1)) * n[0] + (e0(2) * e1(0) - e0(0) * e1(2)) * n[1] + (e0(0)
                * e1(1) - e0(1) * e1(0)) * n[2] > 0
        }),
{
    let c0 = spec_cube_corner(f, 0);
    let c1 = spec_cube_corner(f, 1);
    let c2 = spec_cube_corner(f, 2);
    let n = spec_cube_normal(f);
    let (p00, p01, p02) = (c0[0] as int, c0[1] as int, c0[2] as int);
    let (p10, p11, p12) = (c1[0] as int, c1[1] as int, c1[2] as int);
    let (p20, p21, p22) = (c2[0] as int, c2[1] as int, c2[2] as int);
    let (n0, n1, n2) = (n[0] as int, n[1] as int, n[2] as int);
    if f == 0 {
        assert(spec_cube_corner(f, 0)[0] == 1 && spec_cube_corner(f, 0)[1] == -1 && spec_cube_corner(f, 0)[2] == -1);
        assert(spec_cube_corner(f, 1)[0] == 1 && spec_cube_corner(f, 1)[1] == 1 && spec_cube_corner(f, 1)[2] == -1);
        assert(spec_cube_corner(f, 2)[0] == 1 && spec_cube_corner(f, 2)[1] == 1 && spec_cube_corner(f, 2)[2] == 1);
        assert(spec_cube_normal(f)[0] == 1 && spec_cube_normal(f)[1] == 0 && spec_cube_normal(f)[2] == 0);
        assert((e(p10, p00) * e(p21, p01) - e(p11, p01) * e(p20, p00)) * n2 + (e(p11, p01) * e(p22, p02) - e(p12, p02) * e(p21, p01)) * n0 + (e(p12, p02) * e(p20, p00) - e(p10, p00) * e(p22, p02)) * n1 > 0) by (nonlinear_arith)
            requires
                p00 == 1,
                p01 == -1,
                p02 == -1,
                p10 == 1,
                p11 == 1,
                p12 == -1,
                p20 == 1,
                p21 == 1,
                p22 == 1,
                n0 == 1,
                n1 == 0,
                n2 == 0,
        ;
    } else if f == 1 {
        assert(spec_cube_corner(f, 0)[0] == -1 && spec_cube_corner(f, 0)[1] == -1 && spec_cube_corner(f, 0)[2] == 1);
        assert(spec_cube_corner(f, 1)[0] == -1 && spec_cube_corner(f, 1)[1] == 1 && spec_cube_corner(f, 1)[2] == 1);
        assert(spec_cube_corner(f, 2)[0] == -1 && spec_cube_corner(f, 2)[1] == 1 && spec_cube_corner(f, 2)[2] == -1);
        assert(spec_cube_normal(f)[0] == -1 && spec_cube_normal(f)[1] == 0 && spec_cube_normal(f)[2] == 0);
        assert((e(p10, p00) * e(p21, p01) - e(p11, p01) * e(p20, p00)) * n2 + (e(p11, p01) * e(p22, p02) - e(p12, p02) * e(p21, p01)) * n0 + (e(p12, p02) * e(p20, p00) - e(p10, p00) * e(p22, p02)) * n1 > 0) by (nonlinear_arith)
            requires
                p00 == -1,
                p01 == -1,
                p02 == 1,
                p10 == -1,
                p11 == 1,
                p12 == 1,
                p20 == -1,
                p21 == 1,
                p22 == -1,
                n0 == -1,
                n1 == 0,
                n2 == 0,
        ;
    } else if f == 2 {
        assert(spec_cube_corner(f, 0)[0] == -1 && spec_cube_corner(f, 0)[1] == 1 && spec_cube_corner(f, 0)[2] == -1);
        assert(spec_cube_corner(f, 1)[0] == -1 && spec_cube_corner(f, 1)[1] == 1 && spec_cube_corner(f, 1)[2] == 1);
        assert(spec_cube_corner(f, 2)[0] == 1 && spec_cube_corner(f, 2)[1] == 1 && spec_cube_corner(f, 2)[2] == 1);
        assert(spec_cube_normal(f)[0] == 0 && spec_cube_normal(f)[1] == 1 && spec_cube_normal(f)[2] == 0);
        assert((e(p10, p00) * e(p21, p01) - e(p11, p01) * e(p20, p00)) * n2 + (e(p11, p01) * e(p22, p02) - e(p12, p02) * e(p21, p01)) * n0 + (e(p12, p02) * e(p20, p00) - e(p10, p00) * e(p22, p02)) * n1 > 0) by (nonlinear_arith)
            requires
                p00 == -1,
                p01 == 1,
                p02 == -1,
                p10 == -1,
                p11 == 1,
                p12 == 1,
                p20 == 1,
                p21 == 1,
                p22 == 1,
                n0 == 0,
                n1 == 1,
                n2 == 0,
        ;
    } else if f == 3 {
        assert(spec_cube_corner(f, 0)[0] == -1 && spec_cube_corner(f, 0)[1] == -1 && spec_cube_corner(f, 0)[2] == 1);
        assert(spec_cube_corner(f, 1)[0] == -1 && spec_cube_corner(f, 1)[1] == -1 && spec_cube_corner(f, 1)[2] == -1);
        assert(spec_cube_corner(f, 2)[0] == 1 && spec_cube_corner(f, 2)[1] == -1 && spec_cube_corner(f, 2)[2] == -1);
        assert(spec_cube_normal(f)[0] == 0 && spec_cube_normal(f)[1] == -1 && spec_cube_normal(f)[2] == 0);
        assert((e(p10, p00) * e(p21, p01) - e(p11, p01) * e(p20, p00)) * n2 + (e(p11, p01) * e(p22, p02) - e(p12, p02) * e(p21, p01)) * n0 + (e(p12, p02) * e(p20, p00) - e(p10, p00) * e(p22, p02)) * n1 > 0) by (nonlinear_arith)
            requires
                p00 == -1,
                p01 == -1,
                p02 == 1,
                p10 == -1,
                p11 == -1,
                p12 == -1,
                p20 == 1,
                p21 == -1,
                p22 == -1,
                n0 == 0,
                n1 == -1,
                n2 == 0,
        ;
    } else if f == 4 {
        assert(spec_cube_corner(f, 0)[0] == -1 && spec_cube_corner(f, 0)[1] == -1 && spec_cube_corner(f, 0)[2] == 1);
        assert(spec_cube_corner(f, 1)[0] == 1 && spec_cube_corner(f, 1)[1] == -1 && spec_cube_corner(f, 1)[2] == 1);
        assert(spec_cube_corner(f, 2)[0] == 1 && spec_cube_corner(f, 2)[1] == 1 && spec_cube_corner(f, 2)[2] == 1);
        assert(spec_cube_normal(f)[0] == 0 && spec_cube_normal(f)[1] == 0 && spec_cube_normal(f)[2] == 1);
        assert((e(p10, p00) * e(p21, p01) - e(p11, p01) * e(p20, p00)) * n2 + (e(p11, p01) * e(p22, p02) - e(p12, p02) * e(p21, p01)) * n0 + (e(p12, p02) * e(p20, p00) - e(p10, p00) * e(p22, p02)) * n1 > 0) by (nonlinear_arith)
            requires
                p00 == -1,
                p01 == -1,
                p02 == 1,
                p10 == 1,
                p11 == -1,
                p12 == 1,
                p20 == 1,
                p21 == 1,
                p22 == 1,
                n0 == 0,
                n1 == 0,
                n2 == 1,
        ;
    } else {
        assert(spec_cube_corner(f, 0)[0] == 1 && spec_cube_corner(f, 0)[1] == -1 && spec_cube_corner(f, 0)[2] == -1);
        assert(spec_cube_corner(f, 1)[0] == -1 && spec_cube_corner(f, 1)[1] == -1 && spec_cube_corner(f, 1)[2] == -1);
        assert(spec_cube_corner(f, 2)[0] == -1 && spec_cube_corner(f, 2)[1] == 1 && spec_cube_corner(f, 2)[2] == -1);
        assert(spec_cube_normal(f)[0] == 0 && spec_cube_normal(f)[1] == 0 && spec_cube_normal(f)[2] == -1);
        assert((e(p10, p00) * e(p21, p01) - e(p11, p01) * e(p20, p00)) * n2 + (e(p11, p01) * e(p22, p02) - e(p12, p02) * e(p21, p01)) * n0 + (e(p12, p02) * e(p20, p00) - e(p10, p00) * e(p22, p02)) * n1 > 0) by (nonlinear_arith)
            requires
                p00 == 1,
                p01 == -1,
                p02 == -1,
                p10 == -1,
                p11 == -1,
                p12 == -1,
                p20 == -1,
                p21 == 1,
                p22 == -1,
                n0 == 0,
                n1 == 0,
                n2 == -1,
        ;
    }
}

/// Cube law: each face is two triangles over its own four corners, and the
/// first triangle winds counter-clockwise around the face's outward normal.
pub proof fn law_cube_faces()
    ensures
        forall|f: int, k: int|
            0 <= f < 6 && 0 <= k < 6 ==> #[trigger] spec_cube_indices()[6 * f + k] == 4 * f
                + spec_face_triangles()[k],
        forall|f: int|
            0 <= f < 6 ==> #[trigger] spec_winding(
                spec_cube_positions(),
                4 * f,
                4 * f + 1,
                4 * f + 2,
                spec_cube_normal(f),
            ) > 0,
{
    assert forall|f: int, k: int| 0 <= f < 6 && 0 <= k < 6 implies #[trigger] spec_cube_indices()[6 * f
        + k] == 4 * f + spec_face_triangles()[k] by {
        assert((6 * f + k) / 6 == f && (6 * f + k) % 6 == k);
    }
    assert forall|f: int| 0 <= f < 6 implies #[trigger] spec_winding(
        spec_cube_positions(),
        4 * f,
        4 * f + 1,
        4 * f + 2,
        spec_cube_normal(f),
    ) > 0 by {
        assert forall|c: int, a: int| 0 <= c < 3 && 0 <= a < 3 implies #[trigger] spec_component(
            spec_cube_positions(),
            4 * f + c,
            a,
        ) == spec_cube_corner(f, c)[a] by {
            lemma_cube_position(4 * f + c, a);
            assert((4 * f + c) / 4 == f && (4 * f + c) % 4 == c);
        }
        lemma_face_winding(f);
        assert(spec_component(spec_cube_positions(), 4 * f, 0) == spec_cube_corner(f, 0)[0]);
        assert(spec_component(spec_cube_positions(), 4 * f, 1) == spec_cube_corner(f, 0)[1]);
        assert(spec_component(spec_cube_positions(), 4 * f, 2) == spec_cube_corner(f, 0)[2]);
        assert(spec_component(spec_cube_positions(), 4 * f + 1, 0) == spec_cube_corner(f, 1)[0]);
        assert(spec_component(spec_cube_positions(), 4 * f + 1, 1) == spec_cube_corner(f, 1)[1]);
        assert(spec_component(spec_cube_positions(), 4 * f + 1, 2) == spec_cube_corner(f, 1)[2]);
        assert(spec_component(spec_cube_positions(), 4 * f + 2, 0) == spec_cube_corner(f, 2)[0]);
        assert(spec_component(spec_cube_positions(), 4 * f + 2, 1) == spec_cube_corner(f, 2)[1]);
        assert(spec_component(spec_cube_positions(), 4 * f + 2, 2) == spec_cube_corner(f, 2)[2]);
    }
}

} // verus!

verus! {

/// The indices as 16-bit values, when every index and the vertex count fit
/// in 16 bits.
pub fn indices_as_u16(indices: &[u32], vertex_count: usize) -> (short: Option<Vec<u16>>)
    ensures
        (vertex_count > 65535 || exists|i: int| 0 <= i < indices@.len() && #[trigger] indices@[i]
            > 65535) ==> short is None,
        !(vertex_count > 65535 || exists|i: int| 0 <= i < indices@.len() && #[trigger] indices@[i]
            > 65535) ==> (short matches Some(v) && v@.len() == indices@.len() && forall|i: int|
            0 <= i < indices@.len() ==> #[trigger] v@[i] == indices@[i]),
{
    if vertex_count > 65535 {
        return None;
    }
    let mut short: Vec<u16> = Vec::new();
    let mut i: usize = 0;
    while i < indices.len()
        invariant
            i <= indices@.len(),
            short@.len() == i,
            vertex_count <= 65535,
            forall|k: int| 0 <= k < i ==> #[trigger] short@[k] == indices@[k],
            forall|k: int| 0 <= k < i ==> #[trigger] indices@[k] <= 65535,
        decreases indices@.len() - i,
    {
        if indices[i] > 65535 {
            return None;
        }
        short.push(indices[i] as u16);
        i = i + 1;
    }
    Some(short)
}


/// Texture coordinate `axis` (0 for u, 1 for v) of corner `corner` of face
/// `face` of the cube.
pub open spec fn spec_cube_uv(face: int, corner: int, axis: int) -> int {
    spec_cube_uvs()[8 * face + 2 * corner + axis] as int
}

/// Every face of the cube maps the whole texture: its four corners, in
/// order, carry the texture corners (0,0), (1,0), (1,1) and (0,1), so no two
/// corners of a face share a texture coordinate pair and each next corner
/// moves along one texture axis only.
pub proof fn law_cube_faces_map_whole_texture()
    ensures
        forall|f: int, c: int|
            0 <= f < 6 && 0 <= c < 4 ==> #[trigger] spec_cube_uv(f, c, 0) == (if c == 1 || c == 2 {
                1int
            } else {
                0int
            }) && spec_cube_uv(f, c, 1) == (if c >= 2 {
                1int
            } else {
                0int
            }),
        forall|f: int, c1: int, c2: int|
            0 <= f < 6 && 0 <= c1 < c2 < 4 ==> #[trigger] spec_cube_uv(f, c1, 0) != #[trigger] spec_cube_uv(
                f,
                c2,
                0,
            ) || spec_cube_uv(f, c1, 1) != spec_cube_uv(f, c2, 1),
{
    assert forall|f: int, c: int| 0 <= f < 6 && 0 <= c < 4 implies #[trigger] spec_cube_uv(f, c, 0) == (if c
        == 1 || c == 2 {
        1int
    } else {
        0int
    }) && spec_cube_uv(f, c, 1) == (if c >= 2 {
        1int
    } else {
        0int
    }) by {
        assert((8 * f + 2 * c) % 8 == 2 * c);
        assert((8 * f + 2 * c + 1) % 8 == 2 * c + 1);
    }
}

/// The plane's texture follows its positions: at every corner u runs from 0
/// on the left edge (x = -1) to 1 on the right edge (x = 1), v runs from 0
/// on the top edge (y = 1) to 1 on the bottom edge (y = -1), and the corner
/// lies in z = 0 with the normal +Z.
pub proof fn law_plane_texture_follows_positions()
    ensures
        forall|k: int|
            0 <= k < 4 ==> 2 * (#[trigger] spec_plane_uvs()[2 * k]) as int == spec_component(
                spec_plane_positions(),
                k,
                0,
            ) + 1 && 2 * (spec_plane_uvs()[2 * k + 1] as int) == 1 - spec_component(spec_plane_positions(), k, 1)
                && spec_component(spec_plane_positions(), k, 2) == 0 && spec_component(spec_plane_normals(), k, 0)
                == 0 && spec_component(spec_plane_normals(), k, 1) == 0 && spec_component(
                spec_plane_normals(),
                k,
                2,
            ) == 1,
        spec_plane_uvs().len() == 8,
        spec_plane_positions().len() == 12,
{
    assert forall|k: int| 0 <= k < 4 implies 2 * (#[trigger] spec_plane_uvs()[2 * k]) as int == spec_component(
        spec_plane_positions(),
        k,
        0,
    ) + 1 && 2 * (spec_plane_uvs()[2 * k + 1] as int) == 1 - spec_component(spec_plane_positions(), k, 1)
        && spec_component(spec_plane_positions(), k, 2) == 0 && spec_component(spec_plane_normals(), k, 0) == 0
        && spec_component(spec_plane_normals(), k, 1) == 0 && spec_component(spec_plane_normals(), k, 2) == 1 by {
        if k == 0 {
        } else if k == 1 {
        } else if k == 2 {
        } else {
        }
    }
}
} // verus!
