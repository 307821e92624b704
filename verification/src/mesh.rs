//! Index buffers of the built-in meshes.
//!
//! The vertex data of the cube and the UV sphere is floating point and is
//! built outside this library; the index lists, which decide how those
//! vertices form triangles, are plain integers and are computed here.
use vstd::prelude::*;

verus! {

/// Number of vertices of the cube: four per face, so that each face has its
/// own normals.
pub const CUBE_VERTEX_COUNT: u32 = 24;

/// Index of the `c`-th corner (0..6) of the two triangles of cube face `f`.
/// Vertices `4f..4f+4` are the corners of face `f`, counter-clockwise.
pub open spec fn cube_index(f: int, c: int) -> int {
    4 * f + if c == 0 {
        0int
    } else if c == 1 {
        1int
    } else if c == 2 {
        2int
    } else if c == 3 {
        0int
    } else if c == 4 {
        2int
    } else {
        3int
    }
}

/// Index list of the unit cube: two triangles per face, six faces
/// (front, back, top, bottom, right, left).
pub fn cube_indices() -> (res: Vec<u32>)
    ensures
        res@.len() == 36,
        forall|f: int, c: int|
            0 <= f < 6 && 0 <= c < 6 ==> #[trigger] res@[6 * f + c] == cube_index(f, c),
{
    let v: Vec<u32> = vec![
        0, 1, 2, 0, 2, 3,  // front
        4, 5, 6, 4, 6, 7,  // back
        8, 9, 10, 8, 10, 11,  // top
        12, 13, 14, 12, 14, 15,  // bottom
        16, 17, 18, 16, 18, 19,  // right
        20, 21, 22, 20, 22, 23,  // left
    ];
    proof {
        assert forall|f: int, c: int| 0 <= f < 6 && 0 <= c < 6 implies #[trigger] v@[6 * f + c]
            == cube_index(f, c) by {
            assert(0 <= 6 * f + c < 36);
        }
    }
    v
}

/// Every index of the cube names one of its 24 vertices.
pub proof fn lemma_cube_indices_in_range(f: int, c: int)
    requires
        0 <= f < 6,
        0 <= c < 6,
    ensures
        0 <= cube_index(f, c) < CUBE_VERTEX_COUNT,
{
}

/// Number of vertices of the UV sphere with the given tessellation: a ring of
/// `slices + 1` vertices for each of the `stacks + 1` latitudes.
pub open spec fn sphere_vertex_count(stacks: int, slices: int) -> int {
    (stacks + 1) * (slices + 1)
}

/// Position in the index list of corner `c` of the quad at stack `i`, slice `j`.
pub open spec fn sphere_slot(slices: int, i: int, j: int, c: int) -> int {
    6 * (i * slices + j) + c
}

/// Corner `c` (0..6) of the two triangles of the quad at stack `i`, slice `j`:
/// `first = i * (slices + 1) + j` is the quad's vertex on ring `i` and
/// `second = first + slices + 1` the one below it on ring `i + 1`; the
/// triangles are (first, second, first + 1) and (second, second + 1, first + 1).
pub open spec fn sphere_corner(slices: int, i: int, j: int, c: int) -> int {
    let first = i * (slices + 1) + j;
    let second = first + slices + 1;
    if c == 0 {
        first
    } else if c == 1 {
        second
    } else if c == 2 {
        first + 1
    } else if c == 3 {
        second
    } else if c == 4 {
        second + 1
    } else {
        first + 1
    }
}

/// The largest index of the sphere fits in a `u32` (no tessellation that
/// produces no quad is restricted).
pub open spec fn sphere_indices_fit(stacks: int, slices: int) -> bool {
    stacks == 0 || slices == 0 || stacks * (slices + 1) + slices <= u32::MAX
}

proof fn lemma_corner_bound(stacks: int, slices: int, i: int, j: int)
    by (nonlinear_arith)
    requires
        0 <= i < stacks,
        0 <= j < slices,
    ensures
        i * (slices + 1) + j + slices + 2 <= stacks * (slices + 1) + slices,
        i * (slices + 1) + j + slices + 2 < sphere_vertex_count(stacks, slices),
{
    assert(i * (slices + 1) <= (stacks - 1) * (slices + 1));
}

proof fn lemma_slot_step(slices: int, i: int, j: int)
    by (nonlinear_arith)
    requires
        0 <= i,
        0 <= j < slices,
    ensures
        sphere_slot(slices, i, j, 0) == 6 * (i * slices + j),
        6 * (i * slices + j) + 6 == 6 * (i * slices + (j + 1)),
        6 * (i * slices + slices) == 6 * ((i + 1) * slices),
{
}

proof fn lemma_slots_distinct(slices: int, i1: int, j1: int, c1: int, i2: int, j2: int, c2: int)
    by (nonlinear_arith)
    requires
        0 <= i1,
        0 <= i2,
        0 <= j1 < slices,
        0 <= j2 < slices,
        0 <= c1 < 6,
        0 <= c2 < 6,
        i1 < i2 || (i1 == i2 && j1 < j2),
    ensures
        sphere_slot(slices, i1, j1, c1) < sphere_slot(slices, i2, j2, c2),
        sphere_slot(slices, i1, j1, c1) < 6 * (i2 * slices + j2),
{
    if i1 < i2 {
        assert(i1 * slices + j1 < (i1 + 1) * slices);
        assert((i1 + 1) * slices <= i2 * slices);
    }
}

/// Index list of the UV sphere with `stacks` latitude bands and `slices`
/// longitude segments: two triangles per quad, quads in stack-major order.
pub fn sphere_indices(stacks: u32, slices: u32) -> (res: Vec<u32>)
    requires
        sphere_indices_fit(stacks as int, slices as int),
    ensures
        res@.len() == 6 * stacks * slices,
        forall|i: int, j: int, c: int|
            0 <= i < stacks && 0 <= j < slices && 0 <= c < 6 ==> #[trigger] res@[sphere_slot(
                slices as int,
                i,
                j,
                c,
            )] == sphere_corner(slices as int, i, j, c),
{
    let mut indices: Vec<u32> = Vec::new();
    let mut i: u32 = 0;
    while i < stacks
        invariant
            0 <= i <= stacks,
            sphere_indices_fit(stacks as int, slices as int),
            indices@.len() == 6 * (i * slices),
            forall|i2: int, j2: int, c: int|
                0 <= i2 < i && 0 <= j2 < slices && 0 <= c < 6 ==> #[trigger] indices@[sphere_slot(
                    slices as int,
                    i2,
                    j2,
                    c,
                )] == sphere_corner(slices as int, i2, j2, c),
        decreases stacks - i,
    {
        let mut j: u32 = 0;
        while j < slices
            invariant
                0 <= i < stacks,
                0 <= j <= slices,
                sphere_indices_fit(stacks as int, slices as int),
                indices@.len() == 6 * (i * slices + j),
                forall|i2: int, j2: int, c: int|
                    0 <= i2 && 0 <= j2 < slices && 0 <= c < 6 && (i2 < i || (i2 == i && j2 < j))
                        ==> #[trigger] indices@[sphere_slot(slices as int, i2, j2, c)]
                        == sphere_corner(slices as int, i2, j2, c),
            decreases slices - j,
        {
            proof {
                lemma_corner_bound(stacks as int, slices as int, i as int, j as int);
                lemma_slot_step(slices as int, i as int, j as int);
            }
            let first = i * (slices + 1) + j;
            let second = first + slices + 1;
            let ghost before = indices@;
            indices.push(first);
            indices.push(second);
            indices.push(first + 1);
            indices.push(second);
            indices.push(second + 1);
            indices.push(first + 1);
            proof {
                let base = 6 * (i * slices + j);
                assert forall|i2: int, j2: int, c: int|
                    0 <= i2 && 0 <= j2 < slices && 0 <= c < 6 && (i2 < i || (i2 == i && j2 < j
                        + 1)) implies #[trigger] indices@[sphere_slot(slices as int, i2, j2, c)]
                    == sphere_corner(slices as int, i2, j2, c) by {
                    if i2 == i && j2 == j {
                        assert(sphere_slot(slices as int, i2, j2, c) == base + c);
                    } else {
                        lemma_slots_distinct(slices as int, i2, j2, c, i as int, j as int, 0);
                        assert(indices@[sphere_slot(slices as int, i2, j2, c)] == before[sphere_slot(
                            slices as int,
                            i2,
                            j2,
                            c,
                        )]);
                    }
                }
            }
            j = j + 1;
        }
        proof {
            assert(6 * (i * slices + slices) == 6 * ((i + 1) * slices)) by (nonlinear_arith);
        }
        i = i + 1;
    }
    proof {
        assert(6 * (stacks * slices) == 6 * stacks * slices) by (nonlinear_arith);
    }
    indices
}

/// Every index of the sphere names one of its `(stacks + 1) * (slices + 1)`
/// vertices.
pub proof fn lemma_sphere_indices_in_range(stacks: int, slices: int, i: int, j: int, c: int)
    requires
        0 <= i < stacks,
        0 <= j < slices,
        0 <= c < 6,
    ensures
        0 <= sphere_corner(slices, i, j, c) < sphere_vertex_count(stacks, slices),
{
    lemma_corner_bound(stacks, slices, i, j);
    assert(0 <= i * (slices + 1)) by (nonlinear_arith)
        requires
            0 <= i,
            0 <= slices,
    ;
}

/// Index list drawing `vertex_count` vertices in order, used for meshes that
/// come without one. The count is taken modulo 2^32, as a `u32` cast does.
pub fn sequential_indices(vertex_count: usize) -> (res: Vec<u32>)
    ensures
        res@.len() == (vertex_count as u32),
        forall|k: int| 0 <= k < res@.len() ==> #[trigger] res@[k] == k,
{
    let n = vertex_count as u32;
    let mut v: Vec<u32> = Vec::new();
    let mut k: u32 = 0;
    while k < n
        invariant
            k <= n,
            n == vertex_count as u32,
            v@.len() == k,
            forall|m: int| 0 <= m < k ==> #[trigger] v@[m] == m,
        decreases n - k,
    {
        v.push(k);
        k = k + 1;
    }
    v
}

/// Byte `b` (0 = least significant) of `x`.
pub open spec fn byte_of(x: u32, b: int) -> u8 {
    ((x as int / if b == 0 {
        1int
    } else if b == 1 {
        0x100int
    } else if b == 2 {
        0x1_0000int
    } else {
        0x100_0000int
    }) % 0x100) as u8
}

/// The bytes of `s`, each value least significant byte first.
pub open spec fn le_bytes(s: Seq<u32>) -> Seq<u8> {
    Seq::new(4 * s.len(), |k: int| byte_of(s[k / 4], k % 4))
}

/// The bytes of `s`, each value most significant byte first.
pub open spec fn be_bytes(s: Seq<u32>) -> Seq<u8> {
    Seq::new(4 * s.len(), |k: int| byte_of(s[k / 4], 3 - k % 4))
}

/// `bytemuck::cast_slice::<u32, u8>`: the in-memory bytes of the values,
/// in the machine's byte order (little- or big-endian), four per value. The
/// cast from `u32` to `u8` cannot fail: `u8` needs no alignment and every
/// length of `u32` values is a whole number of bytes.
#[verifier::external_body]
fn cast_u32_bytes(values: &[u32]) -> (res: Vec<u8>)
    ensures
        res@ == le_bytes(values@) || res@ == be_bytes(values@),
{
    bytemuck::cast_slice::<u32, u8>(values).to_vec()
}

/// Contents of an index buffer: the indices as bytes in the machine's byte
/// order, and the index count that the draw call uses (the length modulo
/// 2^32, as a `u32` cast gives it).
pub fn index_buffer_contents(indices: &Vec<u32>) -> (res: (Vec<u8>, u32))
    ensures
        res.0@ == le_bytes(indices@) || res.0@ == be_bytes(indices@),
        res.1 == indices@.len() as u32,
{
    let bytes = cast_u32_bytes(indices.as_slice());
    (bytes, indices.len() as u32)
}

/// An index buffer holds four bytes per index, whatever the byte order.
pub proof fn lemma_index_bytes_len(indices: Seq<u32>)
    ensures
        le_bytes(indices).len() == 4 * indices.len(),
        be_bytes(indices).len() == 4 * indices.len(),
{
}

/// Half the extent of the ground grid, in grid units.
pub const GRID_SIZE: i32 = 20;

/// One grid line pair: the line `x = offset` and the line `z = offset`.
#[derive(Debug, Clone, Copy, PartialEq, Eq, Structural)]
pub struct GridLine {
    pub offset: i32,
    /// Every fifth line is drawn brighter.
    pub major: bool,
}

/// The grid offset at position `k` of the line list: `-20..=20` without 0
/// (the axes are drawn separately).
pub open spec fn grid_offset(k: int) -> int {
    if k < GRID_SIZE {
        k - GRID_SIZE
    } else {
        k - GRID_SIZE + 1
    }
}

/// The line pairs of the ground grid, from `-20` to `20`, skipping the axes.
pub fn grid_lines() -> (res: Vec<GridLine>)
    ensures
        res@.len() == 2 * GRID_SIZE,
        forall|k: int|
            0 <= k < res@.len() ==> {
                &&& #[trigger] res@[k].offset == grid_offset(k)
                &&& res@[k].major == (grid_offset(k) % 5 == 0)
            },
{
    let mut lines: Vec<GridLine> = Vec::new();
    let mut i: i32 = -GRID_SIZE;
    while i <= GRID_SIZE
        invariant
            -GRID_SIZE <= i <= GRID_SIZE + 1,
            lines@.len() == if i <= 0 {
                i + GRID_SIZE
            } else {
                i + GRID_SIZE - 1
            },
            forall|k: int|
                0 <= k < lines@.len() ==> {
                    &&& #[trigger] lines@[k].offset == grid_offset(k)
                    &&& lines@[k].major == (grid_offset(k) % 5 == 0)
                },
        decreases GRID_SIZE + 1 - i,
    {
        if i != 0 {
            lines.push(GridLine { offset: i, major: i % 5 == 0 });
        }
        i = i + 1;
    }
    lines
}

} // verus!
