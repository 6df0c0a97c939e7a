//! Assembly of mesh data from the attribute streams of a glTF primitive.
use vstd::prelude::*;

verus! {

/// The vertices (of type `V`) and triangle indices of one mesh primitive.
pub struct MeshData<V> {
    pub vertices: Vec<V>,
    pub indices: Vec<u32>,
}

impl<V> MeshData<V> {
    /// Mesh data over the given vertices and indices.
    pub fn new(vertices: Vec<V>, indices: Vec<u32>) -> (r: Self)
        ensures
            r.vertices@ == vertices@,
            r.indices@ == indices@,
    {
        MeshData { vertices, indices }
    }
}

/// The smaller of two lengths.
pub open spec fn min_len(a: int, b: int) -> int {
    if a <= b {
        a
    } else {
        b
    }
}

/// Pairs each position with the texture coordinate at the same position, in
/// order; the result is as long as the shorter stream (a primitive without
/// texture coordinates yields no vertices).
pub fn pair_attributes<P: Copy, T: Copy>(positions: &Vec<P>, tex_coords: &Vec<T>) -> (r: Vec<(P, T)>)
    ensures
        r@.len() == min_len(positions@.len() as int, tex_coords@.len() as int),
        forall|i: int| 0 <= i < r@.len() ==> #[trigger] r@[i] == (positions@[i], tex_coords@[i]),
{
    let n = if positions.len() <= tex_coords.len() {
        positions.len()
    } else {
        tex_coords.len()
    };
    let mut out: Vec<(P, T)> = Vec::with_capacity(n);
    let mut i: usize = 0;
    while i < n
        invariant
            n == min_len(positions@.len() as int, tex_coords@.len() as int),
            i <= n,
            out@.len() == i,
            forall|j: int| 0 <= j < i ==> #[trigger] out@[j] == (positions@[j], tex_coords@[j]),
        decreases n - i,
    {
        out.push((positions[i], tex_coords[i]));
        i = i + 1;
    }
    out
}

/// The bytes of an image embedded in a binary buffer: `length` bytes starting
/// at `offset`.
pub fn embedded_image_bytes(buffer: &Vec<u8>, offset: usize, length: usize) -> (r: Vec<u8>)
    requires
        offset + length <= buffer.len(),
    ensures
        r@ == buffer@.subrange(offset as int, offset + length),
{
    let mut out: Vec<u8> = Vec::with_capacity(length);
    let mut i: usize = 0;
    while i < length
        invariant
            offset + length <= buffer.len(),
            i <= length,
            out@ == buffer@.subrange(offset as int, offset + i),
        decreases length - i,
    {
        out.push(buffer[offset + i]);
        i = i + 1;
        assert(out@ =~= buffer@.subrange(offset as int, offset + i));
    }
    out
}

} // verus!
