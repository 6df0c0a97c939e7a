//! Index data of the cube the skybox is drawn on.
use vstd::prelude::*;

verus! {

/// Faces of the skybox cube.
pub const SKYBOX_FACES: u32 = 6;
/// Vertices of the skybox cube: four corners per face.
pub const SKYBOX_VERTEX_COUNT: u32 = 24;
/// Indices drawn for the skybox: two triangles per face.
pub const SKYBOX_INDEX_COUNT: u32 = 36;

/// Corner (0 to 3, in the face's own vertex order) used at position `k` of a
/// face's six indices: triangles (0, 1, 2) and (0, 2, 3).
pub open spec fn face_corner(k: int) -> int {
    if k == 0 {
        0
    } else if k == 1 {
        1
    } else if k == 2 {
        2
    } else if k == 3 {
        0
    } else if k == 4 {
        2
    } else {
        3
    }
}

/// The skybox index at position `i`: face `i / 6`, whose corners are the four
/// vertices starting at `4 * (i / 6)`.
pub open spec fn cube_index(i: int) -> int {
    4 * (i / 6) + face_corner(i % 6)
}

/// The index list of the skybox cube: each face's quad split into two
/// triangles over that face's four vertices.
pub fn skybox_cube_indices() -> (r: Vec<u32>)
    ensures
        r@.len() == SKYBOX_INDEX_COUNT,
        forall|i: int| 0 <= i < SKYBOX_INDEX_COUNT ==> #[trigger] r@[i] as int == cube_index(i),
        forall|f: int|
            0 <= f < SKYBOX_FACES ==> {
                &&& #[trigger] r@[6 * f] == 4 * f
                &&& r@[6 * f + 1] == 4 * f + 1
                &&& r@[6 * f + 2] == 4 * f + 2
                &&& r@[6 * f + 3] == 4 * f
                &&& r@[6 * f + 4] == 4 * f + 2
                &&& r@[6 * f + 5] == 4 * f + 3
            },
{
    let mut indices: Vec<u32> = Vec::new();
    let mut face: u32 = 0;
    while face < SKYBOX_FACES
        invariant
            face <= SKYBOX_FACES,
            indices@.len() == 6 * face,
            forall|i: int| 0 <= i < indices@.len() ==> #[trigger] indices@[i] as int == cube_index(i),
        decreases SKYBOX_FACES - face,
    {
        let base = 4 * face;
        let ghost start = indices@.len() as int;
        indices.push(base);
        indices.push(base + 1);
        indices.push(base + 2);
        indices.push(base);
        indices.push(base + 2);
        indices.push(base + 3);
        assert forall|i: int| start <= i < start + 6 implies #[trigger] indices@[i] as int == cube_index(i) by {
            assert(i / 6 == face as int);
            assert(i % 6 == i - start);
        }
        face = face + 1;
    }
    assert forall|f: int| 0 <= f < SKYBOX_FACES implies {
        &&& #[trigger] indices@[6 * f] == 4 * f
        &&& indices@[6 * f + 1] == 4 * f + 1
        &&& indices@[6 * f + 2] == 4 * f + 2
        &&& indices@[6 * f + 3] == 4 * f
        &&& indices@[6 * f + 4] == 4 * f + 2
        &&& indices@[6 * f + 5] == 4 * f + 3
    } by {
        assert(indices@[6 * f] as int == cube_index(6 * f));
        assert(indices@[6 * f + 1] as int == cube_index(6 * f + 1));
        assert(indices@[6 * f + 2] as int == cube_index(6 * f + 2));
        assert(indices@[6 * f + 3] as int == cube_index(6 * f + 3));
        assert(indices@[6 * f + 4] as int == cube_index(6 * f + 4));
        assert(indices@[6 * f + 5] as int == cube_index(6 * f + 5));
        assert((6 * f) / 6 == f && (6 * f) % 6 == 0);
        assert((6 * f + 1) / 6 == f && (6 * f + 1) % 6 == 1);
        assert((6 * f + 2) / 6 == f && (6 * f + 2) % 6 == 2);
        assert((6 * f + 3) / 6 == f && (6 * f + 3) % 6 == 3);
        assert((6 * f + 4) / 6 == f && (6 * f + 4) % 6 == 4);
        assert((6 * f + 5) / 6 == f && (6 * f + 5) % 6 == 5);
    }
    indices
}

/// Every skybox index names one of the cube's vertices, and the six indices of
/// a face name only that face's four vertices.
pub proof fn lemma_cube_indices_in_range(i: int)
    requires
        0 <= i < SKYBOX_INDEX_COUNT,
    ensures
        0 <= cube_index(i) < SKYBOX_VERTEX_COUNT,
        4 * (i / 6) <= cube_index(i) < 4 * (i / 6) + 4,
{
}

} // verus!
