//! Laying out an indexed mesh as the buffers the GPU draws: one GPU vertex per
//! face corner, carrying the position of that corner's mesh vertex and the
//! normal of its face, and an index buffer that draws them as a triangle list.
//!
//! The positions and normals themselves are floating-point data; the layout
//! records, for each GPU vertex, which mesh vertex and which face supply them.

use vstd::prelude::*;
use stl_io::IndexedMesh;
use crate::stl::{
    face_corners, face_count, faces_in_range, indexed_mesh_faces, indexed_mesh_vertex_count,
    vertex_count,
};

verus! {

/// The buffers for drawing a mesh, one GPU vertex per face corner.
pub struct GPUMesh {
    /// For each GPU vertex, the index of the mesh vertex giving its position.
    pub positions: Vec<usize>,
    /// For each GPU vertex, the index of the face giving its normal.
    pub normals: Vec<usize>,
    /// The index buffer, drawn as a triangle list.
    pub indices: Vec<u32>,
    /// The number of indices.
    pub num_indices: u32,
}

/// `m` lays out the faces `faces` in order: face `f` becomes GPU vertices
/// `3f`, `3f + 1`, `3f + 2`, at its three corners and with its normal, and
/// the index buffer lists every GPU vertex once, in order.
pub open spec fn lays_out(faces: Seq<(usize, usize, usize)>, m: GPUMesh) -> bool {
    &&& m.positions@.len() == 3 * faces.len()
    &&& m.normals@.len() == 3 * faces.len()
    &&& m.indices@.len() == 3 * faces.len()
    &&& m.num_indices == 3 * faces.len()
    &&& forall|f: int|
        0 <= f < faces.len() ==> #[trigger] face_laid_out(faces, m.positions@, m.normals@, f)
    &&& forall|k: int| 0 <= k < 3 * faces.len() ==> #[trigger] m.indices@[k] == k
}

/// GPU vertices `3f`, `3f + 1` and `3f + 2` sit at the three corners of face
/// `f`, in order, and carry the normal of face `f`.
pub open spec fn face_laid_out(
    faces: Seq<(usize, usize, usize)>,
    positions: Seq<usize>,
    normals: Seq<usize>,
    f: int,
) -> bool {
    &&& faces[f] == (positions[3 * f], positions[3 * f + 1], positions[3 * f + 2])
    &&& normals[3 * f] == f
    &&& normals[3 * f + 1] == f
    &&& normals[3 * f + 2] == f
}

/// Drawing the index buffer as a triangle list draws the faces of the mesh:
/// triangle `t` has its corners at the three corners of face `t`, in order,
/// and carries the normal of face `t`.
pub proof fn lemma_draws_faces(faces: Seq<(usize, usize, usize)>, m: GPUMesh, t: int)
    requires
        lays_out(faces, m),
        0 <= t < m.num_indices / 3,
    ensures
        faces[t] == (
            m.positions@[m.indices@[3 * t] as int],
            m.positions@[m.indices@[3 * t + 1] as int],
            m.positions@[m.indices@[3 * t + 2] as int],
        ),
        m.normals@[m.indices@[3 * t] as int] == t,
        m.normals@[m.indices@[3 * t + 1] as int] == t,
        m.normals@[m.indices@[3 * t + 2] as int] == t,
{
    assert(m.indices@[3 * t] == 3 * t);
    assert(m.indices@[3 * t + 1] == 3 * t + 1);
    assert(m.indices@[3 * t + 2] == 3 * t + 2);
    assert(face_laid_out(faces, m.positions@, m.normals@, t));
}

/// A list of faces has one layout: any two buffers that lay out the same
/// faces hold the same positions, normals and indices.
pub proof fn lemma_layout_unique(faces: Seq<(usize, usize, usize)>, m1: GPUMesh, m2: GPUMesh)
    requires
        lays_out(faces, m1),
        lays_out(faces, m2),
    ensures
        m1.positions@ == m2.positions@,
        m1.normals@ == m2.normals@,
        m1.indices@ == m2.indices@,
        m1.num_indices == m2.num_indices,
{
    assert forall|k: int| 0 <= k < 3 * faces.len() implies m1.positions@[k] == m2.positions@[k]
        && m1.normals@[k] == m2.normals@[k] by {
        let f = k / 3;
        assert(0 <= f < faces.len());
        assert(k == 3 * f || k == 3 * f + 1 || k == 3 * f + 2);
        assert(face_laid_out(faces, m1.positions@, m1.normals@, f));
        assert(face_laid_out(faces, m2.positions@, m2.normals@, f));
    }
    assert(m1.positions@ =~= m2.positions@);
    assert(m1.normals@ =~= m2.normals@);
    assert(m1.indices@ =~= m2.indices@);
}

/// Whether a mesh can be laid out: every corner names one of its vertices and
/// the indices of all corners fit in `u32`.
pub open spec fn can_lay_out(mesh: IndexedMesh) -> bool {
    &&& faces_in_range(mesh)
    &&& 3 * indexed_mesh_faces(mesh).len() <= u32::MAX
}

impl GPUMesh {
    /// Lays out `stl` for drawing.
    pub fn new(stl: &IndexedMesh) -> (m: GPUMesh)
        requires
            can_lay_out(*stl),
        ensures
            lays_out(indexed_mesh_faces(*stl), m),
            forall|k: int|
                0 <= k < m.positions@.len() ==> #[trigger] m.positions@[k]
                    < indexed_mesh_vertex_count(*stl),
    {
        let ghost faces = indexed_mesh_faces(*stl);
        let ghost nv = indexed_mesh_vertex_count(*stl);
        let n = face_count(stl);
        let mut positions: Vec<usize> = Vec::new();
        let mut normals: Vec<usize> = Vec::new();
        let mut indices: Vec<u32> = Vec::new();
        let mut f: usize = 0;
        while f < n
            invariant
                faces == indexed_mesh_faces(*stl),
                nv == indexed_mesh_vertex_count(*stl),
                can_lay_out(*stl),
                n == faces.len(),
                f <= n,
                positions@.len() == 3 * f,
                normals@.len() == 3 * f,
                indices@.len() == 3 * f,
                forall|g: int|
                    0 <= g < f ==> #[trigger] face_laid_out(faces, positions@, normals@, g),
                forall|k: int| 0 <= k < 3 * f ==> #[trigger] indices@[k] == k,
                forall|k: int| 0 <= k < 3 * f ==> #[trigger] positions@[k] < nv,
            decreases n - f,
        {
            let ghost old_positions = positions@;
            let ghost old_normals = normals@;
            let base = positions.len() as u32;
            let (a, b, c) = face_corners(stl, f);
            assert(faces[f as int] == (a, b, c));
            positions.push(a);
            positions.push(b);
            positions.push(c);
            normals.push(f);
            normals.push(f);
            normals.push(f);
            indices.push(base);
            indices.push(base + 1);
            indices.push(base + 2);
            assert forall|g: int| 0 <= g < f + 1 implies #[trigger] face_laid_out(
                faces,
                positions@,
                normals@,
                g,
            ) by {
                if g < f {
                    assert(face_laid_out(faces, old_positions, old_normals, g));
                } else {
                    assert(positions@ == old_positions.push(a).push(b).push(c));
                    assert(normals@ == old_normals.push(f).push(f).push(f));
                }
            }
            f = f + 1;
        }
        let num_indices = indices.len() as u32;
        GPUMesh { positions, normals, indices, num_indices }
    }

    /// Lays out `stl` for drawing if it can be laid out, and returns `None`
    /// if a corner names no vertex of the mesh or there are too many corners
    /// to index with `u32`.
    pub fn try_new(stl: &IndexedMesh) -> (r: Option<GPUMesh>)
        ensures
            r is Some <==> can_lay_out(*stl),
            r matches Some(m) ==> lays_out(indexed_mesh_faces(*stl), m),
    {
        let ghost faces = indexed_mesh_faces(*stl);
        let n = face_count(stl);
        if n > u32::MAX as usize / 3 {
            return None;
        }
        let nv = vertex_count(stl);
        let mut f: usize = 0;
        while f < n
            invariant
                faces == indexed_mesh_faces(*stl),
                nv == indexed_mesh_vertex_count(*stl),
                n == faces.len(),
                f <= n,
                forall|g: int|
                    0 <= g < f ==> {
                        let c = #[trigger] faces[g];
                        c.0 < nv && c.1 < nv && c.2 < nv
                    },
            decreases n - f,
        {
            let (a, b, c) = face_corners(stl, f);
            if a >= nv || b >= nv || c >= nv {
                assert(faces[f as int] == (a, b, c));
                return None;
            }
            f = f + 1;
        }
        Some(GPUMesh::new(stl))
    }
}

} // verus!
