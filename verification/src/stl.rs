//! Reading an STL file's contents into an indexed mesh with `stl_io`, and the
//! views of that mesh that the rest of the library reads: its faces, as
//! triples of vertex indices, and its number of vertices.

use vstd::prelude::*;
use stl_io::IndexedMesh;

verus! {

#[verifier::external_type_specification]
#[verifier::external_body]
pub struct ExIndexedMesh(stl_io::IndexedMesh);

#[verifier::external_type_specification]
#[verifier::external_body]
pub struct ExIoError(std::io::Error);

/// The faces of a mesh, each as the indices of its three corners in the
/// mesh's vertex list, in the mesh's order.
pub uninterp spec fn indexed_mesh_faces(mesh: IndexedMesh) -> Seq<(usize, usize, usize)>;

/// The number of vertices in a mesh's vertex list.
pub uninterp spec fn indexed_mesh_vertex_count(mesh: IndexedMesh) -> nat;

/// What `stl_io::read_stl` returns for the given bytes: the mesh it makes of
/// them, or the error it reports.
pub uninterp spec fn stl_parse(bytes: Seq<u8>) -> Result<IndexedMesh, std::io::Error>;

/// Every corner of every face names a vertex of the mesh.
pub open spec fn faces_in_range(mesh: IndexedMesh) -> bool {
    forall|f: int|
        0 <= f < indexed_mesh_faces(mesh).len() ==> {
            let c = #[trigger] indexed_mesh_faces(mesh)[f];
            &&& c.0 < indexed_mesh_vertex_count(mesh)
            &&& c.1 < indexed_mesh_vertex_count(mesh)
            &&& c.2 < indexed_mesh_vertex_count(mesh)
        }
}

/// Calls `stl_io::read_stl` on a cursor over `bytes` (ASCII or binary STL).
/// Claimed: the call returns `stl_parse` of the bytes, mesh or error alike;
/// and every face index of a mesh it returns is below the vertex count,
/// since `as_indexed_triangles` gives each corner either the index of a
/// vertex already pushed or that of the vertex it pushes right then.
/// What the error is on given bytes is left to the name.
#[verifier::external_body]
fn read_stl_bytes(bytes: &[u8]) -> (r: Result<IndexedMesh, std::io::Error>)
    ensures
        r == stl_parse(bytes@),
        r matches Ok(mesh) ==> faces_in_range(mesh),
{
    stl_io::read_stl(&mut std::io::Cursor::new(bytes))
}

/// Reads `mesh.faces.len()`. Claimed: the number of faces.
#[verifier::external_body]
pub(crate) fn face_count(mesh: &IndexedMesh) -> (n: usize)
    ensures
        n == indexed_mesh_faces(*mesh).len(),
{
    mesh.faces.len()
}

/// Reads `mesh.faces[f].vertices`. Claimed: the corner indices of face `f`.
#[verifier::external_body]
pub(crate) fn face_corners(mesh: &IndexedMesh, f: usize) -> (c: (usize, usize, usize))
    requires
        f < indexed_mesh_faces(*mesh).len(),
    ensures
        c == indexed_mesh_faces(*mesh)[f as int],
{
    let v = mesh.faces[f].vertices;
    (v[0], v[1], v[2])
}

/// Reads `mesh.vertices.len()`. Claimed: the number of vertices.
#[verifier::external_body]
pub(crate) fn vertex_count(mesh: &IndexedMesh) -> (n: usize)
    ensures
        n == indexed_mesh_vertex_count(*mesh),
{
    mesh.vertices.len()
}

/// Why an STL could not be loaded.
pub enum StlError {
    /// `stl_io` could not read the bytes as ASCII or binary STL.
    Unreadable(std::io::Error),
}

/// Loads an STL, given the contents of its file, into an indexed mesh that
/// the renderer can lay out into buffers. Where `stl_io` cannot read the
/// bytes, the error it reports is returned unchanged inside
/// [`StlError::Unreadable`].
pub fn load_stl_from_bytes(bytes: &[u8]) -> (r: Result<IndexedMesh, StlError>)
    ensures
        match stl_parse(bytes@) {
            Ok(mesh) => r == Ok::<IndexedMesh, StlError>(mesh),
            Err(e) => r == Err::<IndexedMesh, StlError>(StlError::Unreadable(e)),
        },
        r matches Ok(mesh) ==> faces_in_range(mesh),
{
    match read_stl_bytes(bytes) {
        Ok(mesh) => Ok(mesh),
        Err(e) => Err(StlError::Unreadable(e)),
    }
}

} // verus!
