use crate::scene::{Point, Uv};
use vstd::prelude::*;

verus! {

/// A renderable triangle soup: one position, one normal and one texture
/// coordinate per corner, and an index buffer that names the corners in
/// order.
#[derive(Debug, Clone)]
pub struct MeshArtifact {
    pub positions: Vec<Point>,
    pub normals: Vec<Point>,
    pub uvs: Vec<Uv>,
    pub indices: Vec<usize>,
}

/// Whether positions and normals can be packaged together: one normal per
/// position, in whole triangles.
pub open spec fn assembles(positions: Seq<Point>, normals: Seq<Point>) -> bool {
    positions.len() == normals.len() && positions.len() % 3 == 0
}

impl MeshArtifact {
    /// The invariant of an assembled mesh. The four attributes have one entry
    /// per corner, the corners come in whole triangles, every texture
    /// coordinate is (0, 0), written as the bit pattern of `+0.0`, and the
    /// index buffer is 0, 1, 2, ... in order.
    pub open spec fn wf(&self) -> bool {
        &&& self.positions@.len() % 3 == 0
        &&& self.normals@.len() == self.positions@.len()
        &&& self.uvs@.len() == self.positions@.len()
        &&& self.indices@.len() == self.positions@.len()
        &&& forall|k: int| 0 <= k < self.uvs@.len() ==> #[trigger] self.uvs@[k] == [0u32, 0u32]
        &&& forall|k: int| 0 <= k < self.indices@.len() ==> #[trigger] self.indices@[k] == k
    }

    /// The number of triangles of the mesh.
    pub open spec fn triangles(&self) -> nat {
        self.positions@.len() / 3
    }

    /// A well-formed mesh has three positions, three normals, three texture
    /// coordinates and three indices per triangle: flattening shares
    /// nothing.
    pub proof fn lemma_three_per_triangle(&self)
        requires
            self.wf(),
        ensures
            self.positions@.len() == 3 * self.triangles(),
            self.normals@.len() == 3 * self.triangles(),
            self.uvs@.len() == 3 * self.triangles(),
            self.indices@.len() == 3 * self.triangles(),
    {
    }

    /// The number of triangles of the mesh.
    pub fn triangle_count(&self) -> (n: usize)
        ensures
            n == self.triangles(),
    {
        self.positions.len() / 3
    }
}

/// Packages flattened positions and their normals into a mesh, with a
/// texture coordinate of (0, 0) for every corner and the index buffer
/// 0, 1, 2, ... Returns `None` when there is not one normal per position or
/// the corners do not come in whole triangles.
pub fn assemble(positions: Vec<Point>, normals: Vec<Point>) -> (r: Option<MeshArtifact>)
    ensures
        r is Some <==> assembles(positions@, normals@),
        r is Some ==> {
            &&& r->Some_0.wf()
            &&& r->Some_0.positions@ == positions@
            &&& r->Some_0.normals@ == normals@
        },
{
    let count = positions.len();
    if normals.len() != count || count % 3 != 0 {
        return None;
    }
    let mut uvs: Vec<Uv> = Vec::new();
    let mut indices: Vec<usize> = Vec::new();
    let mut k: usize = 0;
    while k < count
        invariant
            k <= count,
            uvs@.len() == k,
            indices@.len() == k,
            forall|j: int| 0 <= j < k ==> #[trigger] uvs@[j] == [0u32, 0u32],
            forall|j: int| 0 <= j < k ==> #[trigger] indices@[j] == j,
        decreases count - k,
    {
        uvs.push([0u32, 0u32]);
        indices.push(k);
        k = k + 1;
    }
    Some(MeshArtifact { positions, normals, uvs, indices })
}

} // verus!
