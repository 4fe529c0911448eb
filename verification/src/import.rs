use crate::decode::{decode_vertices, triples_of};
use crate::error::ImportError;
use crate::flatten::{faces_in_range, flatten_triangles, flattened};
use crate::mesh::{assemble, MeshArtifact};
use crate::normals::{accepts_triangles, flat_shaded, synthesize_normals};
use crate::reshape::{
    concat_triangle_blocks, reshape_fits, reshape_indices, stream_zero_faces, triangle_indices,
};
use crate::resolve::{position_source, resolve_position_source};
use crate::scene::{GeometryRecord, MeshDefinition, Point};
use vstd::prelude::*;

verus! {

/// The number of triangles that the index buffers of `mesh` describe, with
/// one interleaved index stream per attribute source.
pub open spec fn triangle_total(mesh: MeshDefinition) -> nat {
    triangle_indices(mesh.blocks@).len() / (3 * mesh.sources@.len())
}

/// The flattened positions of `mesh`, or the reason why it has none.
///
/// The position source is resolved and decoded into vertices. The indices
/// of the `Triangles` blocks are reduced to faces, taking one interleaved
/// stream per attribute source of the mesh. The faces are expanded over the
/// vertices. The first step that fails decides the error.
pub open spec fn flattened_positions(mesh: MeshDefinition) -> Result<Seq<Point>, ImportError> {
    match position_source(mesh) {
        Err(e) => Err(e),
        Ok(at) => {
            let buffer = mesh.sources@[at].payload->Floats_0@;
            let indices = triangle_indices(mesh.blocks@);
            let streams = mesh.sources@.len();
            let faces = stream_zero_faces(indices, streams);
            if buffer.len() % 3 != 0 {
                Err(ImportError::MalformedVertexData)
            } else if !reshape_fits(indices.len(), streams) {
                Err(ImportError::ReshapeMismatch)
            } else if !faces_in_range(faces, triples_of(buffer).len()) {
                Err(ImportError::IndexOutOfRange)
            } else {
                Ok(flattened(faces, triples_of(buffer)))
            }
        },
    }
}

/// Flattened positions come three per triangle.
pub proof fn lemma_flattened_length(mesh: MeshDefinition)
    requires
        flattened_positions(mesh) is Ok,
    ensures
        flattened_positions(mesh)->Ok_0.len() == 3 * triangle_total(mesh),
{
}

/// Runs the import of one geometry up to its flattened positions.
pub fn flatten_geometry(mesh: &MeshDefinition) -> (r: Result<Vec<Point>, ImportError>)
    ensures
        match r {
            Ok(positions) => flattened_positions(*mesh) == Ok::<Seq<Point>, ImportError>(
                positions@,
            ),
            Err(e) => flattened_positions(*mesh) == Err::<Seq<Point>, ImportError>(e),
        },
{
    let buffer = match resolve_position_source(mesh) {
        Ok(buffer) => buffer,
        Err(e) => {
            return Err(e);
        },
    };
    let vertices = match decode_vertices(buffer.as_slice()) {
        Ok(vertices) => vertices,
        Err(e) => {
            return Err(e);
        },
    };
    let indices = concat_triangle_blocks(&mesh.blocks);
    let faces = match reshape_indices(indices, mesh.sources.len()) {
        Ok(faces) => faces,
        Err(e) => {
            return Err(e);
        },
    };
    flatten_triangles(faces.as_slice(), vertices.as_slice())
}

/// Whether `outcome` is what the import of `mesh` yields when `face_normal`
/// computes the normal of a triangle: the error of the first failing step,
/// or a well-formed mesh of the flattened positions with flat-shaded
/// normals.
pub open spec fn imports<F: Fn(&Point, &Point, &Point) -> Point>(
    mesh: MeshDefinition,
    face_normal: F,
    outcome: Result<MeshArtifact, ImportError>,
) -> bool {
    match outcome {
        Ok(artifact) => {
            &&& flattened_positions(mesh) == Ok::<Seq<Point>, ImportError>(artifact.positions@)
            &&& flat_shaded(artifact.positions@, face_normal, artifact.normals@)
            &&& artifact.wf()
            &&& artifact.triangles() == triangle_total(mesh)
        },
        Err(e) => flattened_positions(mesh) == Err::<Seq<Point>, ImportError>(e),
    }
}

/// Whether `face_normal` may be called on every triangle that the import of
/// `mesh` flattens. A function without a precondition always may.
pub open spec fn normal_applies<F: Fn(&Point, &Point, &Point) -> Point>(
    mesh: MeshDefinition,
    face_normal: F,
) -> bool {
    flattened_positions(mesh) is Ok ==> accepts_triangles(
        flattened_positions(mesh)->Ok_0,
        face_normal,
    )
}

/// Imports one geometry: flattens its positions, gives every triangle the
/// normal that `face_normal` computes from its three points, and assembles
/// the mesh.
pub fn import_geometry<F: Fn(&Point, &Point, &Point) -> Point>(
    mesh: &MeshDefinition,
    face_normal: &F,
) -> (r: Result<MeshArtifact, ImportError>)
    requires
        normal_applies(*mesh, *face_normal),
    ensures
        imports(*mesh, *face_normal, r),
{
    let positions = match flatten_geometry(mesh) {
        Ok(positions) => positions,
        Err(e) => {
            return Err(e);
        },
    };
    let normals = synthesize_normals(positions.as_slice(), face_normal);
    let assembled = assemble(positions, normals);
    Ok(assembled.unwrap())
}

/// What became of one geometry of a scene.
#[derive(Debug)]
pub struct LoadEntry {
    /// The identifier of the geometry.
    pub id: String,
    /// Its mesh, or the reason why it has none.
    pub outcome: Result<MeshArtifact, ImportError>,
}

/// The outcome of loading a scene: one entry per geometry, in the order of
/// the scene. A geometry that fails is recorded and does not stop the
/// others.
#[derive(Debug)]
pub struct LoadReport {
    pub entries: Vec<LoadEntry>,
}

/// How many of the first `upto` entries hold a mesh.
pub open spec fn imported_among(entries: Seq<LoadEntry>, upto: int) -> nat
    decreases upto,
{
    if upto <= 0 {
        0
    } else if entries[upto - 1].outcome is Ok {
        imported_among(entries, upto - 1) + 1
    } else {
        imported_among(entries, upto - 1)
    }
}

impl LoadReport {
    /// The number of geometries that were imported.
    pub fn imported_count(&self) -> (n: usize)
        ensures
            n == imported_among(self.entries@, self.entries@.len() as int),
    {
        let mut n: usize = 0;
        let mut i: usize = 0;
        while i < self.entries.len()
            invariant
                i <= self.entries@.len(),
                n == imported_among(self.entries@, i as int),
                n <= i,
            decreases self.entries@.len() - i,
        {
            if self.entries[i].outcome.is_ok() {
                n = n + 1;
            }
            i = i + 1;
        }
        n
    }

    /// Records that no collision shape could be built for the mesh of entry
    /// `index`: the entry loses its mesh and holds
    /// `ColliderConstructionFailed` instead. An entry that already holds an
    /// error keeps it, an `index` past the end changes nothing, and no other
    /// entry is touched.
    pub fn record_collider_failure(&mut self, index: usize)
        ensures
            final(self).entries@.len() == old(self).entries@.len(),
            forall|i: int|
                0 <= i < old(self).entries@.len() && i != index ==> final(self).entries@[i] == old(
                    self,
                ).entries@[i],
            index < old(self).entries@.len() ==> {
                &&& final(self).entries@[index as int].id == old(self).entries@[index as int].id
                &&& final(self).entries@[index as int].outcome == (if old(
                    self,
                ).entries@[index as int].outcome is Ok {
                    Err::<MeshArtifact, ImportError>(ImportError::ColliderConstructionFailed)
                } else {
                    old(self).entries@[index as int].outcome
                })
            },
    {
        if index < self.entries.len() && self.entries[index].outcome.is_ok() {
            let id = self.entries[index].id.clone();
            self.entries.set(
                index,
                LoadEntry { id, outcome: Err(ImportError::ColliderConstructionFailed) },
            );
        }
    }
}

/// Imports every geometry of a scene on its own and reports each outcome
/// under the geometry's identifier. A scene of which nothing can be imported
/// yields a report without meshes, not a failure.
pub fn import_scene<F: Fn(&Point, &Point, &Point) -> Point>(
    scene: &Vec<GeometryRecord>,
    face_normal: &F,
) -> (report: LoadReport)
    requires
        forall|i: int| 0 <= i < scene@.len() ==> normal_applies((#[trigger] scene@[i]).mesh, *face_normal),
    ensures
        report.entries@.len() == scene@.len(),
        forall|i: int|
            0 <= i < scene@.len() ==> {
                &&& (#[trigger] report.entries@[i]).id@ == scene@[i].id@
                &&& imports(scene@[i].mesh, *face_normal, report.entries@[i].outcome)
            },
{
    let mut entries: Vec<LoadEntry> = Vec::new();
    let mut i: usize = 0;
    while i < scene.len()
        invariant
            i <= scene@.len(),
            forall|k: int|
                0 <= k < scene@.len() ==> normal_applies((#[trigger] scene@[k]).mesh, *face_normal),
            entries@.len() == i,
            forall|k: int|
                0 <= k < i ==> {
                    &&& (#[trigger] entries@[k]).id@ == scene@[k].id@
                    &&& imports(scene@[k].mesh, *face_normal, entries@[k].outcome)
                },
        decreases scene@.len() - i,
    {
        let outcome = import_geometry(&scene[i].mesh, face_normal);
        entries.push(LoadEntry { id: scene[i].id.clone(), outcome });
        i = i + 1;
    }
    LoadReport { entries }
}

} // verus!
