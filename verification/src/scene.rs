use vstd::prelude::*;

verus! {

/// A 3-vector of single-precision bit patterns: a position or a normal.
pub type Point = [u32; 3];

/// A 2-vector of single-precision bit patterns: a texture coordinate.
pub type Uv = [u32; 2];

/// The three vertex indices of one triangle.
pub type Face = [u32; 3];

/// How a vertex input names the source it reads from.
#[derive(Debug, Clone)]
pub enum SourceRef {
    /// An identifier within the same document.
    Fragment(String),
    /// Any other kind of reference, kept as written.
    Other(String),
}

/// What an attribute source holds.
#[derive(Debug, Clone)]
pub enum SourcePayload {
    /// A flat buffer of floats, each as its bit pattern.
    Floats(Vec<u32>),
    /// Anything else, or nothing at all.
    Other,
}

/// A named buffer that backs one per-vertex attribute.
#[derive(Debug, Clone)]
pub struct AttributeSource {
    pub id: String,
    pub payload: SourcePayload,
}

/// The topology of a primitive block.
#[derive(Debug, Clone, Copy, PartialEq, Eq, Structural)]
pub enum PrimitiveKind {
    Triangles,
    Other,
}

/// A group of faces of one topology, with its raw interleaved indices.
#[derive(Debug, Clone)]
pub struct PrimitiveBlock {
    pub kind: PrimitiveKind,
    pub indices: Vec<u32>,
}

/// The mesh of one geometry: its sources, the reference of its vertex input
/// to the source that holds positions, and its primitive blocks in
/// declaration order.
#[derive(Debug, Clone)]
pub struct MeshDefinition {
    pub sources: Vec<AttributeSource>,
    pub position_ref: Option<SourceRef>,
    pub blocks: Vec<PrimitiveBlock>,
}

/// One geometry of a scene document.
#[derive(Debug, Clone)]
pub struct GeometryRecord {
    pub id: String,
    pub mesh: MeshDefinition,
}

} // verus!
