use vstd::prelude::*;

verus! {

/// Why a geometry could not be imported.
#[derive(Debug, Clone, Copy, PartialEq, Eq, Structural)]
pub enum ImportError {
    /// The vertex input is missing or does not refer to a fragment of the
    /// same document.
    InvalidReference,
    /// No attribute source carries the referenced identifier.
    SourceNotFound,
    /// More than one attribute source carries the referenced identifier.
    AmbiguousSource,
    /// The referenced source does not hold a float buffer.
    UnsupportedSourceType,
    /// The position buffer does not split into whole (x, y, z) triples.
    MalformedVertexData,
    /// The index buffer does not split into whole triangles of interleaved
    /// corners.
    ReshapeMismatch,
    /// A face refers to a vertex that the position buffer does not hold.
    IndexOutOfRange,
    /// The physics engine could not build a collision shape from the mesh.
    ColliderConstructionFailed,
}

} // verus!
