use crate::error::ImportError;
use crate::scene::{MeshDefinition, SourcePayload, SourceRef};
use vstd::prelude::*;

verus! {

/// Whether source `i` of the mesh carries the identifier `name`.
pub open spec fn names_source(mesh: MeshDefinition, name: Seq<char>, i: int) -> bool {
    0 <= i < mesh.sources@.len() && mesh.sources@[i].id@ == name
}

/// The source that the vertex input of `mesh` refers to, by its place in
/// `mesh.sources`, or the reason why there is none.
///
/// The reference must be a fragment, exactly one source must carry its
/// identifier, and that source must hold floats; the checks fail in this
/// order.
pub open spec fn position_source(mesh: MeshDefinition) -> Result<int, ImportError> {
    match mesh.position_ref {
        Some(SourceRef::Fragment(name)) => {
            if forall|i: int| !names_source(mesh, name@, i) {
                Err(ImportError::SourceNotFound)
            } else if exists|i: int, j: int|
                i != j && names_source(mesh, name@, i) && names_source(mesh, name@, j) {
                Err(ImportError::AmbiguousSource)
            } else {
                let i = choose|i: int| names_source(mesh, name@, i);
                match mesh.sources@[i].payload {
                    SourcePayload::Floats(_) => Ok(i),
                    SourcePayload::Other => Err(ImportError::UnsupportedSourceType),
                }
            }
        },
        _ => Err(ImportError::InvalidReference),
    }
}

/// Finds the buffer that holds the positions of `mesh`.
pub fn resolve_position_source(mesh: &MeshDefinition) -> (r: Result<&Vec<u32>, ImportError>)
    ensures
        match r {
            Ok(buffer) => position_source(*mesh) is Ok && mesh.sources@[position_source(
                *mesh,
            )->Ok_0].payload == SourcePayload::Floats(*buffer),
            Err(e) => position_source(*mesh) == Err::<int, ImportError>(e),
        },
{
    let name = match &mesh.position_ref {
        Some(SourceRef::Fragment(name)) => name,
        _ => {
            return Err(ImportError::InvalidReference);
        },
    };
    let mut found: Option<usize> = None;
    let mut i: usize = 0;
    while i < mesh.sources.len()
        invariant
            mesh.position_ref == Some(SourceRef::Fragment(*name)),
            i <= mesh.sources@.len(),
            found is None ==> forall|k: int| 0 <= k < i ==> !names_source(*mesh, name@, k),
            found is Some ==> found->Some_0 < i && names_source(
                *mesh,
                name@,
                found->Some_0 as int,
            ),
            found is Some ==> forall|k: int|
                0 <= k < i && k != found->Some_0 ==> !names_source(*mesh, name@, k),
        decreases mesh.sources@.len() - i,
    {
        if mesh.sources[i].id == *name {
            if found.is_some() {
                proof {
                    let first = found->Some_0 as int;
                    assert(first != i as int && names_source(*mesh, name@, first) && names_source(
                        *mesh,
                        name@,
                        i as int,
                    ));
                }
                return Err(ImportError::AmbiguousSource);
            }
            found = Some(i);
        }
        i = i + 1;
    }
    match found {
        None => Err(ImportError::SourceNotFound),
        Some(at) => {
            assert(names_source(*mesh, name@, at as int));
            match &mesh.sources[at].payload {
                SourcePayload::Floats(buffer) => Ok(buffer),
                SourcePayload::Other => Err(ImportError::UnsupportedSourceType),
            }
        },
    }
}

} // verus!
