use crate::error::ImportError;
use crate::scene::{Face, Point};
use vstd::prelude::*;

verus! {

/// Whether the three corners of `face` refer to vertices among the first
/// `count`.
pub open spec fn face_in_range(face: Face, count: nat) -> bool {
    face[0] < count && face[1] < count && face[2] < count
}

/// Whether every corner of every face refers to one of `count` vertices.
pub open spec fn faces_in_range(faces: Seq<Face>, count: nat) -> bool {
    forall|t: int| 0 <= t < faces.len() ==> face_in_range(#[trigger] faces[t], count)
}

/// The triangle soup of a face list: entry `3 t + c` is the vertex that
/// corner `c` of face `t` refers to.
pub open spec fn flattened(faces: Seq<Face>, vertices: Seq<Point>) -> Seq<Point> {
    Seq::new(3 * faces.len(), |k: int| vertices[faces[k / 3][k % 3] as int])
}

/// Expands indexed faces into a flat sequence of points, three fresh entries
/// per face and nothing shared. A face with a corner that `vertices` does not
/// hold makes the whole call fail with `IndexOutOfRange`; no vertex is read
/// out of bounds.
pub fn flatten_triangles(faces: &[Face], vertices: &[Point]) -> (r: Result<
    Vec<Point>,
    ImportError,
>)
    ensures
        faces_in_range(faces@, vertices@.len()) ==> r is Ok && r->Ok_0@ == flattened(
            faces@,
            vertices@,
        ),
        !faces_in_range(faces@, vertices@.len()) ==> r == Err::<Vec<Point>, ImportError>(
            ImportError::IndexOutOfRange,
        ),
{
    let count = vertices.len();
    let mut out: Vec<Point> = Vec::new();
    let mut t: usize = 0;
    while t < faces.len()
        invariant
            t <= faces@.len(),
            count == vertices@.len(),
            faces_in_range(faces@.take(t as int), count as nat),
            out@ == flattened(faces@.take(t as int), vertices@),
        decreases faces@.len() - t,
    {
        let face = faces[t];
        let i0 = face[0] as usize;
        let i1 = face[1] as usize;
        let i2 = face[2] as usize;
        if i0 >= count || i1 >= count || i2 >= count {
            assert(!face_in_range(faces@[t as int], count as nat));
            return Err(ImportError::IndexOutOfRange);
        }
        let ghost before = out@;
        out.push(vertices[i0]);
        out.push(vertices[i1]);
        out.push(vertices[i2]);
        proof {
            let grown = faces@.take(t + 1);
            assert forall|s: int| 0 <= s < grown.len() implies face_in_range(
                #[trigger] grown[s],
                count as nat,
            ) by {
                if s < t {
                    assert(grown[s] == faces@.take(t as int)[s]);
                }
            }
            assert forall|k: int| 0 <= k < out@.len() implies out@[k] == flattened(
                grown,
                vertices@,
            )[k] by {
                if k < 3 * t {
                    assert(out@[k] == before[k]);
                    assert(grown[k / 3] == faces@.take(t as int)[k / 3]);
                }
            }
        }
        t = t + 1;
    }
    proof {
        assert(faces@.take(t as int) == faces@);
    }
    Ok(out)
}

} // verus!
