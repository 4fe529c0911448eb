use crate::error::ImportError;
use crate::scene::Point;
use vstd::prelude::*;

verus! {

/// The consecutive triples of `flat`, in order. Trailing items that do not
/// fill a triple are left out.
pub open spec fn triples_of(flat: Seq<u32>) -> Seq<[u32; 3]> {
    Seq::new((flat.len() / 3) as nat, |i: int| [flat[3 * i], flat[3 * i + 1], flat[3 * i + 2]])
}

/// Point `i` of a decoded buffer holds items `3 i`, `3 i + 1` and `3 i + 2` of
/// the buffer, in this order, and there is one point for every three items:
/// decoding keeps the order of the input and neither adds nor drops a
/// coordinate.
pub proof fn lemma_triples_keep_order(flat: Seq<u32>, i: int, c: int)
    requires
        flat.len() % 3 == 0,
        0 <= i < flat.len() / 3,
        0 <= c < 3,
    ensures
        triples_of(flat).len() * 3 == flat.len(),
        0 <= 3 * i + c < flat.len(),
        triples_of(flat)[i][c] == flat[3 * i + c],
{
}

/// Splits a buffer into its consecutive triples. Trailing items that do not
/// fill a triple are left out.
pub fn group_triples(flat: &[u32]) -> (out: Vec<[u32; 3]>)
    ensures
        out@ == triples_of(flat@),
{
    let mut out: Vec<[u32; 3]> = Vec::new();
    let mut i: usize = 0;
    while flat.len() - i >= 3
        invariant
            i % 3 == 0,
            i <= flat@.len(),
            out@.len() == i / 3,
            forall|k: int| 0 <= k < out@.len() ==> out@[k] == triples_of(flat@)[k],
        decreases flat@.len() - i,
    {
        let triple: [u32; 3] = [flat[i], flat[i + 1], flat[i + 2]];
        out.push(triple);
        i = i + 3;
    }
    out
}

/// Reads a flat position buffer as points, three coordinates each, in the
/// order of the buffer. A buffer whose length is no multiple of three is
/// rejected as `MalformedVertexData`.
pub fn decode_vertices(buffer: &[u32]) -> (r: Result<Vec<Point>, ImportError>)
    ensures
        buffer@.len() % 3 == 0 ==> r is Ok && r->Ok_0@ == triples_of(buffer@),
        buffer@.len() % 3 != 0 ==> r == Err::<Vec<Point>, ImportError>(
            ImportError::MalformedVertexData,
        ),
{
    if buffer.len() % 3 != 0 {
        Err(ImportError::MalformedVertexData)
    } else {
        Ok(group_triples(buffer))
    }
}

} // verus!
