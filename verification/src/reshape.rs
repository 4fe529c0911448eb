use crate::decode::group_triples;
use crate::error::ImportError;
use crate::scene::{Face, PrimitiveBlock, PrimitiveKind};
use ndarray::{Array, Axis, ShapeError};
use vstd::arithmetic::div_mod::{lemma_fundamental_div_mod, lemma_small_mod};
use vstd::prelude::*;

verus! {

/// The raw indices of the `Triangles` blocks, appended end to end in
/// declaration order. Blocks of another kind contribute nothing.
pub open spec fn triangle_indices(blocks: Seq<PrimitiveBlock>) -> Seq<u32>
    decreases blocks.len(),
{
    if blocks.len() == 0 {
        Seq::empty()
    } else if blocks.last().kind == PrimitiveKind::Triangles {
        triangle_indices(blocks.drop_last()) + blocks.last().indices@
    } else {
        triangle_indices(blocks.drop_last())
    }
}

/// How many blocks are of a kind that the import leaves out.
pub open spec fn skipped_count(blocks: Seq<PrimitiveBlock>) -> nat
    decreases blocks.len(),
{
    if blocks.len() == 0 {
        0
    } else if blocks.last().kind == PrimitiveKind::Triangles {
        skipped_count(blocks.drop_last())
    } else {
        skipped_count(blocks.drop_last()) + 1
    }
}

/// Appends the index buffers of the `Triangles` blocks in declaration order.
pub fn concat_triangle_blocks(blocks: &Vec<PrimitiveBlock>) -> (out: Vec<u32>)
    ensures
        out@ == triangle_indices(blocks@),
{
    let mut out: Vec<u32> = Vec::new();
    let mut b: usize = 0;
    while b < blocks.len()
        invariant
            b <= blocks@.len(),
            out@ == triangle_indices(blocks@.take(b as int)),
        decreases blocks@.len() - b,
    {
        let block = &blocks[b];
        proof {
            assert(blocks@.take(b + 1).drop_last() == blocks@.take(b as int));
            assert(blocks@.take(b + 1).last() == blocks@[b as int]);
        }
        if block.kind == PrimitiveKind::Triangles {
            let ghost before = out@;
            let mut k: usize = 0;
            while k < block.indices.len()
                invariant
                    k <= block.indices@.len(),
                    out@ == before + block.indices@.take(k as int),
                decreases block.indices@.len() - k,
            {
                out.push(block.indices[k]);
                proof {
                    assert(block.indices@.take(k + 1) == block.indices@.take(k as int).push(
                        block.indices@[k as int],
                    ));
                }
                k = k + 1;
            }
            proof {
                assert(block.indices@.take(k as int) == block.indices@);
            }
        }
        b = b + 1;
    }
    proof {
        assert(blocks@.take(b as int) == blocks@);
    }
    out
}

/// Counts the blocks that are not `Triangles`: the ones the import skips,
/// for a host that wants to report them.
pub fn count_skipped_blocks(blocks: &Vec<PrimitiveBlock>) -> (n: usize)
    ensures
        n == skipped_count(blocks@),
{
    let mut n: usize = 0;
    let mut b: usize = 0;
    while b < blocks.len()
        invariant
            b <= blocks@.len(),
            n == skipped_count(blocks@.take(b as int)),
            n <= b,
        decreases blocks@.len() - b,
    {
        proof {
            assert(blocks@.take(b + 1).drop_last() == blocks@.take(b as int));
            assert(blocks@.take(b + 1).last() == blocks@[b as int]);
        }
        if blocks[b].kind != PrimitiveKind::Triangles {
            n = n + 1;
        }
        b = b + 1;
    }
    proof {
        assert(blocks@.take(b as int) == blocks@);
    }
    n
}

/// The items of `flat` at the places `offset`, `offset + stride`,
/// `offset + 2 * stride`, ..., `count` items in all.
pub open spec fn strided(flat: Seq<u32>, stride: int, offset: int, count: nat) -> Seq<u32> {
    Seq::new(count, |k: int| flat[k * stride + offset])
}

/// Whether a buffer of `len` indices splits into whole triangles of three
/// corners with `streams` interleaved indices each.
pub open spec fn reshape_fits(len: nat, streams: nat) -> bool {
    streams >= 1 && len % (3 * streams) == 0
}

/// The faces that a buffer of interleaved indices describes: triangle `t`
/// has, as corner `c`, the first of the `streams` indices of that corner.
pub open spec fn stream_zero_faces(flat: Seq<u32>, streams: nat) -> Seq<Face> {
    Seq::new(
        flat.len() / (3 * streams),
        |t: int|
            [
                flat[(3 * t) * streams],
                flat[(3 * t + 1) * streams],
                flat[(3 * t + 2) * streams],
            ],
    )
}

/// A buffer that fits has `len / (3 * streams)` faces, and corner `c` of face
/// `t` is the first index of the interleaved group `3 t + c`: item
/// `(3 t + c) * streams` of the buffer, which the buffer holds.
pub proof fn lemma_faces_keep_stream_zero(flat: Seq<u32>, streams: nat, t: int, c: int)
    requires
        reshape_fits(flat.len(), streams),
        0 <= t < flat.len() / (3 * streams),
        0 <= c < 3,
    ensures
        stream_zero_faces(flat, streams).len() == flat.len() / (3 * streams),
        stream_zero_faces(flat, streams).len() * (3 * streams) == flat.len(),
        0 <= (3 * t + c) * streams < flat.len(),
        stream_zero_faces(flat, streams)[t][c] == flat[(3 * t + c) * streams],
{
    let stride = 3 * streams as int;
    let count = flat.len() as int / stride;
    lemma_fundamental_div_mod(flat.len() as int, stride);
    assert(count * stride == flat.len());
    assert(0 <= (3 * t + c) * streams < count * stride) by (nonlinear_arith)
        requires
            0 <= t < count,
            0 <= c < 3,
            streams >= 1,
            stride == 3 * streams,
    ;
}

/// ndarray's `ShapeError`, the error of `ArrayBase::into_shape`. Nothing is
/// claimed of what it holds.
#[verifier::external_type_specification]
#[verifier::external_body]
pub struct ExShapeError(ShapeError);

/// Reads `flat` as a row-major array of shape (`rows`, `columns`, `depth`)
/// and returns the elements whose last index is `index`, in logical order.
/// This is ndarray's `Array::from`, `ArrayBase::into_shape`,
/// `ArrayBase::index_axis` on `Axis(2)` and `ArrayBase::iter`.
///
/// The contract claims of them: `into_shape` accepts the shape exactly when
/// its size is the length of the array, a size with no axis of length zero
/// being checked as the product of the three; the array it returns keeps the
/// elements in row-major order, so that element (i, j, `index`) is item
/// `(i * columns + j) * depth + index` of `flat`; `index_axis` does not panic
/// for an index below the length of its axis; and `iter` walks the view with
/// the rightmost index varying fastest.
#[verifier::external_body]
fn select_along_depth(
    flat: Vec<u32>,
    rows: usize,
    columns: usize,
    depth: usize,
    index: usize,
) -> (r: Result<Vec<u32>, ShapeError>)
    requires
        rows >= 1,
        columns >= 1,
        index < depth,
    ensures
        r is Ok <==> rows * columns * depth == flat@.len(),
        r is Ok ==> r->Ok_0@ == strided(
            flat@,
            depth as int,
            index as int,
            (rows * columns) as nat,
        ),
{
    match Array::from(flat).into_shape((rows, columns, depth)) {
        Ok(cube) => Ok(cube.index_axis(Axis(2), index).iter().copied().collect()),
        Err(e) => Err(e),
    }
}

/// Reduces a buffer of interleaved indices to a face list. The buffer is
/// read as triangles of three corners with `streams` indices per corner, of
/// which the first is the position index and the only one kept. A buffer
/// whose length is no multiple of `3 * streams`, and any buffer with
/// `streams == 0`, is rejected as `ReshapeMismatch`.
pub fn reshape_indices(flat: Vec<u32>, streams: usize) -> (r: Result<Vec<Face>, ImportError>)
    ensures
        reshape_fits(flat@.len(), streams as nat) ==> r is Ok && r->Ok_0@ == stream_zero_faces(
            flat@,
            streams as nat,
        ),
        !reshape_fits(flat@.len(), streams as nat) ==> r == Err::<Vec<Face>, ImportError>(
            ImportError::ReshapeMismatch,
        ),
{
    let len = flat.len();
    if streams == 0 {
        return Err(ImportError::ReshapeMismatch);
    }
    if len == 0 {
        return Ok(Vec::new());
    }
    let stride = match streams.checked_mul(3) {
        Some(stride) if stride <= len => stride,
        _ => {
            proof {
                lemma_small_mod(len as nat, (3 * streams) as nat);
            }
            return Err(ImportError::ReshapeMismatch);
        },
    };
    let triangles = len / stride;
    proof {
        lemma_fundamental_div_mod(len as int, stride as int);
        assert(triangles >= 1) by (nonlinear_arith)
            requires
                triangles == len as int / stride as int,
                len >= stride,
                stride > 0,
        ;
        assert(triangles * 3 * streams == stride * (len as int / stride as int))
            by (nonlinear_arith)
            requires
                triangles == len as int / stride as int,
                stride == 3 * streams,
        ;
    }
    match select_along_depth(flat, triangles, 3, streams, 0) {
        Ok(corners) => {
            let faces = group_triples(corners.as_slice());
            proof {
                assert(faces@.len() == triangles);
                assert forall|t: int| 0 <= t < faces@.len() implies faces@[t]
                    == stream_zero_faces(flat@, streams as nat)[t] by {
                    assert(corners@[3 * t] == flat@[(3 * t) * streams]);
                    assert(corners@[3 * t + 1] == flat@[(3 * t + 1) * streams]);
                    assert(corners@[3 * t + 2] == flat@[(3 * t + 2) * streams]);
                }
            }
            Ok(faces)
        },
        Err(_) => Err(ImportError::ReshapeMismatch),
    }
}

} // verus!
