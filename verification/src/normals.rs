use crate::scene::Point;
use vstd::prelude::*;

verus! {

/// Corner `c` of triangle `t` in a flattened sequence.
pub open spec fn corner(flat: Seq<Point>, t: int, c: int) -> Point {
    flat[3 * t + c]
}

/// Whether `face_normal` may be called on every triangle of `positions`.
pub open spec fn accepts_triangles<F: Fn(&Point, &Point, &Point) -> Point>(
    positions: Seq<Point>,
    face_normal: F,
) -> bool {
    forall|t: int|
        #![trigger corner(positions, t, 0)]
        0 <= t < positions.len() / 3 ==> call_requires(
            face_normal,
            (&corner(positions, t, 0), &corner(positions, t, 1), &corner(positions, t, 2)),
        )
}

/// Whether `normals` gives each triangle of `positions` one normal, computed
/// by `face_normal` from the triangle's three points in order and repeated
/// for its three corners.
pub open spec fn flat_shaded<F: Fn(&Point, &Point, &Point) -> Point>(
    positions: Seq<Point>,
    face_normal: F,
    normals: Seq<Point>,
) -> bool {
    &&& normals.len() == positions.len()
    &&& forall|t: int|
        #![trigger corner(normals, t, 0)]
        0 <= t < positions.len() / 3 ==> {
            &&& call_ensures(
                face_normal,
                (&corner(positions, t, 0), &corner(positions, t, 1), &corner(positions, t, 2)),
                corner(normals, t, 0),
            )
            &&& corner(normals, t, 1) == corner(normals, t, 0)
            &&& corner(normals, t, 2) == corner(normals, t, 0)
        }
}

/// Under flat shading any two corners of one triangle hold the same normal.
pub proof fn lemma_corners_share_normal<F: Fn(&Point, &Point, &Point) -> Point>(
    positions: Seq<Point>,
    face_normal: F,
    normals: Seq<Point>,
    j: int,
    k: int,
)
    requires
        positions.len() % 3 == 0,
        flat_shaded(positions, face_normal, normals),
        0 <= j < normals.len(),
        0 <= k < normals.len(),
        j / 3 == k / 3,
    ensures
        normals[j] == normals[k],
{
    let t = j / 3;
    assert(corner(normals, t, 0) == normals[3 * t]);
    assert(corner(normals, t, 1) == normals[3 * t + 1]);
    assert(corner(normals, t, 2) == normals[3 * t + 2]);
}

/// Gives every triangle of a flattened position sequence one normal and
/// repeats it for the triangle's three corners.
///
/// The normal of a triangle (a, b, c) is what `face_normal(a, b, c)` returns:
/// a host passes the normalised cross product of `b - a` and `c - a`. What it
/// returns for a degenerate triangle is stored like any other value and
/// touches no other entry.
pub fn synthesize_normals<F: Fn(&Point, &Point, &Point) -> Point>(
    positions: &[Point],
    face_normal: &F,
) -> (normals: Vec<Point>)
    requires
        positions@.len() % 3 == 0,
        accepts_triangles(positions@, *face_normal),
    ensures
        flat_shaded(positions@, *face_normal, normals@),
{
    let mut normals: Vec<Point> = Vec::new();
    let mut i: usize = 0;
    while i < positions.len()
        invariant
            positions@.len() % 3 == 0,
            accepts_triangles(positions@, *face_normal),
            i % 3 == 0,
            i <= positions@.len(),
            flat_shaded(positions@.take(i as int), *face_normal, normals@),
        decreases positions@.len() - i,
    {
        let ghost before = normals@;
        let ghost seen = positions@.take(i as int);
        let ghost now = i as int / 3;
        proof {
            assert(corner(positions@, now, 0) == positions@[i as int]);
            assert(corner(positions@, now, 1) == positions@[i + 1]);
            assert(corner(positions@, now, 2) == positions@[i + 2]);
        }
        let normal = face_normal(&positions[i], &positions[i + 1], &positions[i + 2]);
        normals.push(normal);
        normals.push(normal);
        normals.push(normal);
        proof {
            let grown = positions@.take(i + 3);
            assert forall|t: int| 0 <= t < grown.len() / 3 implies {
                &&& call_ensures(
                    *face_normal,
                    (&corner(grown, t, 0), &corner(grown, t, 1), &corner(grown, t, 2)),
                    #[trigger] corner(normals@, t, 0),
                )
                &&& corner(normals@, t, 1) == corner(normals@, t, 0)
                &&& corner(normals@, t, 2) == corner(normals@, t, 0)
            } by {
                if t < now {
                    assert(corner(normals@, t, 0) == corner(before, t, 0));
                    assert(corner(normals@, t, 1) == corner(before, t, 1));
                    assert(corner(normals@, t, 2) == corner(before, t, 2));
                    assert(corner(grown, t, 0) == corner(seen, t, 0));
                    assert(corner(grown, t, 1) == corner(seen, t, 1));
                    assert(corner(grown, t, 2) == corner(seen, t, 2));
                } else {
                    assert(t == now);
                }
            }
        }
        i = i + 3;
    }
    proof {
        assert(positions@.take(i as int) == positions@);
    }
    normals
}

} // verus!
