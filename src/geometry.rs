//! The reference geometry: a unit quad, centred on the origin, that every
//! instance replicates.

use vstd::prelude::*;

verus! {

/// Number of vertices of the quad: two triangles.
pub const QUAD_VERTEX_COUNT: u32 = 6;

/// A corner of the quad in local space, in half units: the vertex position is
/// `(x / 2, y / 2, 0)`.
#[derive(Clone, Copy, Debug, PartialEq, Eq, Structural)]
pub struct QuadCorner {
    pub x: i8,
    pub y: i8,
}

/// The quad's vertices as a triangle list: top-left, bottom-left, bottom-right,
/// then top-left, bottom-right, top-right.
pub open spec fn quad_corners() -> Seq<QuadCorner> {
    seq![
        QuadCorner { x: -1i8, y: 1i8 },
        QuadCorner { x: -1i8, y: -1i8 },
        QuadCorner { x: 1i8, y: -1i8 },
        QuadCorner { x: -1i8, y: 1i8 },
        QuadCorner { x: 1i8, y: -1i8 },
        QuadCorner { x: 1i8, y: 1i8 },
    ]
}

/// Twice the signed area of the triangle `a b c`: positive when its vertices
/// run counter-clockwise.
pub open spec fn signed_area2(a: QuadCorner, b: QuadCorner, c: QuadCorner) -> int {
    (b.x - a.x) * (c.y - a.y) - (b.y - a.y) * (c.x - a.x)
}

/// Whether every triangle of a triangle list runs counter-clockwise, so that it
/// faces the viewer under a counter-clockwise front face and survives back-face
/// culling.
pub open spec fn all_counter_clockwise(v: Seq<QuadCorner>) -> bool {
    &&& v.len() % 3 == 0
    &&& forall|t: int|
        0 <= t < v.len() / 3 ==> #[trigger] signed_area2(v[3 * t], v[3 * t + 1], v[3 * t + 2]) > 0
}

/// The vertices of the quad, in draw order.
pub fn quad_template() -> (r: Vec<QuadCorner>)
    ensures
        r@ == quad_corners(),
        r.len() == QUAD_VERTEX_COUNT,
        all_counter_clockwise(r@),
{
    let r = vec![
        QuadCorner { x: -1, y: 1 },
        QuadCorner { x: -1, y: -1 },
        QuadCorner { x: 1, y: -1 },
        QuadCorner { x: -1, y: 1 },
        QuadCorner { x: 1, y: -1 },
        QuadCorner { x: 1, y: 1 },
    ];
    assert(r@ =~= quad_corners());
    assert forall|t: int| 0 <= t < r@.len() / 3 implies #[trigger] signed_area2(
        r@[3 * t],
        r@[3 * t + 1],
        r@[3 * t + 2],
    ) > 0 by {
        let v = quad_corners();
        assert(v[0].x == -1 && v[0].y == 1 && v[1].x == -1 && v[1].y == -1);
        assert(v[2].x == 1 && v[2].y == -1 && v[3].x == -1 && v[3].y == 1);
        assert(v[4].x == 1 && v[4].y == -1 && v[5].x == 1 && v[5].y == 1);
        if t == 0 {
            assert(signed_area2(v[0], v[1], v[2]) == 4);
        } else {
            assert(t == 1);
            assert(signed_area2(v[3], v[4], v[5]) == 4);
        }
    }
    r
}

} // verus!
