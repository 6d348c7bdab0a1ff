//! What transforms do to points.

use vstd::prelude::*;

use crate::content::scene::Matrix;

verus! {

/// Where a transform carries the point at `x` and `y` billionths, horizontally, in billionths of a
/// billionth.
pub open spec fn carried_x(matrix: Matrix, x: int, y: int) -> int {
    matrix.a.scaled * x + matrix.c.scaled * y + matrix.e.scaled * 1_000_000_000
}

/// Where a transform carries the point at `x` and `y` billionths, vertically, in billionths of a
/// billionth.
pub open spec fn carried_y(matrix: Matrix, x: int, y: int) -> int {
    matrix.b.scaled * x + matrix.d.scaled * y + matrix.f.scaled * 1_000_000_000
}

/// Whether a transform carries the point at `x` and `y` billionths to where another one carries the
/// point at `inner_x` and `inner_y`, which are in billionths of a billionth.
pub open spec fn lands_on(
    matrix: Matrix,
    x: int,
    y: int,
    outer: Matrix,
    inner_x: int,
    inner_y: int,
) -> bool {
    &&& carried_x(matrix, x, y) * 1_000_000_000 == outer.a.scaled * inner_x + outer.c.scaled
        * inner_y + outer.e.scaled * 1_000_000_000_000_000_000
    &&& carried_y(matrix, x, y) * 1_000_000_000 == outer.b.scaled * inner_x + outer.d.scaled
        * inner_y + outer.f.scaled * 1_000_000_000_000_000_000
}

/// Whether a transform is the exact product of two: a point goes through the right factor first, and
/// through the left one then.
pub open spec fn composes(product: Matrix, left: Matrix, right: Matrix) -> bool {
    forall|x: int, y: int|
        #![trigger carried_x(product, x, y)]
        lands_on(product, x, y, left, carried_x(right, x, y), carried_y(right, x, y))
}

} // verus!
