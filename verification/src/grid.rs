//! The sample grid of a render pass.
//!
//! A pass samples the viewport at the crossings of a list of abscissae
//! with a list of ordinates.  The caller steps through the viewport to
//! find both lists; the grid is every crossing, column by column.

use vstd::prelude::*;
use vstd::arithmetic::div_mod::lemma_fundamental_div_mod_converse;
use crate::point::VirtualPoint;

verus! {

/// The point at place `k` of the grid: column `k / rows`, row `k % rows`,
/// with the placeholder colour.
pub open spec fn grid_point(xs: Seq<u64>, ys: Seq<u64>, k: int) -> VirtualPoint {
    VirtualPoint { x: xs[k / (ys.len() as int)], y: ys[k % (ys.len() as int)], color: (0, 0, 0) }
}

/// The grid over abscissae `xs` and ordinates `ys`: one point for each
/// pair, all points of one abscissa before those of the next.
pub open spec fn grid_points(xs: Seq<u64>, ys: Seq<u64>) -> Seq<VirtualPoint> {
    Seq::new(xs.len() * ys.len(), |k: int| grid_point(xs, ys, k))
}

/// The crossing of column `col` with row `row` stands at place `col *
/// rows + row` of the grid.
pub proof fn lemma_grid_is_column_major(xs: Seq<u64>, ys: Seq<u64>, col: int, row: int)
    requires
        0 <= col < xs.len(),
        0 <= row < ys.len(),
    ensures
        0 <= col * ys.len() + row < grid_points(xs, ys).len(),
        grid_points(xs, ys)[col * ys.len() + row] == (VirtualPoint {
            x: xs[col],
            y: ys[row],
            color: (0, 0, 0),
        }),
{
    let rows = ys.len() as int;
    let k = col * rows + row;
    assert(0 <= col * rows && (col + 1) * rows <= xs.len() * rows) by (nonlinear_arith)
        requires
            0 <= col < xs.len(),
            0 <= rows,
    ;
    assert((col + 1) * rows == col * rows + rows) by (nonlinear_arith);
    lemma_fundamental_div_mod_converse(k, rows, col, row);
}

/// Lays out the grid over the abscissae `xs` and the ordinates `ys`.
///
/// Every point carries the placeholder colour.  The points of one
/// abscissa follow one another in the order of `ys`, and the abscissae
/// follow one another in the order of `xs`.
pub fn draw_mandelbrot_init(xs: &Vec<u64>, ys: &Vec<u64>) -> (points: Vec<VirtualPoint>)
    ensures
        points@ == grid_points(xs@, ys@),
        points@.len() == xs@.len() * ys@.len(),
{
    let mut points: Vec<VirtualPoint> = Vec::new();
    let ghost rows = ys@.len() as int;
    let mut col: usize = 0;
    while col < xs.len()
        invariant
            col <= xs.len(),
            rows == ys@.len(),
            points@.len() == col * rows,
            forall|k: int| 0 <= k < points@.len() ==> points@[k] == grid_point(xs@, ys@, k),
        decreases xs.len() - col,
    {
        let x: u64 = xs[col];
        let mut row: usize = 0;
        while row < ys.len()
            invariant
                col < xs.len(),
                row <= ys.len(),
                rows == ys@.len(),
                x == xs@[col as int],
                points@.len() == col * rows + row,
                forall|k: int| 0 <= k < points@.len() ==> points@[k] == grid_point(xs@, ys@, k),
            decreases ys.len() - row,
        {
            proof {
                lemma_fundamental_div_mod_converse(col * rows + row, rows, col as int, row as int);
            }
            points.push(VirtualPoint { x, y: ys[row], color: (0, 0, 0) });
            row += 1;
        }
        assert((col + 1) * rows == col * rows + rows) by (nonlinear_arith);
        col += 1;
    }
    points
}

} // verus!
