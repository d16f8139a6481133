//! Triangulated square grid: vertex positions and triangle corner indices.
use vstd::arithmetic::div_mod::{lemma_fundamental_div_mod, lemma_fundamental_div_mod_converse};
use vstd::arithmetic::mul::lemma_mul_inequality;
use vstd::prelude::*;

verus! {

/// Number of cells along each side of the rendered surface.
pub const GRID_SIZE: usize = 100;

/// A grid of `n` cells per side has `n + 1` vertices per side. Triangle
/// corners are 16-bit indices, so every vertex index has to fit in a `u16`.
pub open spec fn grid_fits(n: int) -> bool {
    0 <= n && (n + 1) * (n + 1) <= 0x1_0000
}

/// Row-major index of the vertex in row `i` and column `j`.
pub open spec fn vertex_index(n: int, i: int, j: int) -> int {
    i * (n + 1) + j
}

/// Coordinate of the `k`-th vertex along one axis, in units of `1/n`.
/// The grid spans `[-1, 1]` with cells of size `2/n`, so the coordinate
/// `-1 + k * (2/n)` is `(2k - n) / n`.
pub open spec fn axis_coord(n: int, k: int) -> int {
    2 * k - n
}

/// Corner `t` (0 to 5) of the two triangles that cover cell `(i, j)`.
/// With TL, TR, BL, BR the cell's top-left, top-right, bottom-left and
/// bottom-right vertices, the triangles are (TL, BL, TR) and (TR, BL, BR).
pub open spec fn cell_corner(n: int, i: int, j: int, t: int) -> int {
    let top_left = vertex_index(n, i, j);
    let bottom_left = vertex_index(n, i + 1, j);
    if t == 0 {
        top_left
    } else if t == 1 {
        bottom_left
    } else if t == 2 {
        top_left + 1
    } else if t == 3 {
        top_left + 1
    } else if t == 4 {
        bottom_left
    } else {
        bottom_left + 1
    }
}

/// Position `p` is the one of the `k`-th vertex (row-major) of an `n`-grid.
pub open spec fn is_vertex_position(p: (i32, i32, i32), n: int, k: int) -> bool {
    &&& p.0 == axis_coord(n, k % (n + 1))
    &&& p.1 == 0
    &&& p.2 == axis_coord(n, k / (n + 1))
}

/// Entry `m` of the index list of an `n`-grid: cell `m / 6` in row-major
/// order, corner `m % 6` of that cell.
pub open spec fn is_cell_corner(v: u16, n: int, m: int) -> bool {
    v == cell_corner(n, (m / 6) / n, (m / 6) % n, m % 6)
}

/// The flat index of row `i`, column `j` of a `w`-wide grid gives back
/// its row and column.
pub(crate) proof fn lemma_row_major(w: int, i: int, j: int)
    requires
        w > 0,
        0 <= i,
        0 <= j < w,
    ensures
        (i * w + j) / w == i,
        (i * w + j) % w == j,
{
    lemma_fundamental_div_mod_converse(i * w + j, w, i, j);
}

/// Splitting a flat index `k` of a `w`-wide grid into row and column.
pub(crate) proof fn lemma_split_index(k: int, w: int)
    requires
        w > 0,
        0 <= k < w * w,
    ensures
        k == (k / w) * w + k % w,
        0 <= k / w < w,
        0 <= k % w < w,
{
    lemma_fundamental_div_mod(k, w);
    assert(w * (k / w) == (k / w) * w) by (nonlinear_arith);
    assert(0 <= k / w < w) by (nonlinear_arith)
        requires
            w > 0,
            0 <= k < w * w,
            k == (k / w) * w + k % w,
            0 <= k % w < w,
    ;
}

/// A cell of a grid of `rows` rows, `w` wide, has a flat index below
/// `rows * w`; the next row starts `w` further on.
pub(crate) proof fn lemma_index_below(w: int, i: int, j: int, rows: int)
    requires
        w > 0,
        0 <= i < rows,
        0 <= j < w,
    ensures
        0 <= i * w + j < rows * w,
        (i + 1) * w == i * w + w,
{
    assert((i + 1) * w == i * w + w) by (nonlinear_arith);
    assert(0 <= i * w) by (nonlinear_arith)
        requires
            w > 0,
            0 <= i,
    ;
    lemma_mul_inequality(i + 1, rows, w);
}

/// A grid addressable by 16-bit indices has at most 255 cells per side.
pub(crate) proof fn lemma_side_bound(n: int)
    requires
        grid_fits(n),
    ensures
        n <= 255,
{
    assert(n <= 255) by (nonlinear_arith)
        requires
            0 <= n,
            (n + 1) * (n + 1) <= 0x1_0000,
    ;
}

/// Builds the grid of `n` cells per side over the square `[-1, 1]²`.
///
/// The first result holds the `(n + 1)²` vertex positions in row-major
/// order, each an `(x, 0, z)` triple in units of `1/n`: the vertex in row
/// `i` and column `j` lies at `x = (2j - n)/n`, `z = (2i - n)/n`. The
/// second holds six corner indices per cell, cells in row-major order,
/// each cell covered by the triangles (TL, BL, TR) and (TR, BL, BR).
pub fn get_position_grid_n_by_n(n: usize) -> (r: (Vec<(i32, i32, i32)>, Vec<u16>))
    requires
        grid_fits(n as int),
    ensures
        r.0@.len() == (n + 1) * (n + 1),
        forall|i: int, j: int|
            0 <= i <= n && 0 <= j <= n ==> {
                let p = r.0@[#[trigger] vertex_index(n as int, i, j)];
                &&& p.0 == axis_coord(n as int, j)
                &&& p.1 == 0
                &&& p.2 == axis_coord(n as int, i)
            },
        r.1@.len() == 6 * (n * n),
        forall|i: int, j: int, t: int|
            0 <= i < n && 0 <= j < n && 0 <= t < 6 ==> r.1@[6 * (i * n + j) + t]
                == #[trigger] cell_corner(n as int, i, j, t),
        forall|m: int| 0 <= m < r.1@.len() ==> r.1@[m] < (n + 1) * (n + 1),
{
    proof {
        lemma_side_bound(n as int);
    }
    let side: usize = n + 1;
    let mut positions: Vec<(i32, i32, i32)> = Vec::new();
    let mut indices: Vec<u16> = Vec::new();
    let mut i: usize = 0;
    while i < side
        invariant
            grid_fits(n as int),
            n <= 255,
            side == n + 1,
            i <= side,
            positions.len() == i * side,
            indices.len() == 6 * (if i <= n { i * n } else { n * n }),
            forall|k: int|
                0 <= k < positions.len() ==> #[trigger] is_vertex_position(
                    positions@[k],
                    n as int,
                    k,
                ),
            forall|m: int|
                0 <= m < indices.len() ==> #[trigger] is_cell_corner(indices@[m], n as int, m),
        decreases side - i,
    {
        let mut j: usize = 0;
        while j < side
            invariant
                grid_fits(n as int),
                n <= 255,
                side == n + 1,
                i < side,
                j <= side,
                positions.len() == i * side + j,
                indices.len() == 6 * (if i < n {
                    i * n + (if j <= n { j } else { n })
                } else {
                    n * n
                }),
                forall|k: int|
                    0 <= k < positions.len() ==> #[trigger] is_vertex_position(
                        positions@[k],
                        n as int,
                        k,
                    ),
                forall|m: int|
                    0 <= m < indices.len() ==> #[trigger] is_cell_corner(
                        indices@[m],
                        n as int,
                        m,
                    ),
            decreases side - j,
        {
            proof {
                lemma_index_below(side as int, i as int, j as int, side as int);
                lemma_row_major(side as int, i as int, j as int);
            }
            let k: usize = i * side + j;
            let x: i32 = 2 * (j as i32) - n as i32;
            let z: i32 = 2 * (i as i32) - n as i32;
            positions.push((x, 0, z));
            if i < n && j < n {
                proof {
                    lemma_index_below(side as int, i as int + 1, j as int + 1, side as int);
                    lemma_index_below(n as int, i as int, j as int, n as int);
                    lemma_row_major(n as int, i as int, j as int);
                }
                let top_left: u16 = k as u16;
                let bottom_left: u16 = top_left + side as u16;
                let top_right: u16 = top_left + 1;
                let bottom_right: u16 = bottom_left + 1;
                let ghost cell: int = i * n + j;
                let ghost before = indices@;
                indices.push(top_left);
                indices.push(bottom_left);
                indices.push(top_right);
                indices.push(top_right);
                indices.push(bottom_left);
                indices.push(bottom_right);
                proof {
                    assert(before.len() == 6 * cell);
                    assert forall|m: int| 0 <= m < indices.len() implies #[trigger] is_cell_corner(
                        indices@[m],
                        n as int,
                        m,
                    ) by {
                        if m >= before.len() {
                            assert(m / 6 == cell);
                        } else {
                            assert(indices@[m] == before[m]);
                        }
                    }
                }
            }
            proof {
                assert(i * side + j + 1 == i * side + (j + 1));
            }
            j = j + 1;
        }
        proof {
            assert(i * side + side == (i + 1) * side) by (nonlinear_arith);
            if i < n {
                assert(i * n + n == (i + 1) * n) by (nonlinear_arith);
            }
        }
        i = i + 1;
    }
    proof {
        assert forall|i: int, j: int| 0 <= i <= n && 0 <= j <= n implies {
            let p = positions@[#[trigger] vertex_index(n as int, i, j)];
            &&& p.0 == axis_coord(n as int, j)
            &&& p.1 == 0
            &&& p.2 == axis_coord(n as int, i)
        } by {
            lemma_index_below(side as int, i, j, side as int);
            lemma_row_major(side as int, i, j);
            assert(is_vertex_position(positions@[i * side + j], n as int, i * side + j));
        }
        assert forall|i: int, j: int, t: int| 0 <= i < n && 0 <= j < n && 0 <= t < 6 implies indices@[6
            * (i * n + j) + t] == #[trigger] cell_corner(n as int, i, j, t) by {
            lemma_index_below(n as int, i, j, n as int);
            lemma_row_major(n as int, i, j);
            let m = 6 * (i * n + j) + t;
            assert(m / 6 == i * n + j);
            assert(m % 6 == t);
            assert(is_cell_corner(indices@[m], n as int, m));
        }
        assert forall|m: int| 0 <= m < indices.len() implies indices@[m] < (n + 1) * (n + 1) by {
            let c = m / 6;
            let ci = c / n as int;
            let cj = c % n as int;
            assert(is_cell_corner(indices@[m], n as int, m));
            assert(0 <= c < n * n);
            assert(n > 0) by (nonlinear_arith)
                requires
                    0 <= c < n * n,
                    n >= 0,
            ;
            assert(0 <= ci < n) by (nonlinear_arith)
                requires
                    0 <= c < n * n,
                    ci == c / n as int,
                    n > 0,
            ;
            assert(0 <= cj < n);
            lemma_index_below(side as int, ci, cj, side as int);
            lemma_index_below(side as int, ci + 1, cj + 1, side as int);
        }
    }
    (positions, indices)
}

} // verus!
