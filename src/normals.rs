//! Which vertices the normal of each grid vertex is taken from.
//!
//! The normal of a vertex A that has a vertex B below it (next row) and a
//! vertex C to its right (next column) is the unit normal of the triangle
//! A, B, C: `normalize((B - A) × (C - A))`, each point at its grid X/Z and
//! its height. A vertex on the last row or the last column has no such
//! neighbours, and its normal is straight up, `(0, 1, 0)`.
use crate::mesh::{lemma_index_below, lemma_row_major, lemma_split_index, vertex_index};
use vstd::prelude::*;

verus! {

/// Where the normal of one vertex comes from.
#[derive(Clone, Copy, Debug, PartialEq, Eq, Structural)]
pub enum NormalStencil {
    /// The vertex lies on the last row or column; its normal is `(0, 1, 0)`.
    Up,
    /// The normal is the one of the triangle from vertex `a` to the vertex
    /// `below` it and the vertex `right` of it.
    Facet { a: usize, below: usize, right: usize },
}

/// The stencil of the vertex in row `i` and column `j` of an `n`-grid.
pub open spec fn stencil_of(n: int, i: int, j: int) -> NormalStencil {
    if i == n || j == n {
        NormalStencil::Up
    } else {
        NormalStencil::Facet {
            a: vertex_index(n, i, j) as usize,
            below: vertex_index(n, i + 1, j) as usize,
            right: (vertex_index(n, i, j) + 1) as usize,
        }
    }
}

/// Entry `k` of the stencils of an `n`-grid is the one of its `k`-th vertex.
pub open spec fn is_stencil_entry(s: NormalStencil, n: int, k: int) -> bool {
    s == stencil_of(n, k / (n + 1), k % (n + 1))
}

/// The stencils of all `(n + 1)²` vertices of a grid of `grid_size` cells
/// per side, in row-major order. The only bound on `grid_size` is that
/// the vertex count fits in a `usize`.
pub fn get_grid_normal_stencils(grid_size: usize) -> (r: Vec<NormalStencil>)
    requires
        (grid_size + 1) * (grid_size + 1) <= usize::MAX,
    ensures
        r@.len() == (grid_size + 1) * (grid_size + 1),
        forall|i: int, j: int|
            0 <= i <= grid_size && 0 <= j <= grid_size ==> r@[#[trigger] vertex_index(
                grid_size as int,
                i,
                j,
            )] == stencil_of(grid_size as int, i, j),
        forall|i: int, j: int|
            0 <= i <= grid_size && 0 <= j <= grid_size && (i == grid_size || j == grid_size)
                ==> r@[#[trigger] vertex_index(grid_size as int, i, j)] == NormalStencil::Up,
{
    proof {
        assert(grid_size + 1 <= (grid_size + 1) * (grid_size + 1)) by (nonlinear_arith);
    }
    let n = grid_size;
    let side: usize = n + 1;
    let count: usize = side * side;
    let mut stencils: Vec<NormalStencil> = Vec::new();
    let mut k: usize = 0;
    while k < count
        invariant
            side == n + 1,
            count == side * side,
            k <= count,
            stencils.len() == k,
            forall|k2: int|
                0 <= k2 < k ==> #[trigger] is_stencil_entry(stencils@[k2], n as int, k2),
        decreases count - k,
    {
        let row: usize = k / side;
        let column: usize = k % side;
        proof {
            lemma_split_index(k as int, side as int);
        }
        if row == n || column == n {
            stencils.push(NormalStencil::Up);
        } else {
            proof {
                lemma_index_below(side as int, row as int, column as int, side as int);
                lemma_index_below(side as int, row + 1, column as int, side as int);
            }
            stencils.push(NormalStencil::Facet { a: k, below: k + side, right: k + 1 });
        }
        k = k + 1;
    }
    proof {
        assert forall|i: int, j: int| 0 <= i <= n && 0 <= j <= n implies stencils@[
            #[trigger] vertex_index(n as int, i, j)
        ] == stencil_of(n as int, i, j) by {
            lemma_index_below(side as int, i, j, side as int);
            lemma_row_major(side as int, i, j);
            assert(is_stencil_entry(stencils@[i * side + j], n as int, i * side + j));
        }
    }
    stencils
}

} // verus!
