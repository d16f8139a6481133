//! Layout of the time-varying height field over the grid's vertices.
//!
//! The field is centred on the grid's centre vertex, at row and column
//! `h = (n + 1) / 2` (integer division: `n / 2` for an even `n`). The
//! vertex in row `z` and column `x` is mapped to the field point
//! `(2π (x - h) / h, 2π (z - h) / h)`, whose distance from the centre is
//! `2π sqrt(radial_square) / h`. Its height at time `t` (milliseconds) is
//! `0.15 * sin(2π sqrt(radial_square) / h + 0.001 t)`; at the centre
//! vertex the distance is zero, whatever `h`.
use crate::mesh::{grid_fits, lemma_index_below, lemma_row_major, lemma_side_bound,
    lemma_split_index, vertex_index};
use vstd::prelude::*;

verus! {

/// Row and column of the centre vertex of an `n`-grid.
pub open spec fn field_centre(n: int) -> int {
    (n + 1) / 2
}

/// Squared distance, in vertex spacings, of the vertex in row `z` and
/// column `x` of an `n`-grid from its centre vertex:
/// `(x - h)² + (z - h)²` with `h = field_centre(n)`.
pub open spec fn radial_square(n: int, x: int, z: int) -> int {
    let h = field_centre(n);
    (x - h) * (x - h) + (z - h) * (z - h)
}

/// Entry `k` of the field of an `n`-grid belongs to row `k / (n + 1)` and
/// column `k % (n + 1)`.
pub open spec fn is_field_entry(v: u32, n: int, k: int) -> bool {
    v == radial_square(n, k % (n + 1), k / (n + 1))
}

/// The radial squares of all `(n + 1)²` vertices of an `n`-grid, row-major:
/// the time-independent part of the height field.
pub fn get_field_radial_squares(n: usize) -> (r: Vec<u32>)
    requires
        grid_fits(n as int),
    ensures
        r@.len() == (n + 1) * (n + 1),
        forall|z: int, x: int|
            0 <= z <= n && 0 <= x <= n ==> r@[#[trigger] vertex_index(n as int, z, x)]
                == radial_square(n as int, x, z),
        field_centre(n as int) <= n,
        r@[vertex_index(n as int, field_centre(n as int), field_centre(n as int))] == 0,
{
    proof {
        lemma_side_bound(n as int);
    }
    let side: usize = n + 1;
    let count: usize = side * side;
    let mut field: Vec<u32> = Vec::new();
    let mut k: usize = 0;
    while k < count
        invariant
            n <= 255,
            side == n + 1,
            count == side * side,
            k <= count,
            field.len() == k,
            forall|k2: int| 0 <= k2 < k ==> #[trigger] is_field_entry(field@[k2], n as int, k2),
        decreases count - k,
    {
        let column: usize = k % side;
        let row: usize = k / side;
        proof {
            lemma_split_index(k as int, side as int);
        }
        let x: i64 = column as i64;
        let z: i64 = row as i64;
        let centre: i64 = (side / 2) as i64;
        let dx: i64 = x - centre;
        let dz: i64 = z - centre;
        assert(dx * dx <= 0x1_0000 && dz * dz <= 0x1_0000 && dx * dx >= 0 && dz * dz >= 0)
            by (nonlinear_arith)
            requires
                -256 <= dx <= 256,
                -256 <= dz <= 256,
        ;
        field.push((dx * dx + dz * dz) as u32);
        k = k + 1;
    }
    proof {
        assert forall|z: int, x: int| 0 <= z <= n && 0 <= x <= n implies field@[
            #[trigger] vertex_index(n as int, z, x)
        ] == radial_square(n as int, x, z) by {
            lemma_index_below(side as int, z, x, side as int);
            lemma_row_major(side as int, z, x);
            assert(is_field_entry(field@[z * side + x], n as int, z * side + x));
        }
        lemma_centre_vertex(n as int);
    }
    field
}

/// The grid's centre vertex lies on the grid and at distance zero from
/// the field's centre, so its height at time zero is `0.15 * sin(0) = 0`.
pub proof fn lemma_centre_vertex(n: int)
    requires
        n >= 0,
    ensures
        0 <= field_centre(n) <= n,
        radial_square(n, field_centre(n), field_centre(n)) == 0,
{
    let h = field_centre(n);
    assert(radial_square(n, h, h) == 0 * 0 + 0 * 0);
}

} // verus!
