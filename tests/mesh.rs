use surface_graph::mesh::{get_position_grid_n_by_n, GRID_SIZE};

#[test]
fn grid_of_one_cell() {
    let (positions, indices) = get_position_grid_n_by_n(1);
    assert_eq!(positions, vec![(-1, 0, -1), (1, 0, -1), (-1, 0, 1), (1, 0, 1)]);
    assert_eq!(indices, vec![0, 2, 1, 1, 2, 3]);
}

#[test]
fn grid_of_two_cells_per_side() {
    let (positions, indices) = get_position_grid_n_by_n(2);
    assert_eq!(positions.len(), 9);
    // Row 1, column 2: x = (2*2 - 2)/2 = 1, z = (2*1 - 2)/2 = 0.
    assert_eq!(positions[5], (2, 0, 0));
    assert_eq!(positions[4], (0, 0, 0));
    assert_eq!(indices.len(), 24);
    // Cell (1, 0): TL = 3, TR = 4, BL = 6, BR = 7.
    assert_eq!(&indices[12..18], &[3, 6, 4, 4, 6, 7]);
    // Cell (1, 1): TL = 4, TR = 5, BL = 7, BR = 8.
    assert_eq!(&indices[18..24], &[4, 7, 5, 5, 7, 8]);
}

#[test]
fn grid_counts_winding_and_bounds() {
    for n in [1usize, 3, 7, 10] {
        let (positions, indices) = get_position_grid_n_by_n(n);
        let side = n + 1;
        assert_eq!(positions.len(), side * side);
        assert_eq!(indices.len(), 6 * n * n);
        assert!(indices.iter().all(|&v| (v as usize) < side * side));
        for i in 0..n {
            for j in 0..n {
                let tl = (i * side + j) as u16;
                let bl = tl + side as u16;
                let c = 6 * (i * n + j);
                assert_eq!(&indices[c..c + 6], &[tl, bl, tl + 1, tl + 1, bl, bl + 1]);
            }
        }
    }
}

#[test]
fn grid_positions_span_the_unit_square() {
    let n = 4usize;
    let (positions, _) = get_position_grid_n_by_n(n);
    let xs: Vec<f32> = positions.iter().map(|p| p.0 as f32 / n as f32).collect();
    assert_eq!(xs[0], -1.0);
    assert_eq!(xs[n], 1.0);
    assert_eq!(xs[2], 0.0);
    assert!(positions.iter().all(|p| p.1 == 0));
    let last = positions[positions.len() - 1];
    assert_eq!(last, (4, 0, 4));
}

#[test]
fn grid_without_cells() {
    let (positions, indices) = get_position_grid_n_by_n(0);
    assert_eq!(positions, vec![(0, 0, 0)]);
    assert!(indices.is_empty());
}

#[test]
fn largest_grid_fits_sixteen_bit_indices() {
    let (positions, indices) = get_position_grid_n_by_n(255);
    assert_eq!(positions.len(), 65536);
    assert_eq!(indices.len(), 6 * 255 * 255);
    assert_eq!(*indices.iter().max().unwrap(), 65535);
}

#[test]
fn default_grid_size() {
    let (positions, indices) = get_position_grid_n_by_n(GRID_SIZE);
    assert_eq!(positions.len(), 101 * 101);
    assert_eq!(indices.len(), 60000);
}
