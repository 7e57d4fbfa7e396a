use sph_synth::spatial_hash::{GridCell, SpatialHash};

fn cell(x: i32, y: i32, z: i32) -> GridCell {
    GridCell { x, y, z }
}

fn sorted(mut v: Vec<usize>) -> Vec<usize> {
    v.sort();
    v
}

#[test]
fn empty_hash_finds_nothing() {
    let h = SpatialHash::new();
    assert!(h.query_neighbors(cell(0, 0, 0), 3).is_empty());
}

#[test]
fn query_returns_particles_in_neighbouring_cells() {
    let mut h = SpatialHash::new();
    let cells = vec![cell(0, 0, 0), cell(1, 0, 0), cell(2, 0, 0), cell(0, -1, 1), cell(5, 5, 5)];
    h.rebuild(&cells);
    assert_eq!(sorted(h.query_neighbors(cell(0, 0, 0), 1)), vec![0, 1, 3]);
    assert_eq!(sorted(h.query_neighbors(cell(0, 0, 0), 0)), vec![0]);
    assert_eq!(sorted(h.query_neighbors(cell(5, 5, 5), 0)), vec![4]);
    assert_eq!(sorted(h.query_neighbors(cell(0, 0, 0), 5)), vec![0, 1, 2, 3, 4]);
}

#[test]
fn particles_sharing_a_cell_are_each_found_once() {
    let mut h = SpatialHash::new();
    let cells = vec![cell(3, 3, 3); 4];
    h.rebuild(&cells);
    assert_eq!(sorted(h.query_neighbors(cell(3, 3, 3), 2)), vec![0, 1, 2, 3]);
}

#[test]
fn rebuild_forgets_earlier_particles() {
    let mut h = SpatialHash::new();
    h.rebuild(&[cell(0, 0, 0), cell(0, 0, 0)]);
    h.rebuild(&[cell(9, 9, 9)]);
    assert!(h.query_neighbors(cell(0, 0, 0), 1).is_empty());
    assert_eq!(h.query_neighbors(cell(9, 9, 9), 0), vec![0]);
}

#[test]
fn neighbourhood_is_mutual() {
    let mut h = SpatialHash::new();
    let cells = vec![cell(0, 0, 0), cell(2, -2, 1), cell(-3, 0, 0)];
    h.rebuild(&cells);
    for i in 0..cells.len() {
        for j in 0..cells.len() {
            let from_i = h.query_neighbors(cells[i], 2).contains(&j);
            let from_j = h.query_neighbors(cells[j], 2).contains(&i);
            assert_eq!(from_i, from_j);
        }
    }
}

#[test]
fn own_cell_is_always_found() {
    let mut h = SpatialHash::new();
    let cells = vec![cell(-7, 2, 100), cell(i32::MAX, i32::MIN, 0)];
    h.rebuild(&cells);
    for (i, c) in cells.iter().enumerate() {
        assert!(h.query_neighbors(*c, 0).contains(&i));
    }
}

#[test]
fn wider_reach_keeps_neighbours() {
    let mut h = SpatialHash::new();
    let cells: Vec<GridCell> = (0..10).map(|k| cell(k, -k, k % 3)).collect();
    h.rebuild(&cells);
    let narrow = h.query_neighbors(cell(4, -4, 1), 1);
    let wide = h.query_neighbors(cell(4, -4, 1), 3);
    for i in narrow {
        assert!(wide.contains(&i));
    }
}

#[test]
fn cells_at_the_edge_of_the_integer_range() {
    let mut h = SpatialHash::new();
    let cells = vec![cell(i32::MAX, i32::MAX, i32::MAX), cell(i32::MIN, i32::MIN, i32::MIN)];
    h.rebuild(&cells);
    assert_eq!(h.query_neighbors(cell(i32::MAX, i32::MAX, i32::MAX), 2), vec![0]);
    assert_eq!(h.query_neighbors(cell(i32::MIN, i32::MIN, i32::MIN), 1), vec![1]);
}

#[test]
fn cells_whose_buckets_collide_are_told_apart() {
    // (1 << 21, 0, 0) and (0, 1, 0) fall in the same bucket.
    let mut h = SpatialHash::new();
    let cells = vec![cell(1 << 21, 0, 0), cell(0, 1, 0)];
    h.rebuild(&cells);
    assert_eq!(h.query_neighbors(cell(0, 1, 0), 0), vec![1]);
    assert_eq!(h.query_neighbors(cell(1 << 21, 0, 0), 0), vec![0]);
}
