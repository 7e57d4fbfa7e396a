use sph_synth::grid::{initial_grid, GridSlot};

#[test]
fn grid_fills_columns_bottom_to_top() {
    let g = initial_grid(2);
    assert_eq!(
        g,
        vec![
            GridSlot { column: 0, row: 0 },
            GridSlot { column: 0, row: 1 },
            GridSlot { column: 1, row: 0 },
            GridSlot { column: 1, row: 1 },
        ]
    );
}

#[test]
fn grid_of_thirty_six_has_one_particle_per_slot() {
    let g = initial_grid(36);
    assert_eq!(g.len(), 36 * 36);
    let mut seen = vec![false; 36 * 36];
    for s in &g {
        let k = s.column * 36 + s.row;
        assert!(!seen[k]);
        seen[k] = true;
    }
    assert!(seen.iter().all(|b| *b));
    assert_eq!(g[37], GridSlot { column: 1, row: 1 });
}

#[test]
fn empty_grid() {
    assert!(initial_grid(0).is_empty());
    assert_eq!(initial_grid(1), vec![GridSlot { column: 0, row: 0 }]);
}
