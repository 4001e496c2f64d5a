use life_sandbox::Grid;

#[test]
fn new_grid_is_all_dead() {
    let g = Grid::new(5, 4);
    assert_eq!(g.width(), 5);
    assert_eq!(g.height(), 4);
    for x in 0..5 {
        for y in 0..4 {
            assert!(!g.is_live(x, y));
        }
    }
}

#[test]
fn set_and_toggle_cells() {
    let mut g = Grid::new(5, 5);
    g.set_live(2, 3, true);
    assert!(g.is_live(2, 3));
    assert!(!g.is_live(3, 2));
    g.toggle(2, 3);
    assert!(!g.is_live(2, 3));
    g.toggle(1, 1);
    assert!(g.is_live(1, 1));
}

#[test]
fn in_bounds_edges() {
    let g = Grid::new(79, 45);
    assert!(g.in_bounds(0, 0));
    assert!(g.in_bounds(78, 44));
    assert!(!g.in_bounds(-1, 0));
    assert!(!g.in_bounds(0, -1));
    assert!(!g.in_bounds(79, 0));
    assert!(!g.in_bounds(0, 45));
}

#[test]
fn clear_stage_kills_everything() {
    let mut g = Grid::new(6, 6);
    g.set_live(0, 0, true);
    g.set_live(5, 5, true);
    g.set_live(3, 2, true);
    g.clear_stage();
    for x in 0..6 {
        for y in 0..6 {
            assert!(!g.is_live(x, y));
        }
    }
}

#[test]
fn same_as_compares_cells_and_dimensions() {
    let mut a = Grid::new(4, 4);
    let mut b = Grid::new(4, 4);
    assert!(a.same_as(&b));
    a.set_live(1, 2, true);
    assert!(!a.same_as(&b));
    b.set_live(1, 2, true);
    assert!(a.same_as(&b));
    let c = Grid::new(5, 4);
    let d = Grid::new(4, 4);
    assert!(!d.same_as(&c));
}
