use dla_sim::grid::Grid;

#[test]
fn new_grid_is_empty() {
    let grid = Grid::new(7, 5);
    assert_eq!(grid.width(), 7);
    assert_eq!(grid.height(), 5);
    assert_eq!(grid.count_occupied(), 0);
    for y in 0..5 {
        for x in 0..7 {
            assert_eq!(grid.get(x, y), None);
        }
    }
}

#[test]
fn occupy_marks_one_cell() {
    let mut grid = Grid::new(7, 5);
    grid.occupy(6, 4, 11);
    grid.occupy(0, 0, 12);
    grid.occupy(3, 2, 13);
    assert_eq!(grid.get(6, 4), Some(11));
    assert_eq!(grid.get(0, 0), Some(12));
    assert_eq!(grid.get(3, 2), Some(13));
    assert_eq!(grid.get(2, 3), None);
    assert_eq!(grid.count_occupied(), 3);
    // Writing a cell again replaces what it held and adds nothing.
    grid.occupy(3, 2, 14);
    assert_eq!(grid.get(3, 2), Some(14));
    assert_eq!(grid.count_occupied(), 3);
}

#[test]
fn positions_outside_the_grid_hold_nothing() {
    let mut grid = Grid::new(7, 5);
    grid.occupy(6, 4, 1);
    assert_eq!(grid.get(7, 4), None);
    assert_eq!(grid.get(6, 5), None);
    // The position after the end of a row is not the start of the next.
    grid.occupy(0, 1, 2);
    assert_eq!(grid.get(7, 0), None);
}

#[test]
fn clear_empties_every_cell() {
    let mut grid = Grid::new(7, 5);
    grid.occupy(1, 1, 0);
    grid.occupy(2, 2, 1);
    grid.clear();
    assert_eq!(grid.count_occupied(), 0);
    assert_eq!(grid.get(1, 1), None);
    assert_eq!(grid.width(), 7);
    assert_eq!(grid.height(), 5);
}
