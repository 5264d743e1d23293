use glam::IVec2;
use life_sim::{Grid, SimError};

#[test]
fn create_gives_an_all_dead_grid_of_the_given_extent() {
    let grid = Grid::create(4, 3).unwrap();
    assert_eq!(grid.width(), 4);
    assert_eq!(grid.height(), 3);
    for x in 0..4 {
        for y in 0..3 {
            assert_eq!(grid.get(x, y), Ok(false));
        }
    }
}

#[test]
fn create_rejects_an_extent_that_is_not_positive() {
    assert_eq!(Grid::create(0, 5).err(), Some(SimError::InvalidConfiguration));
    assert_eq!(Grid::create(5, 0).err(), Some(SimError::InvalidConfiguration));
    assert_eq!(Grid::create(-1, 5).err(), Some(SimError::InvalidConfiguration));
    assert_eq!(Grid::create(5, i32::MIN).err(), Some(SimError::InvalidConfiguration));
    assert!(Grid::create(1, 1).is_ok());
}

#[test]
fn size_reports_columns_and_rows() {
    let grid = Grid::create(7, 2).unwrap();
    assert_eq!(grid.size(), IVec2::new(7, 2));
    assert_eq!(grid.size().x, 7);
    assert_eq!(grid.size().y, 2);
}

#[test]
fn get_outside_the_grid_is_out_of_bounds() {
    let grid = Grid::create(4, 3).unwrap();
    assert_eq!(grid.get(-1, 0), Err(SimError::OutOfBounds));
    assert_eq!(grid.get(0, -1), Err(SimError::OutOfBounds));
    assert_eq!(grid.get(4, 0), Err(SimError::OutOfBounds));
    assert_eq!(grid.get(0, 3), Err(SimError::OutOfBounds));
    assert_eq!(grid.get(i32::MAX, i32::MAX), Err(SimError::OutOfBounds));
    assert_eq!(grid.get(i32::MIN, 0), Err(SimError::OutOfBounds));
    assert_eq!(grid.get(3, 2), Ok(false));
}

#[test]
fn set_changes_the_one_cell_it_names() {
    let mut grid = Grid::create(4, 3).unwrap();
    assert_eq!(grid.set(2, 1, true), Ok(()));
    for x in 0..4 {
        for y in 0..3 {
            assert_eq!(grid.get(x, y), Ok(x == 2 && y == 1));
        }
    }
    assert_eq!(grid.set(2, 1, false), Ok(()));
    assert_eq!(grid, Grid::create(4, 3).unwrap());
}

#[test]
fn set_keeps_columns_and_rows_apart() {
    let mut grid = Grid::create(3, 5).unwrap();
    grid.set(1, 4, true).unwrap();
    assert_eq!(grid.get(1, 4), Ok(true));
    assert_eq!(grid.get(4, 1), Err(SimError::OutOfBounds));
    assert_eq!(grid.get(2, 4), Ok(false));
    assert_eq!(grid.get(1, 3), Ok(false));
}

#[test]
fn set_outside_the_grid_changes_nothing() {
    let mut grid = Grid::create(4, 3).unwrap();
    grid.set(1, 1, true).unwrap();
    let before = grid.clone();
    assert_eq!(grid.set(4, 1, true), Err(SimError::OutOfBounds));
    assert_eq!(grid.set(1, 3, true), Err(SimError::OutOfBounds));
    assert_eq!(grid.set(-1, -1, true), Err(SimError::OutOfBounds));
    assert_eq!(grid, before);
    assert_eq!(grid.width(), 4);
    assert_eq!(grid.height(), 3);
}

#[test]
fn is_alive_counts_the_outside_as_dead() {
    let mut grid = Grid::create(2, 2).unwrap();
    grid.set(0, 0, true).unwrap();
    grid.set(1, 1, true).unwrap();
    assert!(grid.is_alive(0, 0));
    assert!(grid.is_alive(1, 1));
    assert!(!grid.is_alive(1, 0));
    assert!(!grid.is_alive(-1, 0));
    assert!(!grid.is_alive(0, -1));
    assert!(!grid.is_alive(2, 1));
    assert!(!grid.is_alive(1, 2));
    assert!(!grid.is_alive(i64::MAX, i64::MIN));
}
