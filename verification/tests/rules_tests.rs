use glam::IVec2;
use life_sim::{
    cell_rule, get_cell_next_state, get_grid_next_state, get_num_of_living_neighbors,
    next_generation, stamp, update_cells, Grid, Pattern, SimError,
};

fn grid_with(width: i32, height: i32, live: &[(i32, i32)]) -> Grid {
    let mut grid = Grid::create(width, height).unwrap();
    for &(x, y) in live {
        grid.set(x, y, true).unwrap();
    }
    grid
}

fn live_cells(grid: &Grid) -> Vec<(i32, i32)> {
    let mut cells = Vec::new();
    for x in 0..grid.width() {
        for y in 0..grid.height() {
            if grid.get(x, y).unwrap() {
                cells.push((x, y));
            }
        }
    }
    cells
}

const AROUND: [(i32, i32); 8] =
    [(-1, -1), (0, -1), (1, -1), (-1, 0), (1, 0), (-1, 1), (0, 1), (1, 1)];

fn centre_with_neighbors(alive: bool, neighbors: usize) -> Grid {
    let mut grid = Grid::create(5, 5).unwrap();
    grid.set(2, 2, alive).unwrap();
    for &(i, j) in AROUND.iter().take(neighbors) {
        grid.set(2 + i, 2 + j, true).unwrap();
    }
    grid
}

#[test]
fn an_all_dead_grid_stays_all_dead() {
    for (width, height) in [(1, 1), (1, 7), (7, 1), (5, 4), (16, 16)] {
        let grid = Grid::create(width, height).unwrap();
        let next = next_generation(&grid);
        assert_eq!(next, grid);
        assert!(live_cells(&next).is_empty());
    }
}

#[test]
fn a_single_live_cell_dies() {
    for (x, y) in [(0, 0), (3, 3), (6, 0), (0, 6), (6, 6), (2, 5)] {
        let grid = grid_with(7, 7, &[(x, y)]);
        assert_eq!(get_num_of_living_neighbors(&grid, IVec2::new(x, y)), 0);
        assert_eq!(get_cell_next_state(&grid, IVec2::new(x, y)), Ok(false));
        assert_eq!(next_generation(&grid), Grid::create(7, 7).unwrap());
    }
}

#[test]
fn a_live_cell_survives_with_two_or_three_neighbors_only() {
    let expected = [(0, false), (1, false), (2, true), (3, true), (4, false), (8, false)];
    for (neighbors, survives) in expected {
        let grid = centre_with_neighbors(true, neighbors);
        let centre = IVec2::new(2, 2);
        assert_eq!(get_num_of_living_neighbors(&grid, centre), neighbors as i32);
        assert_eq!(get_cell_next_state(&grid, centre), Ok(survives));
        assert_eq!(next_generation(&grid).get(2, 2), Ok(survives));
    }
    for neighbors in 5..8 {
        let grid = centre_with_neighbors(true, neighbors);
        assert_eq!(get_cell_next_state(&grid, IVec2::new(2, 2)), Ok(false));
    }
}

#[test]
fn a_dead_cell_comes_alive_with_three_neighbors_only() {
    for neighbors in 0..=8 {
        let grid = centre_with_neighbors(false, neighbors);
        let centre = IVec2::new(2, 2);
        assert_eq!(get_num_of_living_neighbors(&grid, centre), neighbors as i32);
        assert_eq!(get_cell_next_state(&grid, centre), Ok(neighbors == 3));
        assert_eq!(next_generation(&grid).get(2, 2), Ok(neighbors == 3));
    }
}

#[test]
fn the_rule_for_every_count() {
    let survive = [false, false, true, true, false, false, false, false, false];
    let born = [false, false, false, true, false, false, false, false, false];
    for count in 0..=8 {
        assert_eq!(cell_rule(true, count as i32), survive[count]);
        assert_eq!(cell_rule(false, count as i32), born[count]);
    }
}

#[test]
fn the_blinker_turns_and_turns_back() {
    let mut upright = Grid::create(5, 5).unwrap();
    stamp(&mut upright, &Pattern::blinker(), IVec2::new(2, 2)).unwrap();
    assert_eq!(live_cells(&upright), vec![(2, 1), (2, 2), (2, 3)]);

    let flat = next_generation(&upright);
    assert_eq!(live_cells(&flat), vec![(1, 2), (2, 2), (3, 2)]);

    let again = next_generation(&flat);
    assert_eq!(live_cells(&again), vec![(2, 1), (2, 2), (2, 3)]);
    assert_eq!(again, upright);
}

#[test]
fn the_glider_moves_one_cell_along_both_axes_in_four_generations() {
    let mut grid = Grid::create(16, 16).unwrap();
    stamp(&mut grid, &Pattern::glider(), IVec2::new(1, 0)).unwrap();
    assert_eq!(live_cells(&grid), vec![(0, 2), (1, 0), (1, 2), (2, 1), (2, 2)]);

    let mut moved = Grid::create(16, 16).unwrap();
    stamp(&mut moved, &Pattern::glider(), IVec2::new(2, 1)).unwrap();

    for _ in 0..4 {
        assert_ne!(grid, moved);
        update_cells(&mut grid);
    }
    assert_eq!(grid, moved);
    assert_eq!(live_cells(&grid), vec![(1, 3), (2, 1), (2, 3), (3, 2), (3, 3)]);
}

#[test]
fn the_glider_generation_by_generation() {
    let mut grid = Grid::create(8, 8).unwrap();
    stamp(&mut grid, &Pattern::glider(), IVec2::new(2, 1)).unwrap();
    assert_eq!(live_cells(&grid), vec![(1, 3), (2, 1), (2, 3), (3, 2), (3, 3)]);
    update_cells(&mut grid);
    assert_eq!(live_cells(&grid), vec![(1, 2), (2, 3), (2, 4), (3, 2), (3, 3)]);
    update_cells(&mut grid);
    assert_eq!(live_cells(&grid), vec![(1, 3), (2, 4), (3, 2), (3, 3), (3, 4)]);
    update_cells(&mut grid);
    assert_eq!(live_cells(&grid), vec![(2, 2), (2, 4), (3, 3), (3, 4), (4, 3)]);
    update_cells(&mut grid);
    assert_eq!(live_cells(&grid), vec![(2, 4), (3, 2), (3, 4), (4, 3), (4, 4)]);
}

#[test]
fn the_corner_counts_its_three_neighbors_and_no_more() {
    let mut grid = Grid::create(4, 4).unwrap();
    for x in 0..4 {
        for y in 0..4 {
            grid.set(x, y, true).unwrap();
        }
    }
    assert_eq!(get_num_of_living_neighbors(&grid, IVec2::new(0, 0)), 3);
    assert_eq!(get_num_of_living_neighbors(&grid, IVec2::new(3, 3)), 3);
    assert_eq!(get_num_of_living_neighbors(&grid, IVec2::new(3, 0)), 3);
    assert_eq!(get_num_of_living_neighbors(&grid, IVec2::new(0, 3)), 3);
    assert_eq!(get_num_of_living_neighbors(&grid, IVec2::new(0, 1)), 5);
    assert_eq!(get_num_of_living_neighbors(&grid, IVec2::new(1, 1)), 8);
    assert_eq!(get_cell_next_state(&grid, IVec2::new(0, 0)), Ok(true));
    assert_eq!(get_cell_next_state(&grid, IVec2::new(0, 1)), Ok(false));
}

#[test]
fn the_edges_do_not_wrap_around() {
    let grid = grid_with(4, 4, &[(3, 0), (3, 1), (3, 3), (0, 3), (1, 3)]);
    assert_eq!(get_num_of_living_neighbors(&grid, IVec2::new(0, 0)), 0);
    assert_eq!(get_cell_next_state(&grid, IVec2::new(0, 0)), Ok(false));

    let only_corner = grid_with(4, 4, &[(0, 0), (1, 0)]);
    assert_eq!(get_num_of_living_neighbors(&only_corner, IVec2::new(0, 0)), 1);
    assert_eq!(get_num_of_living_neighbors(&only_corner, IVec2::new(3, 0)), 0);
    assert_eq!(get_num_of_living_neighbors(&only_corner, IVec2::new(0, 3)), 0);
    assert_eq!(get_num_of_living_neighbors(&only_corner, IVec2::new(3, 3)), 0);
}

#[test]
fn neighbors_are_counted_around_any_coordinate() {
    let grid = grid_with(3, 3, &[(0, 0), (0, 1), (0, 2), (2, 2)]);
    assert_eq!(get_num_of_living_neighbors(&grid, IVec2::new(-1, 1)), 3);
    assert_eq!(get_num_of_living_neighbors(&grid, IVec2::new(-1, -1)), 1);
    assert_eq!(get_num_of_living_neighbors(&grid, IVec2::new(3, 3)), 1);
    assert_eq!(get_num_of_living_neighbors(&grid, IVec2::new(-2, 1)), 0);
    assert_eq!(get_num_of_living_neighbors(&grid, IVec2::new(1, 1)), 4);
    assert_eq!(get_num_of_living_neighbors(&grid, IVec2::new(0, 1)), 2);
    assert_eq!(get_num_of_living_neighbors(&grid, IVec2::new(i32::MAX, i32::MAX)), 0);
    assert_eq!(get_num_of_living_neighbors(&grid, IVec2::new(i32::MIN, i32::MIN)), 0);
}

#[test]
fn the_next_state_of_a_cell_outside_the_grid_is_out_of_bounds() {
    let grid = grid_with(3, 3, &[(0, 0), (0, 1), (0, 2)]);
    assert_eq!(get_cell_next_state(&grid, IVec2::new(-1, 1)), Err(SimError::OutOfBounds));
    assert_eq!(get_cell_next_state(&grid, IVec2::new(3, 0)), Err(SimError::OutOfBounds));
    assert_eq!(get_cell_next_state(&grid, IVec2::new(0, 3)), Err(SimError::OutOfBounds));
    assert_eq!(get_cell_next_state(&grid, IVec2::new(1, 1)), Ok(true));
}

#[test]
fn next_generation_leaves_its_input_alone() {
    let mut grid = Grid::create(16, 16).unwrap();
    stamp(&mut grid, &Pattern::glider(), IVec2::new(1, 0)).unwrap();
    let before = grid.clone();
    let next = next_generation(&grid);
    assert_eq!(grid, before);
    assert_ne!(next, grid);
    let states = get_grid_next_state(&grid);
    assert_eq!(grid, before);
    assert_eq!(states.len(), 16);
}

#[test]
fn the_next_states_come_column_by_column() {
    let grid = grid_with(3, 4, &[(1, 0), (1, 1), (1, 2)]);
    let states = get_grid_next_state(&grid);
    assert_eq!(
        states,
        vec![
            vec![false, true, false, false],
            vec![false, true, false, false],
            vec![false, true, false, false],
        ]
    );
    let next = next_generation(&grid);
    assert_eq!(next.width(), 3);
    assert_eq!(next.height(), 4);
    assert_eq!(live_cells(&next), vec![(0, 1), (1, 1), (2, 1)]);
}

#[test]
fn update_cells_is_next_generation_in_place() {
    let mut grid = grid_with(6, 5, &[(1, 1), (2, 1), (3, 1), (3, 2), (0, 4), (5, 4), (5, 3)]);
    for _ in 0..6 {
        let expected = next_generation(&grid);
        update_cells(&mut grid);
        assert_eq!(grid, expected);
        assert_eq!(grid.width(), 6);
        assert_eq!(grid.height(), 5);
    }
}

#[test]
fn a_block_is_still() {
    let mut grid = grid_with(4, 4, &[(1, 1), (1, 2), (2, 1), (2, 2)]);
    let before = grid.clone();
    update_cells(&mut grid);
    assert_eq!(grid, before);
}

#[test]
fn a_blinker_at_the_edge_loses_the_cell_that_would_fall_outside() {
    let grid = grid_with(3, 3, &[(0, 0), (0, 1), (0, 2)]);
    let next = next_generation(&grid);
    assert_eq!(live_cells(&next), vec![(0, 1), (1, 1)]);
}
