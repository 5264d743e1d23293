use crate::error::SimError;
use crate::grid::{alive_at, all_dead, columns, rectangular, Grid};
use glam::IVec2;
use vstd::prelude::*;

verus! {

/// 1 where `cells` has a live cell at `(x, y)`, else 0.
pub open spec fn live(cells: Seq<Seq<bool>>, x: int, y: int) -> int {
    if alive_at(cells, x, y) {
        1
    } else {
        0
    }
}

/// How many of the eight cells around `(x, y)` are alive. A neighbour outside
/// the matrix counts as dead: the matrix has edges and does not wrap around.
pub open spec fn neighbor_count(cells: Seq<Seq<bool>>, x: int, y: int) -> int {
    live(cells, x - 1, y - 1) + live(cells, x - 1, y) + live(cells, x - 1, y + 1)
        + live(cells, x, y - 1) + live(cells, x, y + 1)
        + live(cells, x + 1, y - 1) + live(cells, x + 1, y) + live(cells, x + 1, y + 1)
}

/// The rule of the game: a live cell stays alive with two or three live
/// neighbours, a dead cell comes alive with exactly three.
pub open spec fn rule(alive: bool, neighbors: int) -> bool {
    if alive {
        neighbors == 2 || neighbors == 3
    } else {
        neighbors == 3
    }
}

/// Whether the cell at `(x, y)` is alive in the generation after `cells`.
pub open spec fn next_state(cells: Seq<Seq<bool>>, x: int, y: int) -> bool {
    rule(alive_at(cells, x, y), neighbor_count(cells, x, y))
}

/// The generation after `cells`: every cell judged against `cells` itself.
pub open spec fn next_cells(cells: Seq<Seq<bool>>) -> Seq<Seq<bool>> {
    Seq::new(
        cells.len(),
        |x: int| Seq::new(cells[x].len(), |y: int| next_state(cells, x, y)),
    )
}

/// The matrix `count` generations after `cells`.
pub open spec fn generations(cells: Seq<Seq<bool>>, count: nat) -> Seq<Seq<bool>>
    decreases count,
{
    if count == 0 {
        cells
    } else {
        next_cells(generations(cells, (count - 1) as nat))
    }
}

/// A cell has between zero and eight live neighbours.
pub proof fn lemma_neighbor_count_range(cells: Seq<Seq<bool>>, x: int, y: int)
    ensures
        0 <= neighbor_count(cells, x, y) <= 8,
{
}

/// A generation has the extent of the one before it.
pub proof fn lemma_next_cells_rectangular(cells: Seq<Seq<bool>>, width: int, height: int)
    requires
        rectangular(cells, width, height),
    ensures
        rectangular(next_cells(cells), width, height),
{
}

/// Every later generation has the extent of the first.
pub proof fn lemma_generations_rectangular(
    cells: Seq<Seq<bool>>,
    width: int,
    height: int,
    count: nat,
)
    requires
        rectangular(cells, width, height),
    ensures
        rectangular(generations(cells, count), width, height),
    decreases count,
{
    if count > 0 {
        lemma_generations_rectangular(cells, width, height, (count - 1) as nat);
        lemma_next_cells_rectangular(generations(cells, (count - 1) as nat), width, height);
    }
}

/// Nothing is born from nothing: the generation after an all-dead matrix is
/// all dead.
pub proof fn lemma_dead_stays_dead(cells: Seq<Seq<bool>>)
    requires
        all_dead(cells),
    ensures
        all_dead(next_cells(cells)),
{
    assert forall|x: int, y: int| !alive_at(next_cells(cells), x, y) by {
        assert(neighbor_count(cells, x, y) == 0);
    }
}

/// A live cell without a live neighbour is dead in the next generation.
pub proof fn lemma_lonely_cell_dies(cells: Seq<Seq<bool>>, x: int, y: int)
    requires
        alive_at(cells, x, y),
        neighbor_count(cells, x, y) == 0,
    ensures
        !alive_at(next_cells(cells), x, y),
{
}

/// A matrix whose only live cell is the one at `(x, y)` is all dead one
/// generation later.
pub proof fn lemma_single_cell_dies_out(cells: Seq<Seq<bool>>, x: int, y: int)
    requires
        forall|a: int, b: int| alive_at(cells, a, b) ==> a == x && b == y,
    ensures
        all_dead(next_cells(cells)),
{
    assert forall|a: int, b: int| !alive_at(next_cells(cells), a, b) by {
        assert(neighbor_count(cells, a, b) <= 1);
        assert(alive_at(cells, a, b) ==> neighbor_count(cells, a, b) == 0);
    }
}

/// A live cell is alive in the next generation exactly when two or three of
/// its neighbours are alive: with one or none it dies, and with four or more.
pub proof fn lemma_survival(cells: Seq<Seq<bool>>, x: int, y: int)
    requires
        alive_at(cells, x, y),
    ensures
        alive_at(next_cells(cells), x, y) <==> neighbor_count(cells, x, y) == 2 || neighbor_count(
            cells,
            x,
            y,
        ) == 3,
        neighbor_count(cells, x, y) <= 1 ==> !alive_at(next_cells(cells), x, y),
        neighbor_count(cells, x, y) >= 4 ==> !alive_at(next_cells(cells), x, y),
{
}

/// A dead cell of the matrix is alive in the next generation exactly when
/// three of its neighbours are alive.
pub proof fn lemma_birth(cells: Seq<Seq<bool>>, x: int, y: int)
    requires
        0 <= x < cells.len(),
        0 <= y < cells[x].len(),
        !alive_at(cells, x, y),
    ensures
        alive_at(next_cells(cells), x, y) <==> neighbor_count(cells, x, y) == 3,
{
}

/// The edges do not wrap around: the cell in the corner `(0, 0)` has the three
/// neighbours `(1, 0)`, `(0, 1)` and `(1, 1)` and no others, whatever lives on
/// the opposite edges.
pub proof fn lemma_corner_has_three_neighbors(cells: Seq<Seq<bool>>)
    ensures
        neighbor_count(cells, 0, 0) == live(cells, 1, 0) + live(cells, 0, 1) + live(cells, 1, 1),
        neighbor_count(cells, 0, 0) <= 3,
{
}

/// The same at the opposite corner of a matrix of `width` by `height` cells.
pub proof fn lemma_far_corner_has_three_neighbors(cells: Seq<Seq<bool>>, width: int, height: int)
    requires
        rectangular(cells, width, height),
    ensures
        neighbor_count(cells, width - 1, height - 1) == live(cells, width - 2, height - 1) + live(
            cells,
            width - 1,
            height - 2,
        ) + live(cells, width - 2, height - 2),
        neighbor_count(cells, width - 1, height - 1) <= 3,
{
}

/// A cell outside the matrix is dead, and stays so.
pub proof fn lemma_outside_is_dead(cells: Seq<Seq<bool>>, width: int, height: int, x: int, y: int)
    requires
        rectangular(cells, width, height),
        !(0 <= x < width && 0 <= y < height),
    ensures
        !alive_at(cells, x, y),
        !alive_at(next_cells(cells), x, y),
{
}

/// What the cell at offset `(i, j)` from `(x, y)` adds to the count of live
/// neighbours: the cell itself adds nothing.
spec fn contribution(cells: Seq<Seq<bool>>, x: int, y: int, i: int, j: int) -> int {
    if i == 0 && j == 0 {
        0
    } else {
        live(cells, x + i, y + j)
    }
}

/// The count over the offsets `(i, -1)` up to, but without, `(i, j)`.
spec fn counted_in_column(cells: Seq<Seq<bool>>, x: int, y: int, i: int, j: int) -> int {
    (if -1 < j { contribution(cells, x, y, i, -1) } else { 0 })
        + (if 0 < j { contribution(cells, x, y, i, 0) } else { 0 })
        + (if 1 < j { contribution(cells, x, y, i, 1) } else { 0 })
}

/// The count over the columns at offsets `-1` up to, but without, `i`.
spec fn counted_before(cells: Seq<Seq<bool>>, x: int, y: int, i: int) -> int {
    (if -1 < i { counted_in_column(cells, x, y, -1, 2) } else { 0 })
        + (if 0 < i { counted_in_column(cells, x, y, 0, 2) } else { 0 })
        + (if 1 < i { counted_in_column(cells, x, y, 1, 2) } else { 0 })
}

/// The number of live cells among the eight around `cell_index`, which may
/// itself lie anywhere, inside the grid or not.
pub fn get_num_of_living_neighbors(grid: &Grid, cell_index: IVec2) -> (living: i32)
    requires
        grid.wf(),
    ensures
        living == neighbor_count(grid@, cell_index.x as int, cell_index.y as int),
        0 <= living <= 8,
{
    let ghost cells: Seq<Seq<bool>> = grid@;
    let ghost x: int = cell_index.x as int;
    let ghost y: int = cell_index.y as int;
    let mut living: i32 = 0;
    let mut i: i64 = -1;
    while i <= 1
        invariant
            grid.wf(),
            cells == grid@,
            x == cell_index.x,
            y == cell_index.y,
            -1 <= i <= 2,
            living == counted_before(cells, x, y, i as int),
            0 <= living <= 3 * (i + 1),
        decreases 2 - i,
    {
        let mut j: i64 = -1;
        while j <= 1
            invariant
                grid.wf(),
                cells == grid@,
                x == cell_index.x,
                y == cell_index.y,
                -1 <= i <= 1,
                -1 <= j <= 2,
                living == counted_before(cells, x, y, i as int) + counted_in_column(
                    cells,
                    x,
                    y,
                    i as int,
                    j as int,
                ),
                0 <= living <= 3 * (i + 1) + (j + 1),
            decreases 2 - j,
        {
            if !(i == 0 && j == 0) {
                let next_x: i64 = cell_index.x as i64 + i;
                let next_y: i64 = cell_index.y as i64 + j;
                if grid.is_alive(next_x, next_y) {
                    living += 1;
                }
            }
            j += 1;
        }
        i += 1;
    }
    living
}

/// Whether the cell at `cell_index` is alive in the next generation;
/// `OutOfBounds` when the grid has no such cell.
pub fn get_cell_next_state(grid: &Grid, cell_index: IVec2) -> (result: Result<bool, SimError>)
    requires
        grid.wf(),
    ensures
        grid.in_bounds(cell_index.x as int, cell_index.y as int) ==> result == Ok::<
            bool,
            SimError,
        >(next_state(grid@, cell_index.x as int, cell_index.y as int)),
        !grid.in_bounds(cell_index.x as int, cell_index.y as int) ==> result == Err::<
            bool,
            SimError,
        >(SimError::OutOfBounds),
{
    match grid.get(cell_index.x, cell_index.y) {
        Err(e) => Err(e),
        Ok(alive) => {
            let num_living: i32 = get_num_of_living_neighbors(grid, cell_index);
            Ok(cell_rule(alive, num_living))
        },
    }
}

/// The rule of the game for one cell that is `alive` or not and has
/// `num_living` live neighbours.
pub fn cell_rule(alive: bool, num_living: i32) -> (next: bool)
    ensures
        next == rule(alive, num_living as int),
{
    if alive {
        num_living == 2 || num_living == 3
    } else {
        num_living == 3
    }
}

/// The states of all cells in the next generation, column by column, each
/// computed from `grid` as it stands.
pub fn get_grid_next_state(grid: &Grid) -> (states: Vec<Vec<bool>>)
    requires
        grid.wf(),
    ensures
        columns(states@) == next_cells(grid@),
        rectangular(columns(states@), grid.spec_width(), grid.spec_height()),
{
    let width: i32 = grid.width();
    let height: i32 = grid.height();
    let mut states: Vec<Vec<bool>> = Vec::new();
    let mut x: i32 = 0;
    while x < width
        invariant
            grid.wf(),
            width == grid.spec_width(),
            height == grid.spec_height(),
            0 <= x <= width,
            states@.len() == x,
            forall|i: int| 0 <= i < x ==> (#[trigger] states@[i])@ == next_cells(grid@)[i],
        decreases width - x,
    {
        let mut column: Vec<bool> = Vec::new();
        let mut y: i32 = 0;
        while y < height
            invariant
                grid.wf(),
                width == grid.spec_width(),
                height == grid.spec_height(),
                0 <= x < width,
                0 <= y <= height,
                column@.len() == y,
                forall|k: int| 0 <= k < y ==> column@[k] == next_state(grid@, x as int, k),
            decreases height - y,
        {
            let alive: bool = grid.cell(x, y);
            let num_living: i32 = get_num_of_living_neighbors(grid, IVec2::new(x, y));
            column.push(cell_rule(alive, num_living));
            y += 1;
        }
        assert(column@ =~= next_cells(grid@)[x as int]);
        states.push(column);
        x += 1;
    }
    assert(columns(states@) =~= next_cells(grid@));
    states
}

/// The generation after `grid`, as a grid of its own with the same extent.
pub fn next_generation(grid: &Grid) -> (next: Grid)
    requires
        grid.wf(),
    ensures
        next.wf(),
        next.spec_width() == grid.spec_width(),
        next.spec_height() == grid.spec_height(),
        next@ == next_cells(grid@),
{
    let states: Vec<Vec<bool>> = get_grid_next_state(grid);
    Grid::from_columns(grid.width(), grid.height(), states)
}

/// Replaces `grid` by the generation after it. The new states are all
/// computed before the first cell is overwritten.
pub fn update_cells(grid: &mut Grid)
    requires
        old(grid).wf(),
    ensures
        final(grid).wf(),
        final(grid).spec_width() == old(grid).spec_width(),
        final(grid).spec_height() == old(grid).spec_height(),
        final(grid)@ == next_cells(old(grid)@),
{
    let new_states: Vec<Vec<bool>> = get_grid_next_state(grid);
    let width: i32 = grid.width();
    let height: i32 = grid.height();
    let ghost target: Seq<Seq<bool>> = next_cells(old(grid)@);
    let mut x: i32 = 0;
    while x < width
        invariant
            grid.wf(),
            width == grid.spec_width() == old(grid).spec_width(),
            height == grid.spec_height() == old(grid).spec_height(),
            0 <= x <= width,
            columns(new_states@) == target,
            rectangular(target, width as int, height as int),
            forall|i: int| 0 <= i < x ==> (#[trigger] grid@[i]) == target[i],
        decreases width - x,
    {
        let mut y: i32 = 0;
        while y < height
            invariant
                grid.wf(),
                width == grid.spec_width() == old(grid).spec_width(),
                height == grid.spec_height() == old(grid).spec_height(),
                0 <= x < width,
                0 <= y <= height,
                columns(new_states@) == target,
                rectangular(target, width as int, height as int),
                forall|i: int| 0 <= i < x ==> (#[trigger] grid@[i]) == target[i],
                forall|k: int| 0 <= k < y ==> grid@[x as int][k] == target[x as int][k],
            decreases height - y,
        {
            assert(target[x as int] == new_states@[x as int]@);
            assert(target[x as int].len() == height);
            let state: bool = new_states[x as usize][y as usize];
            grid.put(x, y, state);
            y += 1;
        }
        assert(grid@[x as int] =~= target[x as int]);
        x += 1;
    }
    assert(grid@ =~= target);
}

} // verus!
