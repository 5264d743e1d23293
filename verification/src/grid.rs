use crate::error::SimError;
use glam::IVec2;
use vstd::prelude::*;

verus! {

/// Whether `cells`, a matrix stored column by column, has a live cell at
/// `(x, y)`. A coordinate outside the matrix has no cell, hence no live one.
pub open spec fn alive_at(cells: Seq<Seq<bool>>, x: int, y: int) -> bool {
    0 <= x < cells.len() && 0 <= y < cells[x].len() && cells[x][y]
}

/// `cells` has `width` columns of `height` cells each.
pub open spec fn rectangular(cells: Seq<Seq<bool>>, width: int, height: int) -> bool {
    &&& cells.len() == width
    &&& forall|x: int| 0 <= x < width ==> (#[trigger] cells[x]).len() == height
}

/// No cell of `cells` is alive.
pub open spec fn all_dead(cells: Seq<Seq<bool>>) -> bool {
    forall|x: int, y: int| !alive_at(cells, x, y)
}

/// The matrix of `width` by `height` dead cells.
pub open spec fn dead_cells(width: int, height: int) -> Seq<Seq<bool>> {
    Seq::new(width as nat, |x: int| Seq::new(height as nat, |y: int| false))
}

/// `cells` with the cell at `(x, y)` replaced by `alive`.
pub open spec fn with_cell(cells: Seq<Seq<bool>>, x: int, y: int, alive: bool) -> Seq<Seq<bool>> {
    cells.update(x, cells[x].update(y, alive))
}

/// The views of the columns of a stored matrix.
pub open spec fn columns(cells: Seq<Vec<bool>>) -> Seq<Seq<bool>> {
    Seq::new(cells.len(), |x: int| cells[x]@)
}

/// A rectangle of cells, each dead or alive, whose extent is fixed when it is
/// created. Its view is the matrix of its cells, column by column: `grid@[x][y]`
/// is the cell at `(x, y)`.
#[derive(Clone, Debug, PartialEq, Eq)]
pub struct Grid {
    width: i32,
    height: i32,
    cells: Vec<Vec<bool>>,
}

impl View for Grid {
    type V = Seq<Seq<bool>>;

    closed spec fn view(&self) -> Seq<Seq<bool>> {
        columns(self.cells@)
    }
}

impl Grid {
    /// The number of columns.
    pub closed spec fn spec_width(&self) -> int {
        self.width as int
    }

    /// The number of cells in each column.
    pub closed spec fn spec_height(&self) -> int {
        self.height as int
    }

    /// The grid has at least one cell, and its matrix has the extent that the
    /// grid records.
    pub open spec fn wf(&self) -> bool {
        &&& 0 < self.spec_width() <= i32::MAX
        &&& 0 < self.spec_height() <= i32::MAX
        &&& rectangular(self@, self.spec_width(), self.spec_height())
    }

    /// `(x, y)` names a cell of the grid.
    pub open spec fn in_bounds(&self, x: int, y: int) -> bool {
        0 <= x < self.spec_width() && 0 <= y < self.spec_height()
    }

    /// An all-dead grid of `width` by `height` cells; `InvalidConfiguration`
    /// unless both are positive.
    pub fn create(width: i32, height: i32) -> (result: Result<Grid, SimError>)
        ensures
            width > 0 && height > 0 ==> result.is_ok(),
            !(width > 0 && height > 0) ==> result == Err::<Grid, SimError>(
                SimError::InvalidConfiguration,
            ),
            result matches Ok(grid) ==> {
                &&& grid.wf()
                &&& grid.spec_width() == width
                &&& grid.spec_height() == height
                &&& grid@ == dead_cells(width as int, height as int)
                &&& all_dead(grid@)
            },
    {
        if width <= 0 || height <= 0 {
            return Err(SimError::InvalidConfiguration);
        }
        let mut cells: Vec<Vec<bool>> = Vec::new();
        let mut x: i32 = 0;
        while x < width
            invariant
                0 <= x <= width,
                0 < height,
                cells@.len() == x,
                forall|i: int| 0 <= i < x ==> (#[trigger] cells@[i])@ == Seq::new(
                    height as nat,
                    |y: int| false,
                ),
            decreases width - x,
        {
            let mut column: Vec<bool> = Vec::new();
            let mut y: i32 = 0;
            while y < height
                invariant
                    0 <= y <= height,
                    column@.len() == y,
                    forall|k: int| 0 <= k < y ==> !column@[k],
                decreases height - y,
            {
                column.push(false);
                y += 1;
            }
            assert(column@ =~= Seq::new(height as nat, |y: int| false));
            cells.push(column);
            x += 1;
        }
        assert(columns(cells@) =~= dead_cells(width as int, height as int));
        Ok(Grid { width, height, cells })
    }

    /// The number of columns.
    pub fn width(&self) -> (w: i32)
        ensures
            w == self.spec_width(),
    {
        self.width
    }

    /// The number of cells in each column.
    pub fn height(&self) -> (h: i32)
        ensures
            h == self.spec_height(),
    {
        self.height
    }

    /// The extent of the grid: columns in `x`, cells per column in `y`.
    pub fn size(&self) -> (size: IVec2)
        ensures
            size.x == self.spec_width(),
            size.y == self.spec_height(),
    {
        IVec2::new(self.width, self.height)
    }

    /// Whether the cell at `(x, y)` is alive; `OutOfBounds` when the grid has
    /// no such cell.
    pub fn get(&self, x: i32, y: i32) -> (result: Result<bool, SimError>)
        requires
            self.wf(),
        ensures
            self.in_bounds(x as int, y as int) ==> result == Ok::<bool, SimError>(
                self@[x as int][y as int],
            ),
            !self.in_bounds(x as int, y as int) ==> result == Err::<bool, SimError>(
                SimError::OutOfBounds,
            ),
    {
        if x < 0 || y < 0 || x >= self.width || y >= self.height {
            return Err(SimError::OutOfBounds);
        }
        Ok(self.cell(x, y))
    }

    /// Makes the cell at `(x, y)` dead or alive and leaves every other cell
    /// as it was; `OutOfBounds`, and no change, when the grid has no such cell.
    pub fn set(&mut self, x: i32, y: i32, alive: bool) -> (result: Result<(), SimError>)
        requires
            old(self).wf(),
        ensures
            final(self).wf(),
            final(self).spec_width() == old(self).spec_width(),
            final(self).spec_height() == old(self).spec_height(),
            old(self).in_bounds(x as int, y as int) ==> result.is_ok() && final(self)@
                == with_cell(old(self)@, x as int, y as int, alive),
            !old(self).in_bounds(x as int, y as int) ==> result == Err::<(), SimError>(
                SimError::OutOfBounds,
            ) && final(self)@ == old(self)@,
    {
        if x < 0 || y < 0 || x >= self.width || y >= self.height {
            return Err(SimError::OutOfBounds);
        }
        self.put(x, y, alive);
        Ok(())
    }

    /// Whether there is a live cell at `(x, y)`: a coordinate outside the
    /// grid counts as dead.
    pub fn is_alive(&self, x: i64, y: i64) -> (alive: bool)
        requires
            self.wf(),
        ensures
            alive == alive_at(self@, x as int, y as int),
    {
        if x < 0 || y < 0 || x >= self.width as i64 || y >= self.height as i64 {
            return false;
        }
        self.cell(x as i32, y as i32)
    }

    /// The grid that holds `cells`, a matrix of `width` columns of `height`
    /// cells each.
    pub(crate) fn from_columns(width: i32, height: i32, cells: Vec<Vec<bool>>) -> (grid: Grid)
        requires
            0 < width,
            0 < height,
            rectangular(columns(cells@), width as int, height as int),
        ensures
            grid.wf(),
            grid.spec_width() == width,
            grid.spec_height() == height,
            grid@ == columns(cells@),
    {
        Grid { width, height, cells }
    }

    /// The cell at `(x, y)` of the grid.
    pub(crate) fn cell(&self, x: i32, y: i32) -> (alive: bool)
        requires
            self.wf(),
            self.in_bounds(x as int, y as int),
        ensures
            alive == self@[x as int][y as int],
            alive == alive_at(self@, x as int, y as int),
    {
        assert(self@[x as int] == self.cells@[x as int]@);
        self.cells[x as usize][y as usize]
    }

    /// Overwrites the cell at `(x, y)` of the grid.
    pub(crate) fn put(&mut self, x: i32, y: i32, alive: bool)
        requires
            old(self).wf(),
            old(self).in_bounds(x as int, y as int),
        ensures
            final(self).wf(),
            final(self).spec_width() == old(self).spec_width(),
            final(self).spec_height() == old(self).spec_height(),
            final(self)@ == with_cell(old(self)@, x as int, y as int, alive),
    {
        assert(self@[x as int] == self.cells@[x as int]@);
        self.cells[x as usize][y as usize] = alive;
        assert(self@ =~= with_cell(old(self)@, x as int, y as int, alive));
    }
}

} // verus!
