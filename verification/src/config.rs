use crate::color::Rgba;
use crate::error::SimError;
use crate::grid::{dead_cells, Grid};
use glam::IVec2;
use vstd::prelude::*;

verus! {

/// What a simulation is set up from: the window and the cells drawn in it, in
/// pixels, the rate of the simulation, in generations per second, and the
/// colours of the picture.
#[derive(Clone, Copy, Debug, PartialEq, Eq)]
pub struct Config {
    window_width: i32,
    window_height: i32,
    cell_size: i32,
    cell_padding: i32,
    ticks_per_second: i32,
    cell_on_color: Rgba,
    cell_off_color: Rgba,
    background_color: Rgba,
}

/// The colour of a live cell unless another is chosen: white.
pub open spec fn default_on_color() -> Rgba {
    Rgba { r: 255, g: 255, b: 255, a: 255 }
}

/// The colour of a dead cell unless another is chosen: black.
pub open spec fn default_off_color() -> Rgba {
    Rgba { r: 0, g: 0, b: 0, a: 255 }
}

/// The colour of the background unless another is chosen: grey.
pub open spec fn default_background_color() -> Rgba {
    Rgba { r: 128, g: 128, b: 128, a: 255 }
}

/// Whether a configuration of these values is accepted: the window, the
/// cells and the rate must all be positive.
pub open spec fn valid_configuration(
    window_width: int,
    window_height: int,
    cell_size: int,
    ticks_per_second: int,
) -> bool {
    window_width > 0 && window_height > 0 && cell_size > 0 && ticks_per_second > 0
}

impl Config {
    /// The width of the window.
    pub closed spec fn spec_window_width(&self) -> int {
        self.window_width as int
    }

    /// The height of the window.
    pub closed spec fn spec_window_height(&self) -> int {
        self.window_height as int
    }

    /// The side of the square that a cell takes up in the window.
    pub closed spec fn spec_cell_size(&self) -> int {
        self.cell_size as int
    }

    /// The part of that side that is left blank.
    pub closed spec fn spec_cell_padding(&self) -> int {
        self.cell_padding as int
    }

    /// The generations per second.
    pub closed spec fn spec_ticks_per_second(&self) -> int {
        self.ticks_per_second as int
    }

    /// The colour of a live cell.
    pub closed spec fn spec_cell_on_color(&self) -> Rgba {
        self.cell_on_color
    }

    /// The colour of a dead cell.
    pub closed spec fn spec_cell_off_color(&self) -> Rgba {
        self.cell_off_color
    }

    /// The colour of the window where no cell is drawn.
    pub closed spec fn spec_background_color(&self) -> Rgba {
        self.background_color
    }

    /// The colour in which a cell is drawn.
    pub open spec fn color_of(&self, alive: bool) -> Rgba {
        if alive {
            self.spec_cell_on_color()
        } else {
            self.spec_cell_off_color()
        }
    }

    /// The window, the cells and the rate are positive.
    pub open spec fn wf(&self) -> bool {
        valid_configuration(
            self.spec_window_width(),
            self.spec_window_height(),
            self.spec_cell_size(),
            self.spec_ticks_per_second(),
        )
    }

    /// The columns of the grid that fills the window: the whole cells that
    /// fit into its width.
    pub open spec fn grid_width(&self) -> int {
        self.spec_window_width() / self.spec_cell_size()
    }

    /// The cells in each column of that grid: the whole cells that fit into
    /// the window's height.
    pub open spec fn grid_height(&self) -> int {
        self.spec_window_height() / self.spec_cell_size()
    }

    /// Every field holds an `i32`.
    pub proof fn lemma_fields_in_range(self)
        ensures
            i32::MIN <= self.spec_window_width() <= i32::MAX,
            i32::MIN <= self.spec_window_height() <= i32::MAX,
            i32::MIN <= self.spec_cell_size() <= i32::MAX,
            i32::MIN <= self.spec_cell_padding() <= i32::MAX,
            i32::MIN <= self.spec_ticks_per_second() <= i32::MAX,
    {
    }

    /// A configuration of the given values, with white for live cells, black
    /// for dead ones and a grey background; `InvalidConfiguration` unless the
    /// window's width and height, the cell size and the rate are all
    /// positive.
    pub fn new(
        window_width: i32,
        window_height: i32,
        cell_size: i32,
        cell_padding: i32,
        ticks_per_second: i32,
    ) -> (result: Result<Config, SimError>)
        ensures
            valid_configuration(
                window_width as int,
                window_height as int,
                cell_size as int,
                ticks_per_second as int,
            ) ==> result.is_ok(),
            !valid_configuration(
                window_width as int,
                window_height as int,
                cell_size as int,
                ticks_per_second as int,
            ) ==> result == Err::<Config, SimError>(SimError::InvalidConfiguration),
            result matches Ok(config) ==> {
                &&& config.wf()
                &&& config.spec_window_width() == window_width
                &&& config.spec_window_height() == window_height
                &&& config.spec_cell_size() == cell_size
                &&& config.spec_cell_padding() == cell_padding
                &&& config.spec_ticks_per_second() == ticks_per_second
                &&& config.spec_cell_on_color() == default_on_color()
                &&& config.spec_cell_off_color() == default_off_color()
                &&& config.spec_background_color() == default_background_color()
            },
    {
        if window_width <= 0 || window_height <= 0 || cell_size <= 0 || ticks_per_second <= 0 {
            return Err(SimError::InvalidConfiguration);
        }
        Ok(
            Config {
                window_width,
                window_height,
                cell_size,
                cell_padding,
                ticks_per_second,
                cell_on_color: Rgba::opaque(255, 255, 255),
                cell_off_color: Rgba::opaque(0, 0, 0),
                background_color: Rgba::opaque(128, 128, 128),
            },
        )
    }

    /// The same configuration with other colours.
    pub fn with_colors(self, cell_on: Rgba, cell_off: Rgba, background: Rgba) -> (config: Config)
        ensures
            config.wf() == self.wf(),
            config.spec_window_width() == self.spec_window_width(),
            config.spec_window_height() == self.spec_window_height(),
            config.spec_cell_size() == self.spec_cell_size(),
            config.spec_cell_padding() == self.spec_cell_padding(),
            config.spec_ticks_per_second() == self.spec_ticks_per_second(),
            config.spec_cell_on_color() == cell_on,
            config.spec_cell_off_color() == cell_off,
            config.spec_background_color() == background,
    {
        Config {
            window_width: self.window_width,
            window_height: self.window_height,
            cell_size: self.cell_size,
            cell_padding: self.cell_padding,
            ticks_per_second: self.ticks_per_second,
            cell_on_color: cell_on,
            cell_off_color: cell_off,
            background_color: background,
        }
    }

    /// The width of the window.
    pub fn window_width(&self) -> (width: i32)
        ensures
            width == self.spec_window_width(),
    {
        self.window_width
    }

    /// The height of the window.
    pub fn window_height(&self) -> (height: i32)
        ensures
            height == self.spec_window_height(),
    {
        self.window_height
    }

    /// The side of the square that a cell takes up in the window.
    pub fn cell_size(&self) -> (size: i32)
        ensures
            size == self.spec_cell_size(),
    {
        self.cell_size
    }

    /// The part of that side that is left blank.
    pub fn cell_padding(&self) -> (padding: i32)
        ensures
            padding == self.spec_cell_padding(),
    {
        self.cell_padding
    }

    /// The generations per second.
    pub fn ticks_per_second(&self) -> (rate: i32)
        ensures
            rate == self.spec_ticks_per_second(),
    {
        self.ticks_per_second
    }

    /// The colour of a live cell.
    pub fn cell_on_color(&self) -> (color: Rgba)
        ensures
            color == self.spec_cell_on_color(),
    {
        self.cell_on_color
    }

    /// The colour of a dead cell.
    pub fn cell_off_color(&self) -> (color: Rgba)
        ensures
            color == self.spec_cell_off_color(),
    {
        self.cell_off_color
    }

    /// The colour of the window where no cell is drawn.
    pub fn background_color(&self) -> (color: Rgba)
        ensures
            color == self.spec_background_color(),
    {
        self.background_color
    }

    /// The extent of the grid that fills the window: the window's width and
    /// height divided by the cell size, rounded down.
    pub fn get_grid_size(&self) -> (size: IVec2)
        requires
            self.wf(),
        ensures
            size.x == self.grid_width(),
            size.y == self.grid_height(),
            0 <= size.x <= self.spec_window_width(),
            0 <= size.y <= self.spec_window_height(),
    {
        let x: i32 = self.window_width / self.cell_size;
        let y: i32 = self.window_height / self.cell_size;
        IVec2::new(x, y)
    }

    /// The all-dead grid that fills the window; `InvalidConfiguration` when
    /// not even one cell fits into the window.
    pub fn fill_cells_grid(&self) -> (result: Result<Grid, SimError>)
        requires
            self.wf(),
        ensures
            self.grid_width() > 0 && self.grid_height() > 0 ==> result.is_ok(),
            !(self.grid_width() > 0 && self.grid_height() > 0) ==> result == Err::<
                Grid,
                SimError,
            >(SimError::InvalidConfiguration),
            result matches Ok(grid) ==> {
                &&& grid.wf()
                &&& grid.spec_width() == self.grid_width()
                &&& grid.spec_height() == self.grid_height()
                &&& grid@ == dead_cells(self.grid_width(), self.grid_height())
            },
    {
        let size: IVec2 = self.get_grid_size();
        Grid::create(size.x, size.y)
    }
}

impl Default for Config {
    /// A window of 500 by 500 pixels, cells of 30 pixels with 2 of them left
    /// blank, two generations per second, and white cells that die to black
    /// on a grey background.
    fn default() -> (config: Config)
        ensures
            config.wf(),
            config.spec_window_width() == 500,
            config.spec_window_height() == 500,
            config.spec_cell_size() == 30,
            config.spec_cell_padding() == 2,
            config.spec_ticks_per_second() == 2,
            config.spec_cell_on_color() == default_on_color(),
            config.spec_cell_off_color() == default_off_color(),
            config.spec_background_color() == default_background_color(),
    {
        Config {
            window_width: 500,
            window_height: 500,
            cell_size: 30,
            cell_padding: 2,
            ticks_per_second: 2,
            cell_on_color: Rgba::opaque(255, 255, 255),
            cell_off_color: Rgba::opaque(0, 0, 0),
            background_color: Rgba::opaque(128, 128, 128),
        }
    }
}

} // verus!
