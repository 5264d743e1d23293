use crate::color::Rgba;
use crate::config::Config;
use crate::grid::Grid;
use glam::IVec2;
use vstd::prelude::*;

verus! {

/// One square to fill: where its top left corner lies in the window, how
/// large it is, whether it shows a live cell or a dead one, and in which
/// colour.
#[derive(Clone, Copy, Debug, PartialEq, Eq)]
pub struct CellRect {
    pub x: i64,
    pub y: i64,
    pub width: i64,
    pub height: i64,
    pub alive: bool,
    pub color: Rgba,
}

/// The square that shows the cell at `(x, y)`: the cell takes up a square of
/// the configured size, the padding is left blank at its left and top, and
/// the rest is filled, in the colour for live cells or the one for dead cells.
pub open spec fn drawn(config: Config, x: int, y: int, alive: bool) -> CellRect {
    CellRect {
        x: (x * config.spec_cell_size() + config.spec_cell_padding()) as i64,
        y: (y * config.spec_cell_size() + config.spec_cell_padding()) as i64,
        width: (config.spec_cell_size() - config.spec_cell_padding()) as i64,
        height: (config.spec_cell_size() - config.spec_cell_padding()) as i64,
        alive,
        color: config.color_of(alive),
    }
}

/// The place in the list of squares of the cell at `(x, y)` of a grid whose
/// columns hold `height` cells: the cells come column by column.
pub open spec fn draw_index(height: int, x: int, y: int) -> int {
    x * height + y
}

/// A square's position and size fit the type that holds them, whatever the
/// cell and the configuration.
pub proof fn lemma_drawn_in_range(config: Config, x: int, y: int, alive: bool)
    requires
        i32::MIN <= x <= i32::MAX,
        i32::MIN <= y <= i32::MAX,
    ensures
        drawn(config, x, y, alive).x == x * config.spec_cell_size() + config.spec_cell_padding(),
        drawn(config, x, y, alive).y == y * config.spec_cell_size() + config.spec_cell_padding(),
        drawn(config, x, y, alive).width == config.spec_cell_size() - config.spec_cell_padding(),
        drawn(config, x, y, alive).height == config.spec_cell_size() - config.spec_cell_padding(),
        drawn(config, x, y, alive).alive == alive,
        drawn(config, x, y, alive).color == config.color_of(alive),
{
    let size = config.spec_cell_size();
    lemma_size_is_i32(config);
    assert(-0x4000_0000_0000_0000 <= x * size <= 0x4000_0000_0000_0000) by (nonlinear_arith)
        requires
            -0x8000_0000 <= x <= 0x7fff_ffff,
            -0x8000_0000 <= size <= 0x7fff_ffff,
    ;
    assert(-0x4000_0000_0000_0000 <= y * size <= 0x4000_0000_0000_0000) by (nonlinear_arith)
        requires
            -0x8000_0000 <= y <= 0x7fff_ffff,
            -0x8000_0000 <= size <= 0x7fff_ffff,
    ;
}

/// The cell size and the padding of a configuration are `i32` values.
proof fn lemma_size_is_i32(config: Config)
    ensures
        i32::MIN <= config.spec_cell_size() <= i32::MAX,
        i32::MIN <= config.spec_cell_padding() <= i32::MAX,
{
    config.lemma_fields_in_range();
}

/// The square that shows the cell at `cell`, which is alive or not.
pub fn cell_rect(config: &Config, cell: IVec2, alive: bool) -> (rect: CellRect)
    ensures
        rect == drawn(*config, cell.x as int, cell.y as int, alive),
{
    proof {
        lemma_drawn_in_range(*config, cell.x as int, cell.y as int, alive);
        lemma_size_is_i32(*config);
    }
    let size: i64 = config.cell_size() as i64;
    let padding: i64 = config.cell_padding() as i64;
    let column: i64 = cell.x as i64;
    let row: i64 = cell.y as i64;
    assert(-0x4000_0000_0000_0000 <= column * size <= 0x4000_0000_0000_0000) by (nonlinear_arith)
        requires
            -0x8000_0000 <= column <= 0x7fff_ffff,
            -0x8000_0000 <= size <= 0x7fff_ffff,
    ;
    assert(-0x4000_0000_0000_0000 <= row * size <= 0x4000_0000_0000_0000) by (nonlinear_arith)
        requires
            -0x8000_0000 <= row <= 0x7fff_ffff,
            -0x8000_0000 <= size <= 0x7fff_ffff,
    ;
    let color: Rgba = if alive {
        config.cell_on_color()
    } else {
        config.cell_off_color()
    };
    CellRect {
        x: column * size + padding,
        y: row * size + padding,
        width: size - padding,
        height: size - padding,
        alive,
        color,
    }
}

/// The squares to fill for one picture of `grid`: one for each cell, column
/// by column.
pub fn draw_cells(grid: &Grid, config: &Config) -> (rects: Vec<CellRect>)
    requires
        grid.wf(),
    ensures
        rects@.len() == grid.spec_width() * grid.spec_height(),
        forall|x: int, y: int|
            grid.in_bounds(x, y) ==> 0 <= #[trigger] draw_index(grid.spec_height(), x, y)
                < rects@.len() && rects@[draw_index(grid.spec_height(), x, y)] == drawn(
                *config,
                x,
                y,
                grid@[x][y],
            ),
{
    let width: i32 = grid.width();
    let height: i32 = grid.height();
    let mut rects: Vec<CellRect> = Vec::new();
    let mut x: i32 = 0;
    while x < width
        invariant
            grid.wf(),
            width == grid.spec_width(),
            height == grid.spec_height(),
            0 <= x <= width,
            rects@.len() == x * height,
            forall|a: int, b: int|
                0 <= a < x && 0 <= b < height ==> 0 <= #[trigger] draw_index(height as int, a, b)
                    < rects@.len() && rects@[draw_index(height as int, a, b)] == drawn(
                    *config,
                    a,
                    b,
                    grid@[a][b],
                ),
        decreases width - x,
    {
        let mut y: i32 = 0;
        while y < height
            invariant
                grid.wf(),
                width == grid.spec_width(),
                height == grid.spec_height(),
                0 <= x < width,
                0 <= y <= height,
                rects@.len() == x * height + y,
                forall|a: int, b: int|
                    0 <= a < x && 0 <= b < height ==> 0 <= #[trigger] draw_index(
                        height as int,
                        a,
                        b,
                    ) < x * height && rects@[draw_index(height as int, a, b)] == drawn(
                        *config,
                        a,
                        b,
                        grid@[a][b],
                    ),
                forall|b: int|
                    0 <= b < y ==> rects@[#[trigger] draw_index(height as int, x as int, b)]
                        == drawn(*config, x as int, b, grid@[x as int][b]),
            decreases height - y,
        {
            let alive: bool = grid.cell(x, y);
            rects.push(cell_rect(config, IVec2::new(x, y), alive));
            y += 1;
        }
        proof {
            assert((x + 1) * height == x * height + height) by (nonlinear_arith);
        }
        x += 1;
    }
    rects
}

} // verus!
