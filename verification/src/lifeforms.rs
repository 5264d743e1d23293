use crate::grid::{alive_at, dead_cells, rectangular};
use crate::pattern::{blinker_offsets, covers, glider_offsets, stamped};
use crate::rules::{generations, next_cells, next_state};
use vstd::prelude::*;

verus! {

/// The offsets of the blinker lying flat: three cells in a row, around the
/// anchor.
pub open spec fn flat_blinker_offsets() -> Seq<(int, int)> {
    seq![(-1, 0), (0, 0), (1, 0)]
}

/// The all-dead matrix of `width` by `height` cells with `offsets` laid on it
/// at `anchor`.
pub open spec fn alone(
    width: int,
    height: int,
    offsets: Seq<(int, int)>,
    anchor: (int, int),
) -> Seq<Seq<bool>> {
    stamped(dead_cells(width, height), offsets, anchor)
}

/// Whether the blinker, in its upright phase 0 or its flat phase 1, has a
/// cell at the offset `(dx, dy)` from its centre.
spec fn blinker_phase(phase: int, dx: int, dy: int) -> bool {
    if phase == 0 {
        dx == 0 && -1 <= dy <= 1
    } else {
        dy == 0 && -1 <= dx <= 1
    }
}

/// Whether the glider, `phase` generations after it was laid down, has a cell
/// at the offset `(dx, dy)` from its anchor.
spec fn glider_phase(phase: int, dx: int, dy: int) -> bool {
    if phase == 0 {
        (dx == 0 && dy == 0) || (dx == 1 && dy == 1) || (dy == 2 && -1 <= dx <= 1)
    } else if phase == 1 {
        (dx == -1 && dy == 1) || (dx == 1 && dy == 1) || (dx == 0 && dy == 2) || (dx == 1 && dy
            == 2) || (dx == 0 && dy == 3)
    } else if phase == 2 {
        (dx == 1 && dy == 1) || (dx == -1 && dy == 2) || (dx == 1 && dy == 2) || (dx == 0 && dy
            == 3) || (dx == 1 && dy == 3)
    } else if phase == 3 {
        (dx == 0 && dy == 1) || (dx == 1 && dy == 2) || (dx == 2 && dy == 2) || (dx == 0 && dy
            == 3) || (dx == 1 && dy == 3)
    } else {
        (dx == 1 && dy == 1) || (dx == 2 && dy == 2) || (dy == 3 && 0 <= dx <= 2)
    }
}

/// The live cells of `cells` are those of the blinker in `phase` around
/// `(cx, cy)`, and no others.
spec fn shows_blinker(cells: Seq<Seq<bool>>, phase: int, cx: int, cy: int) -> bool {
    forall|x: int, y: int| #[trigger]
        alive_at(cells, x, y) <==> blinker_phase(phase, x - cx, y - cy)
}

/// The live cells of `cells` are those of the glider in `phase` at `(ax, ay)`,
/// and no others.
spec fn shows_glider(cells: Seq<Seq<bool>>, phase: int, ax: int, ay: int) -> bool {
    forall|x: int, y: int| #[trigger] alive_at(cells, x, y) <==> glider_phase(phase, x - ax, y - ay)
}

/// A cell of the next generation is alive where the matrix has a cell and
/// the rule says so.
proof fn lemma_next_alive(cells: Seq<Seq<bool>>, width: int, height: int, x: int, y: int)
    requires
        rectangular(cells, width, height),
    ensures
        alive_at(next_cells(cells), x, y) <==> 0 <= x < width && 0 <= y < height && next_state(
            cells,
            x,
            y,
        ),
{
}

/// A matrix is the pattern alone exactly when its live cells are the cells
/// that the pattern covers.
proof fn lemma_alone(
    cells: Seq<Seq<bool>>,
    width: int,
    height: int,
    offsets: Seq<(int, int)>,
    anchor: (int, int),
)
    requires
        0 <= width,
        0 <= height,
        rectangular(cells, width, height),
    ensures
        cells == alone(width, height, offsets, anchor) <==> (forall|x: int, y: int|
            0 <= x < width && 0 <= y < height ==> (#[trigger] alive_at(cells, x, y) <==> covers(
                offsets,
                anchor,
                x,
                y,
            ))),
{
    let other = alone(width, height, offsets, anchor);
    assert(rectangular(other, width, height));
    if cells == other {
        assert forall|x: int, y: int| 0 <= x < width && 0 <= y < height implies (
        #[trigger] alive_at(cells, x, y) <==> covers(offsets, anchor, x, y)) by {
            assert(other[x][y] == (dead_cells(width, height)[x][y] || covers(
                offsets,
                anchor,
                x,
                y,
            )));
        }
    }
    if forall|x: int, y: int|
        0 <= x < width && 0 <= y < height ==> (#[trigger] alive_at(cells, x, y) <==> covers(
            offsets,
            anchor,
            x,
            y,
        )) {
        assert forall|x: int, y: int| 0 <= x < width && 0 <= y < height implies cells[x][y]
            == other[x][y] by {
            assert(alive_at(cells, x, y) == cells[x][y]);
        }
        assert(cells =~~= other);
    }
}

/// What the upright blinker covers.
proof fn lemma_blinker_cover(phase: int, cx: int, cy: int, x: int, y: int)
    requires
        phase == 0 || phase == 1,
    ensures
        covers(
            if phase == 0 {
                blinker_offsets()
            } else {
                flat_blinker_offsets()
            },
            (cx, cy),
            x,
            y,
        ) <==> blinker_phase(phase, x - cx, y - cy),
{
    let offsets = if phase == 0 {
        blinker_offsets()
    } else {
        flat_blinker_offsets()
    };
    if blinker_phase(phase, x - cx, y - cy) {
        let k = if phase == 0 {
            y - cy + 1
        } else {
            x - cx + 1
        };
        assert(cx + offsets[k].0 == x && cy + offsets[k].1 == y);
    }
}

/// What the glider covers.
proof fn lemma_glider_cover(ax: int, ay: int, x: int, y: int)
    ensures
        covers(glider_offsets(), (ax, ay), x, y) <==> glider_phase(0, x - ax, y - ay),
        covers(glider_offsets(), (ax + 1, ay + 1), x, y) <==> glider_phase(4, x - ax, y - ay),
{
    let offsets = glider_offsets();
    let dx = x - ax;
    let dy = y - ay;
    if glider_phase(0, dx, dy) {
        let k: int = if dy == 0 {
            0
        } else if dy == 1 {
            1
        } else if dx == 1 {
            2
        } else if dx == 0 {
            3
        } else {
            4
        };
        assert(ax + offsets[k].0 == x && ay + offsets[k].1 == y);
    }
    if glider_phase(4, dx, dy) {
        let k: int = if dy == 1 {
            0
        } else if dy == 2 {
            1
        } else if dx == 2 {
            2
        } else if dx == 1 {
            3
        } else {
            4
        };
        assert(ax + 1 + offsets[k].0 == x && ay + 1 + offsets[k].1 == y);
    }
}

/// One generation takes the blinker from one phase to the other.
proof fn lemma_blinker_step(
    cells: Seq<Seq<bool>>,
    width: int,
    height: int,
    cx: int,
    cy: int,
    phase: int,
)
    requires
        rectangular(cells, width, height),
        1 <= cx < width - 1,
        1 <= cy < height - 1,
        phase == 0 || phase == 1,
        shows_blinker(cells, phase, cx, cy),
    ensures
        shows_blinker(next_cells(cells), 1 - phase, cx, cy),
{
    assert forall|x: int, y: int| #[trigger]
        alive_at(next_cells(cells), x, y) <==> blinker_phase(1 - phase, x - cx, y - cy) by {
        lemma_next_alive(cells, width, height, x, y);
    }
}

/// One generation takes the glider from one phase to the next.
proof fn lemma_glider_step(
    cells: Seq<Seq<bool>>,
    width: int,
    height: int,
    ax: int,
    ay: int,
    phase: int,
)
    requires
        rectangular(cells, width, height),
        1 <= ax,
        ax + 2 < width,
        0 <= ay,
        ay + 3 < height,
        0 <= phase < 4,
        shows_glider(cells, phase, ax, ay),
    ensures
        shows_glider(next_cells(cells), phase + 1, ax, ay),
{
    assert forall|x: int, y: int| #[trigger]
        alive_at(next_cells(cells), x, y) <==> glider_phase(phase + 1, x - ax, y - ay) by {
        lemma_next_alive(cells, width, height, x, y);
    }
}

/// A matrix that holds the blinker alone shows it, and the other way round.
proof fn lemma_blinker_alone(
    cells: Seq<Seq<bool>>,
    width: int,
    height: int,
    cx: int,
    cy: int,
    phase: int,
)
    requires
        rectangular(cells, width, height),
        1 <= cx < width - 1,
        1 <= cy < height - 1,
        phase == 0 || phase == 1,
    ensures
        shows_blinker(cells, phase, cx, cy) <==> cells == alone(
            width,
            height,
            if phase == 0 {
                blinker_offsets()
            } else {
                flat_blinker_offsets()
            },
            (cx, cy),
        ),
{
    let offsets = if phase == 0 {
        blinker_offsets()
    } else {
        flat_blinker_offsets()
    };
    lemma_alone(cells, width, height, offsets, (cx, cy));
    assert forall|x: int, y: int|
        covers(offsets, (cx, cy), x, y) <==> blinker_phase(phase, x - cx, y - cy) by {
        lemma_blinker_cover(phase, cx, cy, x, y);
    }
    if cells == alone(width, height, offsets, (cx, cy)) {
        assert forall|x: int, y: int| #[trigger]
            alive_at(cells, x, y) <==> blinker_phase(phase, x - cx, y - cy) by {}
    }
}

/// A matrix that holds the glider alone, where it was laid down or one cell
/// further along both axes, shows it in its first phase or its last.
proof fn lemma_glider_alone(
    cells: Seq<Seq<bool>>,
    width: int,
    height: int,
    ax: int,
    ay: int,
    phase: int,
)
    requires
        rectangular(cells, width, height),
        1 <= ax,
        ax + 2 < width,
        0 <= ay,
        ay + 3 < height,
        phase == 0 || phase == 4,
    ensures
        shows_glider(cells, phase, ax, ay) <==> cells == alone(
            width,
            height,
            glider_offsets(),
            if phase == 0 {
                (ax, ay)
            } else {
                (ax + 1, ay + 1)
            },
        ),
{
    let anchor = if phase == 0 {
        (ax, ay)
    } else {
        (ax + 1, ay + 1)
    };
    lemma_alone(cells, width, height, glider_offsets(), anchor);
    assert forall|x: int, y: int|
        covers(glider_offsets(), anchor, x, y) <==> glider_phase(phase, x - ax, y - ay) by {
        lemma_glider_cover(ax, ay, x, y);
    }
    if cells == alone(width, height, glider_offsets(), anchor) {
        assert forall|x: int, y: int| #[trigger]
            alive_at(cells, x, y) <==> glider_phase(phase, x - ax, y - ay) by {}
    }
}

/// The blinker oscillates with period two. An upright blinker, alone on a
/// grid that holds the cells to the left and right of its centre, lies flat
/// through the same centre one generation later, and stands upright again
/// after one more.
pub proof fn lemma_blinker_oscillates(width: int, height: int, cx: int, cy: int)
    requires
        1 <= cx < width - 1,
        1 <= cy < height - 1,
    ensures
        generations(alone(width, height, blinker_offsets(), (cx, cy)), 1) == alone(
            width,
            height,
            flat_blinker_offsets(),
            (cx, cy),
        ),
        generations(alone(width, height, blinker_offsets(), (cx, cy)), 2) == alone(
            width,
            height,
            blinker_offsets(),
            (cx, cy),
        ),
{
    let upright = alone(width, height, blinker_offsets(), (cx, cy));
    let flat = next_cells(upright);
    let again = next_cells(flat);
    assert(rectangular(upright, width, height));
    lemma_blinker_alone(upright, width, height, cx, cy, 0);
    lemma_blinker_step(upright, width, height, cx, cy, 0);
    lemma_blinker_alone(flat, width, height, cx, cy, 1);
    lemma_blinker_step(flat, width, height, cx, cy, 1);
    lemma_blinker_alone(again, width, height, cx, cy, 0);
    assert(generations(upright, 0) == upright);
    assert(generations(upright, 1) == flat);
    assert(generations(upright, 2) == again);
}

/// The glider travels. Alone on a grid that holds the four by four cells it
/// passes through, it has after four generations its first shape again, one
/// cell further along both axes.
pub proof fn lemma_glider_travels(width: int, height: int, ax: int, ay: int)
    requires
        1 <= ax,
        ax + 2 < width,
        0 <= ay,
        ay + 3 < height,
    ensures
        generations(alone(width, height, glider_offsets(), (ax, ay)), 4) == alone(
            width,
            height,
            glider_offsets(),
            (ax + 1, ay + 1),
        ),
{
    let first = alone(width, height, glider_offsets(), (ax, ay));
    let second = next_cells(first);
    let third = next_cells(second);
    let fourth = next_cells(third);
    let fifth = next_cells(fourth);
    assert(rectangular(first, width, height));
    lemma_glider_alone(first, width, height, ax, ay, 0);
    lemma_glider_step(first, width, height, ax, ay, 0);
    lemma_glider_step(second, width, height, ax, ay, 1);
    lemma_glider_step(third, width, height, ax, ay, 2);
    lemma_glider_step(fourth, width, height, ax, ay, 3);
    lemma_glider_alone(fifth, width, height, ax, ay, 4);
    assert(generations(first, 0) == first);
    assert(generations(first, 1) == second);
    assert(generations(first, 2) == third);
    assert(generations(first, 3) == fourth);
    assert(generations(first, 4) == fifth);
}

} // verus!
