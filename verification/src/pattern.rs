use crate::error::SimError;
use crate::grid::{rectangular, Grid};
use glam::IVec2;
use vstd::prelude::*;

verus! {

/// The offsets of a stored pattern as pairs of integers.
pub open spec fn offset_pairs(offsets: Seq<IVec2>) -> Seq<(int, int)> {
    Seq::new(offsets.len(), |k: int| (offsets[k].x as int, offsets[k].y as int))
}

/// Whether one of `offsets`, laid at `anchor`, falls on `(x, y)`.
pub open spec fn covers(offsets: Seq<(int, int)>, anchor: (int, int), x: int, y: int) -> bool {
    exists|k: int|
        0 <= k < offsets.len() && anchor.0 + (#[trigger] offsets[k]).0 == x && anchor.1
            + offsets[k].1 == y
}

/// Whether all of `offsets`, laid at `anchor`, fall inside a grid of `width`
/// by `height` cells.
pub open spec fn fits(
    offsets: Seq<(int, int)>,
    anchor: (int, int),
    width: int,
    height: int,
) -> bool {
    forall|k: int|
        0 <= k < offsets.len() ==> 0 <= anchor.0 + (#[trigger] offsets[k]).0 < width && 0
            <= anchor.1 + offsets[k].1 < height
}

/// `cells` with the cells that `offsets` cover from `anchor` made alive, and
/// every other cell as it was.
pub open spec fn stamped(
    cells: Seq<Seq<bool>>,
    offsets: Seq<(int, int)>,
    anchor: (int, int),
) -> Seq<Seq<bool>> {
    Seq::new(
        cells.len(),
        |x: int| Seq::new(cells[x].len(), |y: int| cells[x][y] || covers(offsets, anchor, x, y)),
    )
}

/// The offsets of the blinker: three cells in a column, around the anchor.
pub open spec fn blinker_offsets() -> Seq<(int, int)> {
    seq![(0, -1), (0, 0), (0, 1)]
}

/// The offsets of the glider, which travels one cell along both axes every
/// four generations.
pub open spec fn glider_offsets() -> Seq<(int, int)> {
    seq![(0, 0), (1, 1), (1, 2), (0, 2), (-1, 2)]
}

/// A named arrangement of live cells, each given by its offset from an
/// anchor. Its view is the list of offsets.
#[derive(Clone, Debug, PartialEq, Eq)]
pub struct Pattern {
    name: String,
    offsets: Vec<IVec2>,
}

impl View for Pattern {
    type V = Seq<(int, int)>;

    closed spec fn view(&self) -> Seq<(int, int)> {
        offset_pairs(self.offsets@)
    }
}

impl Pattern {
    /// The name of the pattern.
    pub closed spec fn spec_name(&self) -> Seq<char> {
        self.name@
    }

    /// The pattern called `name` that is made of the cells at `offsets`.
    pub fn new(name: String, offsets: Vec<IVec2>) -> (pattern: Pattern)
        ensures
            pattern.spec_name() == name@,
            pattern@ == offset_pairs(offsets@),
    {
        Pattern { name, offsets }
    }

    /// The blinker, upright.
    pub fn blinker() -> (pattern: Pattern)
        ensures
            pattern.spec_name() == "blinker"@,
            pattern@ == blinker_offsets(),
    {
        let mut offsets: Vec<IVec2> = Vec::new();
        offsets.push(IVec2::new(0, -1));
        offsets.push(IVec2::new(0, 0));
        offsets.push(IVec2::new(0, 1));
        assert(offset_pairs(offsets@) =~= blinker_offsets());
        Pattern { name: "blinker".to_owned(), offsets }
    }

    /// The glider.
    pub fn glider() -> (pattern: Pattern)
        ensures
            pattern.spec_name() == "glider"@,
            pattern@ == glider_offsets(),
    {
        let mut offsets: Vec<IVec2> = Vec::new();
        offsets.push(IVec2::new(0, 0));
        offsets.push(IVec2::new(1, 1));
        offsets.push(IVec2::new(1, 2));
        offsets.push(IVec2::new(0, 2));
        offsets.push(IVec2::new(-1, 2));
        assert(offset_pairs(offsets@) =~= glider_offsets());
        Pattern { name: "glider".to_owned(), offsets }
    }

    /// The name of the pattern.
    pub fn name(&self) -> (name: &str)
        ensures
            name@ == self.spec_name(),
    {
        self.name.as_str()
    }

    /// The number of cells of the pattern.
    pub fn len(&self) -> (len: usize)
        ensures
            len == self@.len(),
    {
        self.offsets.len()
    }

    /// The offset of the cell number `index` of the pattern.
    pub fn offset(&self, index: usize) -> (offset: Option<IVec2>)
        ensures
            index < self@.len() ==> (offset matches Some(o) && (o.x as int, o.y as int)
                == self@[index as int]),
            index >= self@.len() ==> offset.is_none(),
    {
        if index < self.offsets.len() {
            Some(self.offset_at(index))
        } else {
            None
        }
    }

    /// The offset of the cell number `index`, which the pattern has.
    pub(crate) fn offset_at(&self, index: usize) -> (offset: IVec2)
        requires
            index < self@.len(),
        ensures
            (offset.x as int, offset.y as int) == self@[index as int],
    {
        self.offsets[index]
    }

    /// Whether every cell of the pattern, laid at `anchor`, falls inside
    /// `grid`.
    pub fn fits_at(&self, grid: &Grid, anchor: IVec2) -> (fitting: bool)
        requires
            grid.wf(),
        ensures
            fitting == fits(
                self@,
                (anchor.x as int, anchor.y as int),
                grid.spec_width(),
                grid.spec_height(),
            ),
    {
        let ghost at: (int, int) = (anchor.x as int, anchor.y as int);
        let width: i64 = grid.width() as i64;
        let height: i64 = grid.height() as i64;
        let mut k: usize = 0;
        while k < self.offsets.len()
            invariant
                grid.wf(),
                k <= self.offsets@.len(),
                at == (anchor.x as int, anchor.y as int),
                width == grid.spec_width(),
                height == grid.spec_height(),
                fits(self@.take(k as int), at, width as int, height as int),
            decreases self.offsets@.len() - k,
        {
            let offset: IVec2 = self.offset_at(k);
            let x: i64 = anchor.x as i64 + offset.x as i64;
            let y: i64 = anchor.y as i64 + offset.y as i64;
            if x < 0 || y < 0 || x >= width || y >= height {
                return false;
            }
            assert forall|i: int| 0 <= i < k + 1 implies 0 <= at.0 + (
            #[trigger] self@.take(k + 1)[i]).0 < width && 0 <= at.1 + self@.take(k + 1)[i].1
                < height by {
                if i < k {
                    assert(self@.take(k + 1)[i] == self@.take(k as int)[i]);
                }
            }
            k += 1;
        }
        assert(self@.take(k as int) =~= self@);
        true
    }
}

/// Lays `pattern` on `grid` at `anchor`: makes the cells that it covers alive
/// and touches no other. `OutOfBounds`, and no change, when one of its cells
/// would fall outside the grid.
pub fn stamp(grid: &mut Grid, pattern: &Pattern, anchor: IVec2) -> (result: Result<(), SimError>)
    requires
        old(grid).wf(),
    ensures
        final(grid).wf(),
        final(grid).spec_width() == old(grid).spec_width(),
        final(grid).spec_height() == old(grid).spec_height(),
        fits(
            pattern@,
            (anchor.x as int, anchor.y as int),
            old(grid).spec_width(),
            old(grid).spec_height(),
        ) ==> result.is_ok() && final(grid)@ == stamped(
            old(grid)@,
            pattern@,
            (anchor.x as int, anchor.y as int),
        ),
        !fits(
            pattern@,
            (anchor.x as int, anchor.y as int),
            old(grid).spec_width(),
            old(grid).spec_height(),
        ) ==> result == Err::<(), SimError>(SimError::OutOfBounds) && final(grid)@ == old(grid)@,
{
    if !pattern.fits_at(grid, anchor) {
        return Err(SimError::OutOfBounds);
    }
    let ghost at: (int, int) = (anchor.x as int, anchor.y as int);
    let ghost before: Seq<Seq<bool>> = grid@;
    let ghost width: int = grid.spec_width();
    let ghost height: int = grid.spec_height();
    let count: usize = pattern.len();
    let mut k: usize = 0;
    assert(grid@ =~~= stamped(before, pattern@.take(0), at));
    while k < count
        invariant
            grid.wf(),
            grid.spec_width() == width,
            grid.spec_height() == height,
            rectangular(before, width, height),
            count == pattern@.len(),
            k <= count,
            at == (anchor.x as int, anchor.y as int),
            fits(pattern@, at, width, height),
            grid@ == stamped(before, pattern@.take(k as int), at),
        decreases count - k,
    {
        let offset: IVec2 = pattern.offset_at(k);
        let x: i32 = anchor.x + offset.x;
        let y: i32 = anchor.y + offset.y;
        let ghost so_far: Seq<(int, int)> = pattern@.take(k as int);
        let ghost more: Seq<(int, int)> = pattern@.take(k + 1);
        grid.put(x, y, true);
        assert forall|a: int, b: int| covers(more, at, a, b) <==> covers(so_far, at, a, b) || (a
            == x && b == y) by {
            if covers(more, at, a, b) {
                let i = choose|i: int|
                    0 <= i < more.len() && at.0 + (#[trigger] more[i]).0 == a && at.1 + more[i].1
                        == b;
                if i < k {
                    assert(so_far[i] == more[i]);
                }
            }
            if covers(so_far, at, a, b) {
                let i = choose|i: int|
                    0 <= i < so_far.len() && at.0 + (#[trigger] so_far[i]).0 == a && at.1
                        + so_far[i].1 == b;
                assert(more[i] == so_far[i]);
            }
            if a == x && b == y {
                assert(more[k as int] == pattern@[k as int]);
            }
        }
        assert(grid@ =~~= stamped(before, more, at));
        k += 1;
    }
    assert(pattern@.take(k as int) =~= pattern@);
    Ok(())
}

} // verus!
