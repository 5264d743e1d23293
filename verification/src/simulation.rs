use crate::config::Config;
use crate::error::SimError;
use crate::grid::{dead_cells, Grid};
use crate::pattern::{fits, stamp, stamped, Pattern};
use crate::render::{draw_cells, draw_index, drawn, CellRect};
use crate::rules::{generations, update_cells};
use crate::scheduler::{settled, ticks_due, Scheduler};
use glam::IVec2;
use vstd::prelude::*;

verus! {

/// A running game: the configuration it was set up from, the current
/// generation, and the scheduler that says when the next one is due.
#[derive(Clone, Debug, PartialEq, Eq)]
pub struct Simulation {
    config: Config,
    grid: Grid,
    scheduler: Scheduler,
}

impl Simulation {
    /// The configuration.
    pub closed spec fn spec_config(&self) -> Config {
        self.config
    }

    /// The current generation.
    pub closed spec fn spec_grid(&self) -> Grid {
        self.grid
    }

    /// The scheduler.
    pub closed spec fn spec_scheduler(&self) -> Scheduler {
        self.scheduler
    }

    /// The parts are well formed, the grid is the one that fills the
    /// configured window, and the scheduler runs at the configured rate.
    pub open spec fn wf(&self) -> bool {
        &&& self.spec_config().wf()
        &&& self.spec_grid().wf()
        &&& self.spec_scheduler().wf()
        &&& self.spec_grid().spec_width() == self.spec_config().grid_width()
        &&& self.spec_grid().spec_height() == self.spec_config().grid_height()
        &&& self.spec_scheduler().rate() == self.spec_config().spec_ticks_per_second()
    }

    /// A game on the all-dead grid that fills the configured window, seeded
    /// with `pattern` at `anchor`, with no time accumulated.
    /// `InvalidConfiguration` when not even one cell fits into the window;
    /// otherwise `OutOfBounds` when the pattern does not fit into the grid.
    pub fn new(config: Config, pattern: &Pattern, anchor: IVec2) -> (result: Result<
        Simulation,
        SimError,
    >)
        requires
            config.wf(),
        ensures
            !(config.grid_width() > 0 && config.grid_height() > 0) ==> result == Err::<
                Simulation,
                SimError,
            >(SimError::InvalidConfiguration),
            config.grid_width() > 0 && config.grid_height() > 0 && !fits(
                pattern@,
                (anchor.x as int, anchor.y as int),
                config.grid_width(),
                config.grid_height(),
            ) ==> result == Err::<Simulation, SimError>(SimError::OutOfBounds),
            config.grid_width() > 0 && config.grid_height() > 0 && fits(
                pattern@,
                (anchor.x as int, anchor.y as int),
                config.grid_width(),
                config.grid_height(),
            ) ==> result.is_ok(),
            result matches Ok(simulation) ==> {
                &&& simulation.wf()
                &&& simulation.spec_config() == config
                &&& simulation.spec_grid()@ == stamped(
                    dead_cells(config.grid_width(), config.grid_height()),
                    pattern@,
                    (anchor.x as int, anchor.y as int),
                )
                &&& simulation.spec_scheduler().accumulated() == 0
            },
    {
        let mut grid: Grid = match config.fill_cells_grid() {
            Ok(grid) => grid,
            Err(e) => {
                return Err(e);
            },
        };
        match stamp(&mut grid, pattern, anchor) {
            Ok(()) => {},
            Err(e) => {
                return Err(e);
            },
        }
        match Scheduler::new(config.ticks_per_second()) {
            Ok(scheduler) => Ok(Simulation { config, grid, scheduler }),
            Err(e) => Err(e),
        }
    }

    /// The configuration.
    pub fn config(&self) -> (config: &Config)
        ensures
            *config == self.spec_config(),
    {
        &self.config
    }

    /// The current generation.
    pub fn grid(&self) -> (grid: &Grid)
        ensures
            *grid == self.spec_grid(),
    {
        &self.grid
    }

    /// The scheduler.
    pub fn scheduler(&self) -> (scheduler: &Scheduler)
        ensures
            *scheduler == self.spec_scheduler(),
    {
        &self.scheduler
    }

    /// One frame that took `elapsed_micros` microseconds: adds that time to
    /// the scheduler, and while a tick is due replaces the grid by its next
    /// generation. Returns the number of generations that have passed.
    pub fn frame(&mut self, elapsed_micros: u64) -> (ticks: u128)
        requires
            old(self).wf(),
        ensures
            final(self).wf(),
            final(self).spec_config() == old(self).spec_config(),
            ticks == ticks_due(
                old(self).spec_scheduler().accumulated() + elapsed_micros * old(
                    self,
                ).spec_scheduler().rate(),
            ),
            final(self).spec_scheduler().accumulated() == settled(
                old(self).spec_scheduler().accumulated() + elapsed_micros * old(
                    self,
                ).spec_scheduler().rate(),
            ),
            final(self).spec_grid()@ == generations(old(self).spec_grid()@, ticks as nat),
    {
        self.scheduler.accumulate(elapsed_micros);
        let ghost total: int = self.scheduler.accumulated() as int;
        let ghost first: Seq<Seq<bool>> = self.grid@;
        let mut ticks: u128 = 0;
        while self.scheduler.take_tick()
            invariant
                self.spec_config() == old(self).spec_config(),
                self.spec_config().wf(),
                self.spec_grid().wf(),
                self.spec_scheduler().wf_within_frame(),
                self.spec_grid().spec_width() == self.spec_config().grid_width(),
                self.spec_grid().spec_height() == self.spec_config().grid_height(),
                self.spec_scheduler().rate() == self.spec_config().spec_ticks_per_second(),
                self.spec_scheduler().accumulated() <= total <= u128::MAX,
                ticks + ticks_due(self.spec_scheduler().accumulated() as int) == ticks_due(total),
                settled(self.spec_scheduler().accumulated() as int) == settled(total),
                self.spec_grid()@ == generations(first, ticks as nat),
            decreases self.spec_scheduler().accumulated(),
        {
            update_cells(&mut self.grid);
            ticks = ticks + 1;
        }
        ticks
    }

    /// The squares to fill for a picture of the current generation.
    pub fn draw_cells(&self) -> (rects: Vec<CellRect>)
        requires
            self.wf(),
        ensures
            rects@.len() == self.spec_grid().spec_width() * self.spec_grid().spec_height(),
            forall|x: int, y: int|
                self.spec_grid().in_bounds(x, y) ==> 0 <= #[trigger] draw_index(
                    self.spec_grid().spec_height(),
                    x,
                    y,
                ) < rects@.len() && rects@[draw_index(self.spec_grid().spec_height(), x, y)]
                    == drawn(self.spec_config(), x, y, self.spec_grid()@[x][y]),
    {
        draw_cells(&self.grid, &self.config)
    }
}

} // verus!
