use glam::IVec2;
use life_sim::{
    next_generation, stamp, CellRect, Config, Grid, Pattern, Rgba, SimError, Simulation,
};

fn lit(x: i64, y: i64) -> CellRect {
    CellRect { x, y, width: 8, height: 8, alive: true, color: Rgba::opaque(255, 255, 255) }
}

fn glider_game() -> Simulation {
    Simulation::new(Config::default(), &Pattern::glider(), IVec2::new(1, 0)).unwrap()
}

#[test]
fn a_new_game_holds_the_seeded_grid() {
    let game = glider_game();
    let mut expected = Grid::create(16, 16).unwrap();
    stamp(&mut expected, &Pattern::glider(), IVec2::new(1, 0)).unwrap();
    assert_eq!(game.grid(), &expected);
    assert_eq!(game.config(), &Config::default());
    assert_eq!(game.scheduler().accumulator(), 0);
    assert_eq!(game.scheduler().ticks_per_second(), 2);
}

#[test]
fn a_game_needs_a_grid_and_a_pattern_that_fits() {
    let tiny = Config::new(20, 500, 30, 2, 2).unwrap();
    assert_eq!(
        Simulation::new(tiny, &Pattern::glider(), IVec2::new(1, 0)).err(),
        Some(SimError::InvalidConfiguration)
    );
    assert_eq!(
        Simulation::new(Config::default(), &Pattern::glider(), IVec2::new(0, 0)).err(),
        Some(SimError::OutOfBounds)
    );
    assert_eq!(
        Simulation::new(Config::default(), &Pattern::blinker(), IVec2::new(16, 8)).err(),
        Some(SimError::OutOfBounds)
    );
    assert!(Simulation::new(Config::default(), &Pattern::blinker(), IVec2::new(15, 8)).is_ok());
}

#[test]
fn a_short_frame_changes_nothing_but_the_accumulator() {
    let mut game = glider_game();
    let before = game.grid().clone();
    assert_eq!(game.frame(16_667), 0);
    assert_eq!(game.grid(), &before);
    assert_eq!(game.scheduler().accumulator(), 33_334);
    assert_eq!(game.frame(0), 0);
    assert_eq!(game.grid(), &before);
}

#[test]
fn a_frame_runs_the_generations_that_are_due() {
    let mut game = glider_game();
    let first = game.grid().clone();
    assert_eq!(game.frame(600_000), 1);
    let second = next_generation(&first);
    assert_eq!(game.grid(), &second);
    assert_eq!(game.scheduler().accumulator(), 200_000);

    assert_eq!(game.frame(1_500_000), 3);
    let fifth = next_generation(&next_generation(&next_generation(&second)));
    assert_eq!(game.grid(), &fifth);
    assert_eq!(game.scheduler().accumulator(), 200_000);

    let mut moved = Grid::create(16, 16).unwrap();
    stamp(&mut moved, &Pattern::glider(), IVec2::new(2, 1)).unwrap();
    assert_eq!(game.grid(), &moved);
}

#[test]
fn the_frames_do_not_matter_to_the_game() {
    let mut slow = glider_game();
    let mut fast = glider_game();
    let slow_ticks = slow.frame(3_100_000);
    let mut fast_ticks = 0;
    for _ in 0..31 {
        fast_ticks += fast.frame(100_000);
    }
    assert_eq!(slow_ticks, 6);
    assert_eq!(fast_ticks, 6);
    assert_eq!(slow, fast);
}

#[test]
fn the_picture_of_a_game() {
    let mut game = Simulation::new(
        Config::new(40, 30, 10, 2, 1).unwrap(),
        &Pattern::blinker(),
        IVec2::new(1, 1),
    )
    .unwrap();
    let rects = game.draw_cells();
    assert_eq!(rects.len(), 12);
    let alive: Vec<CellRect> = rects.iter().copied().filter(|r| r.alive).collect();
    assert_eq!(
        alive,
        vec![lit(12, 2), lit(12, 12), lit(12, 22)]
    );
    assert_eq!(game.frame(1_000_001), 1);
    let turned: Vec<CellRect> = game.draw_cells().into_iter().filter(|r| r.alive).collect();
    assert_eq!(
        turned,
        vec![lit(2, 12), lit(12, 12), lit(22, 12)]
    );
}
