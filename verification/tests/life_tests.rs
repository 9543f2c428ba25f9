use life_grid::life::randomize;
use life_grid::life::BlockState;
use life_grid::life::GameOfLife;
use life_grid::utils::Array2d;

fn grid_with_live(w: usize, h: usize, live: &[(usize, usize)]) -> Array2d<BlockState> {
    let mut g = Array2d::<BlockState>::new((w, h));
    for &pos in live {
        g.set(pos, BlockState::On);
    }
    g
}

fn live_cells(g: &Array2d<BlockState>) -> Vec<(usize, usize)> {
    let (w, h) = g.dimensions();
    let mut live = Vec::new();
    for y in 0..h {
        for x in 0..w {
            if g.get((x, y)) == BlockState::On {
                live.push((x, y));
            }
        }
    }
    live
}

#[test]
fn block_is_a_still_life() {
    let block = [(0, 0), (1, 0), (0, 1), (1, 1)];
    let mut g = grid_with_live(3, 3, &block);
    GameOfLife::step(&mut g);
    assert_eq!(live_cells(&g), vec![(0, 0), (1, 0), (0, 1), (1, 1)]);
}

#[test]
fn blinker_oscillates_with_period_two() {
    let mut g = grid_with_live(5, 5, &[(1, 0), (1, 1), (1, 2)]);
    GameOfLife::step(&mut g);
    assert_eq!(live_cells(&g), vec![(0, 1), (1, 1), (2, 1)]);
    GameOfLife::step(&mut g);
    assert_eq!(live_cells(&g), vec![(1, 0), (1, 1), (1, 2)]);
}

#[test]
fn centered_blinker_full_generations() {
    let mut g = grid_with_live(5, 5, &[(2, 1), (2, 2), (2, 3)]);
    GameOfLife::step(&mut g);
    assert_eq!(live_cells(&g), vec![(1, 2), (2, 2), (3, 2)]);
    GameOfLife::step(&mut g);
    assert_eq!(live_cells(&g), vec![(2, 1), (2, 2), (2, 3)]);
}

#[test]
fn lone_corner_cell_dies() {
    for &(w, h) in &[(1, 1), (2, 2), (5, 5)] {
        let mut g = grid_with_live(w, h, &[(0, 0)]);
        GameOfLife::step(&mut g);
        assert_eq!(live_cells(&g), vec![]);
    }
}

#[test]
fn corner_cell_with_three_live_neighbors_is_born() {
    let mut g = grid_with_live(4, 4, &[(1, 0), (0, 1), (1, 1)]);
    GameOfLife::step(&mut g);
    assert_eq!(g.get((0, 0)), BlockState::On);
}

#[test]
fn stepping_is_deterministic() {
    let seed = [(0, 0), (2, 1), (3, 1), (1, 2), (2, 2), (3, 3), (0, 3)];
    let mut a = grid_with_live(4, 4, &seed);
    let mut b = grid_with_live(4, 4, &seed);
    GameOfLife::step(&mut a);
    GameOfLife::step(&mut b);
    assert_eq!(a.into_values(), b.into_values());
}

#[test]
fn degenerate_grids_step_to_themselves() {
    for &(w, h) in &[(0, 5), (5, 0), (0, 0)] {
        let mut g = Array2d::<BlockState>::new((w, h));
        GameOfLife::step(&mut g);
        assert_eq!(g.dimensions(), (w, h));
        assert_eq!(g.into_values().len(), 0);
    }
}

#[test]
fn overcrowded_cell_dies_and_sparse_survivors_follow_rule() {
    // A live cell with four live neighbors dies; with two it survives.
    let mut g = grid_with_live(3, 3, &[(1, 1), (0, 0), (2, 0), (0, 2), (2, 2)]);
    GameOfLife::step(&mut g);
    assert_eq!(g.get((1, 1)), BlockState::Off);

    let mut g2 = grid_with_live(3, 3, &[(0, 0), (1, 1), (2, 2)]);
    GameOfLife::step(&mut g2);
    assert_eq!(g2.get((1, 1)), BlockState::On);
}

#[test]
fn randomize_keeps_dimensions_and_mixes_states() {
    let mut g = Array2d::<BlockState>::new((64, 64));
    randomize(&mut g);
    assert_eq!(g.dimensions(), (64, 64));
    let values = g.into_values();
    assert!(values.iter().any(|&v| v == BlockState::On));
    assert!(values.iter().any(|&v| v == BlockState::Off));
}

#[test]
fn default_cell_state_is_dead() {
    assert_eq!(BlockState::default(), BlockState::Off);
}
