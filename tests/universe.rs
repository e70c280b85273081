use game_of_life::cell::Cell;
use game_of_life::rules::next_cell_state;
use game_of_life::universe::{cell_from_draw, Universe};

fn grid(height: u32, width: u32, alive: &[(u32, u32)]) -> Universe {
    let mut cells = vec![Cell::Dead; (height * width) as usize];
    for &(row, column) in alive {
        cells[(row * width + column) as usize] = Cell::Alive;
    }
    Universe::from_cells(height, width, cells).expect("valid grid")
}

fn at(u: &Universe, row: u32, column: u32) -> Cell {
    u.cells()[(row * u.width() + column) as usize]
}

fn alive_positions(u: &Universe) -> Vec<(u32, u32)> {
    let mut out = Vec::new();
    for row in 0..u.height() {
        for column in 0..u.width() {
            if at(u, row, column) == Cell::Alive {
                out.push((row, column));
            }
        }
    }
    out
}

#[test]
fn same_generation_ticks_the_same() {
    let alive = [(0, 1), (1, 2), (2, 0), (2, 1), (2, 2), (4, 4)];
    let mut a = grid(6, 7, &alive);
    let mut b = grid(6, 7, &alive);
    let da = a.tick();
    let db = b.tick();
    assert_eq!(da, db);
    assert_eq!(a.cells(), b.cells());
    let db2 = b.tick();
    let da2 = a.tick();
    assert_eq!(da2, db2);
    assert_eq!(a.cells(), b.cells());
}

#[test]
fn shape_is_kept() {
    for &(h, w) in &[(1u32, 1u32), (1, 5), (4, 1), (3, 3), (5, 8)] {
        let mut u = grid(h, w, &[(0, 0)]);
        assert_eq!(u.cells().len(), (h * w) as usize);
        let delta = u.tick();
        assert_eq!(delta.len(), (h * w) as usize);
        assert_eq!(u.cells().len(), (h * w) as usize);
        assert_eq!(u.width(), w);
        assert_eq!(u.height(), h);
    }
}

#[test]
fn delta_marks_exactly_the_flipped_cells() {
    let mut u = grid(5, 6, &[(0, 0), (0, 1), (1, 0), (3, 3), (3, 4), (3, 5), (4, 2)]);
    let before = u.cells().to_vec();
    let delta = u.tick();
    let after = u.cells().to_vec();
    let mut flips = 0;
    for i in 0..before.len() {
        assert!(delta[i] == 0 || delta[i] == 1);
        assert_eq!(delta[i] == 1, before[i] != after[i]);
        flips += delta[i] as usize;
    }
    assert!(flips > 0);
}

#[test]
fn empty_grid_stays_empty() {
    for &(h, w) in &[(1u32, 1u32), (2, 2), (3, 7), (10, 10)] {
        let mut u = grid(h, w, &[]);
        let delta = u.tick();
        assert!(delta.iter().all(|&d| d == 0));
        assert!(u.cells().iter().all(|&c| c == Cell::Dead));
    }
}

#[test]
fn l_triomino_gives_birth() {
    let mut u = grid(3, 3, &[(0, 0), (0, 1), (1, 0)]);
    assert_eq!(at(&u, 1, 1), Cell::Dead);
    assert_eq!(u.live_neighbor_count(1, 1), 3);
    u.tick();
    assert_eq!(at(&u, 1, 1), Cell::Alive);
}

#[test]
fn neighbours_wrap_around_both_edges() {
    let u = grid(3, 3, &[(0, 0)]);
    assert_eq!(u.live_neighbor_count(2, 2), 1);
    assert_eq!(u.live_neighbor_count(2, 0), 1);
    assert_eq!(u.live_neighbor_count(0, 2), 1);
    assert_eq!(u.live_neighbor_count(0, 0), 0);
    // On a 3 by 3 torus every other cell touches (0, 0).
    assert_eq!(u.live_neighbor_count(1, 1), 1);
    let v = grid(5, 5, &[(0, 0)]);
    assert_eq!(v.live_neighbor_count(4, 4), 1);
    assert_eq!(v.live_neighbor_count(2, 2), 0);
}

#[test]
fn glider_moves_one_step_diagonally_every_four_ticks() {
    let glider = [(0u32, 1u32), (1, 2), (2, 0), (2, 1), (2, 2)];
    let mut u = grid(8, 8, &glider);
    for _ in 0..4 {
        u.tick();
    }
    let mut expected: Vec<(u32, u32)> = glider.iter().map(|&(r, c)| ((r + 1) % 8, (c + 1) % 8)).collect();
    expected.sort();
    assert_eq!(alive_positions(&u), expected);
}

#[test]
fn glider_wraps_across_the_corner() {
    let glider = [(5u32, 6u32), (6, 7), (7, 5), (7, 6), (7, 7)];
    let mut u = grid(8, 8, &glider);
    for _ in 0..4 {
        u.tick();
    }
    let mut expected: Vec<(u32, u32)> = glider.iter().map(|&(r, c)| ((r + 1) % 8, (c + 1) % 8)).collect();
    expected.sort();
    assert_eq!(alive_positions(&u), expected);
}

#[test]
fn isolated_cell_dies() {
    let mut u = grid(5, 5, &[(2, 2)]);
    assert_eq!(u.live_neighbor_count(2, 2), 0);
    let delta = u.tick();
    assert_eq!(at(&u, 2, 2), Cell::Dead);
    assert_eq!(delta[12], 1);
}

#[test]
fn crowded_cell_dies() {
    let mut u = grid(5, 5, &[(2, 2), (1, 1), (1, 2), (1, 3), (2, 1), (2, 3)]);
    assert_eq!(u.live_neighbor_count(2, 2), 5);
    u.tick();
    assert_eq!(at(&u, 2, 2), Cell::Dead);
}

#[test]
fn block_is_still() {
    let mut u = grid(4, 4, &[(1, 1), (1, 2), (2, 1), (2, 2)]);
    let delta = u.tick();
    assert!(delta.iter().all(|&d| d == 0));
    assert_eq!(alive_positions(&u), vec![(1, 1), (1, 2), (2, 1), (2, 2)]);
}

#[test]
fn blinker_oscillates() {
    let mut u = grid(5, 5, &[(2, 1), (2, 2), (2, 3)]);
    let delta = u.tick();
    assert_eq!(alive_positions(&u), vec![(1, 2), (2, 2), (3, 2)]);
    assert_eq!(delta.iter().filter(|&&d| d == 1).count(), 4);
    u.tick();
    assert_eq!(alive_positions(&u), vec![(2, 1), (2, 2), (2, 3)]);
}

#[test]
fn single_cell_grid_counts_itself_through_the_wrap() {
    let mut u = grid(1, 1, &[(0, 0)]);
    assert_eq!(u.live_neighbor_count(0, 0), 5);
    let delta = u.tick();
    assert_eq!(delta, vec![1]);
    assert_eq!(at(&u, 0, 0), Cell::Dead);
}

#[test]
fn transition_rules() {
    assert_eq!(next_cell_state(Cell::Alive, 0), Cell::Dead);
    assert_eq!(next_cell_state(Cell::Alive, 1), Cell::Dead);
    assert_eq!(next_cell_state(Cell::Alive, 2), Cell::Alive);
    assert_eq!(next_cell_state(Cell::Alive, 3), Cell::Alive);
    assert_eq!(next_cell_state(Cell::Alive, 4), Cell::Dead);
    assert_eq!(next_cell_state(Cell::Alive, 8), Cell::Dead);
    assert_eq!(next_cell_state(Cell::Dead, 2), Cell::Dead);
    assert_eq!(next_cell_state(Cell::Dead, 3), Cell::Alive);
    assert_eq!(next_cell_state(Cell::Dead, 4), Cell::Dead);
    assert_eq!(next_cell_state(Cell::Dead, 0), Cell::Dead);
}

#[test]
fn cells_as_bytes() {
    assert_eq!(Cell::Dead.to_byte(), 0);
    assert_eq!(Cell::Alive.to_byte(), 1);
    assert_eq!(cell_from_draw(0), Cell::Dead);
    assert_eq!(cell_from_draw(1), Cell::Alive);
    assert_eq!(cell_from_draw(7), Cell::Dead);
}

#[test]
fn from_cells_rejects_bad_shapes() {
    assert!(Universe::from_cells(0, 3, vec![]).is_none());
    assert!(Universe::from_cells(3, 0, vec![]).is_none());
    assert!(Universe::from_cells(2, 3, vec![Cell::Dead; 5]).is_none());
    assert!(Universe::from_cells(2, 3, vec![Cell::Dead; 7]).is_none());
    let u = Universe::from_cells(2, 3, vec![Cell::Alive; 6]).expect("valid grid");
    assert_eq!(u.height(), 2);
    assert_eq!(u.width(), 3);
    assert_eq!(u.cells(), &[Cell::Alive; 6][..]);
}

#[test]
fn new_seeds_every_cell() {
    let u = Universe::new(64, 48);
    assert_eq!(u.height(), 64);
    assert_eq!(u.width(), 48);
    assert_eq!(u.cells().len(), 64 * 48);
    let alive = u.cells().iter().filter(|&&c| c == Cell::Alive).count();
    assert!(alive > 0);
    assert!(alive < 64 * 48);
}
