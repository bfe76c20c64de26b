use life_grid::text::heading_text;
use life_grid::Board;

const ALIVE: char = 'A';
const DEAD: char = '.';

fn grid(width: usize, height: usize, live: &[(usize, usize)]) -> Board {
    let mut pattern = vec![vec![false; height]; width];
    for &(x, y) in live {
        pattern[x][y] = true;
    }
    Board::from_pattern(width, height, ALIVE, DEAD, &pattern)
}

fn live_cells(b: &Board) -> Vec<(usize, usize)> {
    let mut out = Vec::new();
    for x in 0..b.width() {
        for y in 0..b.height() {
            if b.cell(x, y) == ALIVE {
                out.push((x, y));
            }
        }
    }
    out
}

#[test]
fn block_is_still_life() {
    let mut b = grid(4, 4, &[(1, 1), (1, 2), (2, 1), (2, 2)]);
    let before = b.snapshot();
    b.check_cells();
    assert_eq!(b.snapshot(), before);
    assert_eq!(live_cells(&b), vec![(1, 1), (1, 2), (2, 1), (2, 2)]);
    assert_eq!(b.generation(), 1);
}

#[test]
fn blinker_oscillates_with_period_two() {
    let mut b = grid(5, 5, &[(2, 1), (2, 2), (2, 3)]);
    b.check_cells();
    assert_eq!(live_cells(&b), vec![(1, 2), (2, 2), (3, 2)]);
    b.check_cells();
    assert_eq!(live_cells(&b), vec![(2, 1), (2, 2), (2, 3)]);
    assert_eq!(b.generation(), 2);
}

#[test]
fn isolated_cell_dies() {
    let mut b = grid(5, 5, &[(2, 2)]);
    assert_eq!(b.live_neighbors(2, 2), 0);
    b.check_cells();
    assert_eq!(live_cells(&b), vec![]);
    assert_eq!(b.cell(2, 2), DEAD);
}

#[test]
fn dead_grid_stays_dead() {
    let mut b = grid(6, 4, &[]);
    for _ in 0..10 {
        b.check_cells();
        assert_eq!(live_cells(&b), vec![]);
    }
    assert_eq!(b.generation(), 10);
}

#[test]
fn overcrowded_cell_dies_and_birth_needs_three() {
    // centre has four live neighbours; (0, 1) is dead with exactly three
    let mut b = grid(3, 3, &[(0, 0), (0, 2), (1, 1), (2, 0), (2, 2)]);
    assert_eq!(b.live_neighbors(1, 1), 4);
    assert_eq!(b.live_neighbors(0, 1), 3);
    assert_eq!(b.live_neighbors(0, 0), 1);
    b.check_cells();
    assert_eq!(live_cells(&b), vec![(0, 1), (1, 0), (1, 2), (2, 1)]);
}

#[test]
fn survivor_with_two_neighbours_stays() {
    let mut b = grid(3, 3, &[(0, 0), (1, 1), (2, 2)]);
    assert_eq!(b.live_neighbors(1, 1), 2);
    b.check_cells();
    assert_eq!(live_cells(&b), vec![(1, 1)]);
}

#[test]
fn corner_and_edge_neighbour_counts() {
    let all: Vec<(usize, usize)> = (0..4).flat_map(|x| (0..3).map(move |y| (x, y))).collect();
    let b = grid(4, 3, &all);
    assert_eq!(b.live_neighbors(0, 0), 3);
    assert_eq!(b.live_neighbors(3, 0), 3);
    assert_eq!(b.live_neighbors(0, 2), 3);
    assert_eq!(b.live_neighbors(3, 2), 3);
    assert_eq!(b.live_neighbors(1, 0), 5);
    assert_eq!(b.live_neighbors(0, 1), 5);
    assert_eq!(b.live_neighbors(3, 1), 5);
    assert_eq!(b.live_neighbors(2, 2), 5);
    assert_eq!(b.live_neighbors(1, 1), 8);
}

#[test]
fn two_by_two_corner_has_three_neighbours() {
    let b = grid(2, 2, &[(0, 0), (0, 1), (1, 0), (1, 1)]);
    assert_eq!(b.live_neighbors(0, 0), 3);
}

#[test]
fn advancing_keeps_dimensions_and_counts_generations() {
    let mut b = Board::new(7, 3, ALIVE, DEAD);
    assert_eq!(b.generation(), 0);
    for k in 1..=25u64 {
        b.check_cells();
        assert_eq!(b.width(), 7);
        assert_eq!(b.height(), 3);
        assert_eq!(b.generation(), k);
    }
}

#[test]
fn cells_hold_only_the_two_symbols() {
    let mut b = Board::new(9, 8, '#', ' ');
    assert_eq!(b.alive(), '#');
    assert_eq!(b.dead(), ' ');
    for _ in 0..5 {
        for row in b.snapshot() {
            assert_eq!(row.len(), 8);
            for c in row {
                assert!(c == '#' || c == ' ');
            }
        }
        b.check_cells();
    }
}

#[test]
fn equal_grids_advance_equally() {
    let seed = Board::new(10, 10, ALIVE, DEAD);
    let cells = seed.snapshot();
    let pattern: Vec<Vec<bool>> = cells
        .iter()
        .map(|row| row.iter().map(|&c| c == ALIVE).collect())
        .collect();
    let mut a = Board::from_pattern(10, 10, ALIVE, DEAD, &pattern);
    let mut b = Board::from_pattern(10, 10, ALIVE, DEAD, &pattern);
    assert_eq!(a.snapshot(), cells);
    a.check_cells();
    b.check_cells();
    assert_eq!(a.snapshot(), b.snapshot());
    assert_eq!(a.generation(), b.generation());
}

#[test]
fn snapshot_is_a_copy() {
    let b = grid(2, 2, &[(0, 1)]);
    let mut copy = b.snapshot();
    copy[0][0] = ALIVE;
    assert_eq!(b.cell(0, 0), DEAD);
    assert_eq!(b.snapshot(), vec![vec![DEAD, ALIVE], vec![DEAD, DEAD]]);
}

#[test]
fn empty_grid_is_a_no_op() {
    let mut b = Board::new(0, 0, ALIVE, DEAD);
    b.check_cells();
    assert_eq!(b.width(), 0);
    assert_eq!(b.height(), 0);
    assert_eq!(b.generation(), 1);
    assert!(b.snapshot().is_empty());
    assert_eq!(b.render(), "Generation: 1\n");
}

#[test]
fn render_shows_generation_and_columns() {
    let b = grid(2, 3, &[(0, 0), (0, 2), (1, 2)]);
    assert_eq!(b.render(), "Generation: 0\nA.A\n..A\n");
}

#[test]
fn step_frame_advances_then_renders() {
    let mut b = grid(5, 5, &[(2, 1), (2, 2), (2, 3)]);
    let text = b.step_frame();
    assert_eq!(b.generation(), 1);
    assert_eq!(
        text,
        "Generation: 1\n.....\n..A..\n..A..\n..A..\n.....\n"
    );
}

#[test]
fn heading_writes_the_number_in_decimal() {
    assert_eq!(heading_text(0), "Generation: 0\n");
    assert_eq!(heading_text(7), "Generation: 7\n");
    assert_eq!(heading_text(1234), "Generation: 1234\n");
    assert_eq!(heading_text(100000), "Generation: 100000\n");
    assert_eq!(
        heading_text(u64::MAX),
        "Generation: 18446744073709551615\n"
    );
}
