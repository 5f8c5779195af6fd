use conways_game_of_life::game::{cells_from_draws, Game};

fn fixture() -> Vec<Vec<bool>> {
    vec![
        vec![false, true, false, true, false],
        vec![true, true, true, false, true],
        vec![false, false, true, false, false],
        vec![true, false, false, true, true],
        vec![false, true, false, true, false],
    ]
}

fn game_of(cells: Vec<Vec<bool>>) -> Game {
    let ncols = cells.len();
    let nrows = if ncols == 0 { 0 } else { cells[0].len() };
    let mut game = Game::new(ncols, nrows);
    assert!(game.set_cells(cells));
    game
}

fn live_cells(game: &Game) -> usize {
    game.snapshot()
        .iter()
        .map(|column| column.iter().filter(|cell| **cell).count())
        .sum()
}

#[test]
fn test_create_new_game() {
    let game = Game::new(40, 30);
    assert_eq!(game.snapshot().len(), 40);
    assert_eq!(game.snapshot()[0].len(), 30);
}

#[test]
fn test_count_neighbors() {
    let mut game = Game::new(5, 5);
    assert!(game.set_cells(vec![
        vec![false, true, false, true, false],
        vec![true, true, true, false, true],
        vec![false, false, true, false, false],
        vec![true, false, false, true, true],
        vec![false, true, false, true, false],
    ]));
    assert_eq!(game.count_neighbors(0, 0), 3);
    assert_eq!(game.count_neighbors(0, 4), 2);
    assert_eq!(game.count_neighbors(2, 2), 3);
    assert_eq!(game.count_neighbors(4, 4), 3);
}

#[test]
fn test_update() {
    let mut game = Game::new(5, 5);
    assert!(game.set_cells(vec![
        vec![false, true, false, true, false],
        vec![true, true, true, false, true],
        vec![false, false, true, false, false],
        vec![true, false, false, true, true],
        vec![false, true, false, true, false],
    ]));
    game.update();
    let expected = vec![
        vec![true, true, false, true, false],
        vec![true, false, false, false, false],
        vec![true, false, true, false, true],
        vec![false, true, false, true, true],
        vec![false, false, true, true, true],
    ];
    assert_eq!(*game.snapshot(), expected);
}

#[test]
fn new_game_has_every_cell_and_all_dead() {
    let game = Game::new(3, 2);
    assert_eq!(*game.snapshot(), vec![vec![false, false]; 3]);
    let cells: usize = game.snapshot().iter().map(|column| column.len()).sum();
    assert_eq!(cells, 6);
    assert_eq!(live_cells(&game), 0);
}

#[test]
fn new_game_of_one_cell() {
    let game = Game::new(1, 1);
    assert_eq!(*game.snapshot(), vec![vec![false]]);
    assert_eq!(game.count_neighbors(0, 0), 0);
}

#[test]
fn new_game_without_columns_or_rows() {
    let mut no_columns = Game::new(0, 7);
    assert!(no_columns.snapshot().is_empty());
    no_columns.toggle_cell_state(0, 0);
    no_columns.update();
    no_columns.randomize();
    assert!(no_columns.snapshot().is_empty());
    assert_eq!(no_columns.count_neighbors(0, 0), 0);

    let mut no_rows = Game::new(4, 0);
    assert_eq!(*no_rows.snapshot(), vec![Vec::<bool>::new(); 4]);
    no_rows.toggle_cell_state(0, 0);
    no_rows.update();
    no_rows.randomize();
    assert_eq!(*no_rows.snapshot(), vec![Vec::<bool>::new(); 4]);
}

#[test]
fn toggle_flips_one_cell() {
    let mut game = Game::new(3, 4);
    game.toggle_cell_state(2, 1);
    let mut expected = vec![vec![false; 4]; 3];
    expected[2][1] = true;
    assert_eq!(*game.snapshot(), expected);
}

#[test]
fn toggle_twice_restores_the_cell() {
    let mut game = game_of(fixture());
    for x in 0..5 {
        for y in 0..5 {
            game.toggle_cell_state(x, y);
            assert_ne!(*game.snapshot(), fixture());
            assert_eq!(game.snapshot()[x][y], !fixture()[x][y]);
            game.toggle_cell_state(x, y);
            assert_eq!(*game.snapshot(), fixture());
        }
    }
}

#[test]
fn toggle_outside_changes_nothing() {
    let mut game = game_of(fixture());
    game.toggle_cell_state(5, 0);
    game.toggle_cell_state(0, 5);
    game.toggle_cell_state(5, 5);
    game.toggle_cell_state(usize::MAX, 2);
    game.toggle_cell_state(2, usize::MAX);
    assert_eq!(*game.snapshot(), fixture());
}

#[test]
fn toggle_uses_column_then_row() {
    let mut game = Game::new(2, 3);
    game.toggle_cell_state(1, 2);
    assert_eq!(
        *game.snapshot(),
        vec![vec![false, false, false], vec![false, false, true]]
    );
    game.toggle_cell_state(2, 1);
    assert_eq!(
        *game.snapshot(),
        vec![vec![false, false, false], vec![false, false, true]]
    );
}

#[test]
fn count_neighbors_of_every_fixture_cell() {
    let game = game_of(fixture());
    let expected: Vec<Vec<usize>> = vec![
        vec![3, 3, 4, 2, 2],
        vec![2, 4, 4, 4, 1],
        vec![3, 5, 3, 5, 3],
        vec![1, 3, 4, 3, 2],
        vec![2, 1, 3, 2, 3],
    ];
    for x in 0..5 {
        for y in 0..5 {
            assert_eq!(game.count_neighbors(x as i32, y as i32), expected[x][y]);
        }
    }
}

#[test]
fn count_neighbors_does_not_count_the_cell_itself() {
    let mut game = Game::new(3, 3);
    game.toggle_cell_state(1, 1);
    assert_eq!(game.count_neighbors(1, 1), 0);
    assert_eq!(game.count_neighbors(0, 0), 1);
    assert_eq!(game.count_neighbors(2, 1), 1);
}

#[test]
fn count_neighbors_on_a_full_board() {
    let game = game_of(vec![vec![true; 4]; 5]);
    assert_eq!(game.count_neighbors(0, 0), 3);
    assert_eq!(game.count_neighbors(4, 0), 3);
    assert_eq!(game.count_neighbors(0, 3), 3);
    assert_eq!(game.count_neighbors(4, 3), 3);
    assert_eq!(game.count_neighbors(2, 0), 5);
    assert_eq!(game.count_neighbors(0, 2), 5);
    assert_eq!(game.count_neighbors(4, 1), 5);
    assert_eq!(game.count_neighbors(3, 3), 5);
    assert_eq!(game.count_neighbors(1, 1), 8);
    assert_eq!(game.count_neighbors(3, 2), 8);
}

#[test]
fn count_neighbors_at_a_live_corner() {
    let mut game = Game::new(3, 3);
    game.toggle_cell_state(0, 0);
    assert_eq!(game.count_neighbors(0, 0), 0);
    game.toggle_cell_state(2, 2);
    assert_eq!(game.count_neighbors(0, 0), 0);
    assert_eq!(game.count_neighbors(2, 2), 0);
    assert_eq!(game.count_neighbors(1, 1), 2);
    game.toggle_cell_state(0, 2);
    assert_eq!(game.count_neighbors(0, 0), 0);
    assert_eq!(game.count_neighbors(0, 1), 2);
}

#[test]
fn count_neighbors_does_not_wrap_around() {
    let mut game = Game::new(4, 4);
    game.toggle_cell_state(3, 0);
    game.toggle_cell_state(0, 3);
    game.toggle_cell_state(3, 3);
    assert_eq!(game.count_neighbors(0, 0), 0);
    assert_eq!(game.count_neighbors(3, 1), 1);
    assert_eq!(game.count_neighbors(1, 3), 1);
}

#[test]
fn count_neighbors_around_positions_off_the_board() {
    let game = game_of(vec![vec![true; 3]; 3]);
    assert_eq!(game.count_neighbors(-1, -1), 1);
    assert_eq!(game.count_neighbors(-1, 1), 3);
    assert_eq!(game.count_neighbors(1, -1), 3);
    assert_eq!(game.count_neighbors(3, 3), 1);
    assert_eq!(game.count_neighbors(3, 0), 2);
    assert_eq!(game.count_neighbors(-2, 0), 0);
    assert_eq!(game.count_neighbors(4, 1), 0);
    assert_eq!(game.count_neighbors(i32::MAX, i32::MAX), 0);
    assert_eq!(game.count_neighbors(i32::MIN, i32::MIN), 0);
    assert_eq!(game.count_neighbors(i32::MIN, 1), 0);
    assert_eq!(game.count_neighbors(1, i32::MAX), 0);
}

#[test]
fn update_applies_the_rule_to_a_live_cell() {
    for neighbors in 0..=8usize {
        let mut column_above = vec![false; 3];
        let mut column_below = vec![false; 3];
        let mut middle = vec![false, true, false];
        let mut placed = 0;
        for slot in 0..8 {
            if placed == neighbors {
                break;
            }
            match slot {
                0..=2 => column_above[slot] = true,
                3..=5 => column_below[slot - 3] = true,
                6 => middle[0] = true,
                _ => middle[2] = true,
            }
            placed += 1;
        }
        let mut game = game_of(vec![column_above, middle, column_below]);
        assert_eq!(game.count_neighbors(1, 1), neighbors);
        game.update();
        assert_eq!(game.snapshot()[1][1], neighbors == 2 || neighbors == 3);
    }
}

#[test]
fn update_applies_the_rule_to_a_dead_cell() {
    for neighbors in 0..=8usize {
        let mut column_above = vec![false; 3];
        let mut column_below = vec![false; 3];
        let mut middle = vec![false, false, false];
        let mut placed = 0;
        for slot in 0..8 {
            if placed == neighbors {
                break;
            }
            match slot {
                0..=2 => column_above[slot] = true,
                3..=5 => column_below[slot - 3] = true,
                6 => middle[0] = true,
                _ => middle[2] = true,
            }
            placed += 1;
        }
        let mut game = game_of(vec![column_above, middle, column_below]);
        assert_eq!(game.count_neighbors(1, 1), neighbors);
        game.update();
        assert_eq!(game.snapshot()[1][1], neighbors == 3);
    }
}

#[test]
fn update_turns_a_blinker() {
    let upright = vec![
        vec![false, false, false],
        vec![true, true, true],
        vec![false, false, false],
    ];
    let level = vec![
        vec![false, true, false],
        vec![false, true, false],
        vec![false, true, false],
    ];
    let mut game = game_of(upright.clone());
    game.update();
    assert_eq!(*game.snapshot(), level);
    game.update();
    assert_eq!(*game.snapshot(), upright);
}

#[test]
fn update_keeps_a_block() {
    let block = vec![
        vec![false, false, false, false],
        vec![false, true, true, false],
        vec![false, true, true, false],
        vec![false, false, false, false],
    ];
    let mut game = game_of(block.clone());
    game.update();
    assert_eq!(*game.snapshot(), block);
}

#[test]
fn update_reads_the_old_generation_only() {
    let mut game = game_of(vec![vec![true, true], vec![true, false]]);
    game.update();
    assert_eq!(*game.snapshot(), vec![vec![true, true], vec![true, true]]);
    let mut lone = game_of(vec![vec![true, true, false, false]]);
    lone.update();
    assert_eq!(*lone.snapshot(), vec![vec![false, false, false, false]]);
}

#[test]
fn update_keeps_the_dimensions() {
    let mut game = game_of(vec![vec![true, false, true]; 7]);
    game.update();
    assert_eq!(game.snapshot().len(), 7);
    for column in game.snapshot() {
        assert_eq!(column.len(), 3);
    }
}

#[test]
fn dead_board_stays_dead() {
    let mut game = Game::new(6, 4);
    for _ in 0..25 {
        game.update();
        assert_eq!(*game.snapshot(), vec![vec![false; 4]; 6]);
    }
}

#[test]
fn set_cells_takes_cells_of_the_same_dimensions() {
    let mut game = Game::new(2, 3);
    let cells = vec![vec![true, false, true], vec![false, true, false]];
    assert!(game.set_cells(cells.clone()));
    assert_eq!(*game.snapshot(), cells);
}

#[test]
fn set_cells_turns_down_other_dimensions() {
    let mut game = Game::new(2, 3);
    game.toggle_cell_state(1, 1);
    let before = game.snapshot().clone();
    assert!(!game.set_cells(vec![vec![true; 3]; 3]));
    assert!(!game.set_cells(vec![vec![true; 3]]));
    assert!(!game.set_cells(vec![vec![true; 2]; 2]));
    assert!(!game.set_cells(vec![vec![true; 3], vec![true; 4]]));
    assert!(!game.set_cells(vec![vec![true; 2], vec![true; 3]]));
    assert!(!game.set_cells(Vec::new()));
    assert_eq!(*game.snapshot(), before);
}

#[test]
fn randomize_keeps_the_dimensions() {
    let mut game = Game::new(9, 4);
    game.randomize();
    assert_eq!(game.snapshot().len(), 9);
    for column in game.snapshot() {
        assert_eq!(column.len(), 4);
    }
}

#[test]
fn randomize_draws_each_cell_afresh() {
    let mut game = Game::new(64, 64);
    game.randomize();
    let first = game.snapshot().clone();
    let alive = live_cells(&game);
    assert!(alive > 0);
    assert!(alive < 64 * 64);
    game.randomize();
    assert_ne!(*game.snapshot(), first);
}

#[test]
fn new_random_has_the_dimensions_asked_for() {
    let game = Game::new_random(64, 48);
    assert_eq!(game.snapshot().len(), 64);
    for column in game.snapshot() {
        assert_eq!(column.len(), 48);
    }
    let alive = live_cells(&game);
    assert!(alive > 0);
    assert!(alive < 64 * 48);
    let other = Game::new_random(64, 48);
    assert_ne!(*game.snapshot(), *other.snapshot());
}

#[test]
fn snapshot_follows_the_board() {
    let mut game = Game::new(2, 2);
    assert_eq!(*game.snapshot(), vec![vec![false, false], vec![false, false]]);
    game.toggle_cell_state(0, 1);
    assert_eq!(*game.snapshot(), vec![vec![false, true], vec![false, false]]);
}

#[test]
fn cells_from_draws_fills_column_by_column() {
    let draws = vec![true, false, false, true, true, false];
    assert_eq!(
        cells_from_draws(2, 3, &draws),
        vec![vec![true, false, false], vec![true, true, false]]
    );
    assert_eq!(
        cells_from_draws(3, 2, &draws),
        vec![vec![true, false], vec![false, true], vec![true, false]]
    );
    assert_eq!(cells_from_draws(1, 6, &draws), vec![draws.clone()]);
    assert_eq!(
        cells_from_draws(6, 1, &draws),
        vec![vec![true], vec![false], vec![false], vec![true], vec![true], vec![false]]
    );
}

#[test]
fn cells_from_draws_gives_each_cell_its_own_draw() {
    let (ncols, nrows) = (5, 7);
    for chosen in 0..ncols * nrows {
        let mut draws = vec![false; ncols * nrows];
        draws[chosen] = true;
        let cells = cells_from_draws(ncols, nrows, &draws);
        for x in 0..ncols {
            for y in 0..nrows {
                assert_eq!(cells[x][y], x * nrows + y == chosen);
            }
        }
    }
}

#[test]
fn cells_from_draws_without_cells() {
    let none: Vec<bool> = Vec::new();
    assert_eq!(cells_from_draws(0, 0, &none), Vec::<Vec<bool>>::new());
    assert_eq!(cells_from_draws(0, 9, &none), Vec::<Vec<bool>>::new());
    assert_eq!(cells_from_draws(3, 0, &none), vec![Vec::<bool>::new(); 3]);
}

#[test]
fn cells_from_draws_fit_the_game() {
    let draws = vec![false, true, true, false, true, true];
    let mut game = Game::new(3, 2);
    assert!(game.set_cells(cells_from_draws(3, 2, &draws)));
    assert_eq!(
        *game.snapshot(),
        vec![vec![false, true], vec![true, false], vec![true, true]]
    );
}
