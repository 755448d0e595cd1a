use labyrinth::{input, Command, Game, GameStatus, Grid};

fn open_board() -> Game {
    Game::from_board("XXXXXXXX\nX     GX\nX M  T X\nX      X\nXXXXXXXX").unwrap()
}

fn markers_on(game: &Game) -> (usize, usize, usize) {
    let mut theseus = 0;
    let mut minotaur = 0;
    let mut goal = 0;
    for (row, line) in game.render().iter().enumerate() {
        for col in 0..line.len() {
            if game.is_theseus(row, col) {
                theseus += 1;
            }
            if game.is_minotaur(row, col) {
                minotaur += 1;
            }
            if game.is_goal(row, col) {
                goal += 1;
            }
        }
    }
    (theseus, minotaur, goal)
}

#[test]
fn minotaur_closes_the_column_distance_first() {
    let mut game = open_board();
    assert_eq!(game.minotaur(), (2, 2));
    assert_eq!(game.theseus(), (2, 5));
    assert!(game.minotaur_can_move());
    game.minotaur_move();
    assert_eq!(game.minotaur(), (2, 3));
    assert!(game.is_minotaur(2, 3));
    assert!(game.is_empty(2, 2));
    assert_eq!(game.theseus(), (2, 5));
}

#[test]
fn minotaur_prefers_columns_when_both_axes_differ() {
    let mut game = Game::from_board("XXXXXX\nXM   X\nX    X\nX  TGX\nXXXXXX").unwrap();
    game.minotaur_move();
    assert_eq!(game.minotaur(), (1, 2));
    game.minotaur_move();
    assert_eq!(game.minotaur(), (1, 3));
    game.minotaur_move();
    assert_eq!(game.minotaur(), (2, 3));
    assert_eq!(game.status(), GameStatus::Continue);
    game.minotaur_move();
    assert_eq!(game.minotaur(), (3, 3));
    assert_eq!(game.status(), GameStatus::Lose);
}

#[test]
fn minotaur_walks_left_and_up() {
    let mut game = Game::from_board("XXXXX\nXT GX\nX   X\nX  MX\nXXXXX").unwrap();
    game.minotaur_move();
    assert_eq!(game.minotaur(), (3, 2));
    game.minotaur_move();
    assert_eq!(game.minotaur(), (3, 1));
    game.minotaur_move();
    assert_eq!(game.minotaur(), (2, 1));
    game.minotaur_move();
    assert_eq!(game.minotaur(), (1, 1));
    assert_eq!(game.status(), GameStatus::Lose);
}

#[test]
fn minotaur_takes_the_row_step_when_a_wall_bars_the_column_step() {
    let mut game = Game::from_board("XXXXXX\nXMX  X\nX  TGX\nXXXXXX").unwrap();
    game.minotaur_move();
    assert_eq!(game.minotaur(), (2, 1));
    assert!(game.is_empty(1, 1));
    assert!(game.is_wall(1, 2));
}

#[test]
fn minotaur_waits_when_both_steps_are_barred() {
    let mut game = Game::from_board("XXXXXX\nXMX  X\nXX TGX\nXXXXXX").unwrap();
    let before = game.render();
    game.minotaur_move();
    assert_eq!(game.minotaur(), (1, 1));
    assert_eq!(game.render(), before);
}

#[test]
fn minotaur_waits_behind_a_wall_in_its_own_row() {
    let mut game = Game::from_board("XXXXXXX\nXMX TGX\nXXXXXXX").unwrap();
    game.minotaur_move();
    assert_eq!(game.minotaur(), (1, 1));
    assert!(game.is_minotaur(1, 1));
}

#[test]
fn theseus_walks_in_all_four_directions() {
    let mut game = open_board();
    game.theseus_move(Command::Up);
    assert_eq!(game.theseus(), (1, 5));
    assert!(game.is_theseus(1, 5));
    assert!(game.is_empty(2, 5));
    game.theseus_move(Command::Left);
    assert_eq!(game.theseus(), (1, 4));
    game.theseus_move(Command::Down);
    assert_eq!(game.theseus(), (2, 4));
    game.theseus_move(Command::Right);
    assert_eq!(game.theseus(), (2, 5));
    assert!(game.is_theseus(2, 5));
    assert!(game.is_empty(2, 4));
}

#[test]
fn a_wall_stops_theseus() {
    let mut game = Game::from_board("XXXXX\nXT GX\nX M X\nXXXXX").unwrap();
    let before = game.render();
    game.theseus_move(Command::Up);
    assert_eq!(game.theseus(), (1, 1));
    assert_eq!(game.render(), before);
    game.theseus_move(Command::Left);
    assert_eq!(game.theseus(), (1, 1));
    assert_eq!(game.minotaur(), (2, 2));
    assert_eq!(game.goal(), (1, 3));
    assert_eq!(game.render(), before);
}

#[test]
fn skip_changes_nothing() {
    let mut game = open_board();
    let before = game.render();
    game.theseus_move(Command::Skip);
    assert_eq!(game.theseus(), (2, 5));
    assert_eq!(game.minotaur(), (2, 2));
    assert_eq!(game.render(), before);
}

#[test]
fn skip_changes_nothing_on_a_board_without_walls() {
    let mut game = Game::from_board("TMG").unwrap();
    assert!(game.theseus_can_move(Command::Skip));
    game.theseus_move(Command::Skip);
    assert_eq!(game.theseus(), (0, 0));
    assert_eq!(game.render(), vec![vec!['T', 'M', 'G']]);
}

#[test]
fn markers_stay_single_through_a_run_of_moves() {
    let mut game = Game::from_board("XXXXXXX\nXT    X\nX  X  X\nX    MX\nX G   X\nXXXXXXX").unwrap();
    let commands = [Command::Right, Command::Down, Command::Skip, Command::Up, Command::Left];
    for command in commands {
        assert!(game.theseus_can_move(command));
        game.theseus_move(command);
        assert_eq!(markers_on(&game), (1, 1, 1));
        assert!(game.minotaur_can_move());
        game.minotaur_move();
        assert_eq!(markers_on(&game), (1, 1, 1));
        let (row, col) = game.theseus();
        assert!(game.is_theseus(row, col));
        let (row, col) = game.minotaur();
        assert!(game.is_minotaur(row, col));
        let (row, col) = game.goal();
        assert!(game.is_goal(row, col));
    }
}

#[test]
fn reaching_the_goal_wins() {
    let mut game = open_board();
    assert_eq!(game.status(), GameStatus::Continue);
    game.theseus_move(Command::Up);
    assert_eq!(game.status(), GameStatus::Continue);
    game.theseus_move(Command::Right);
    assert_eq!(game.theseus(), game.goal());
    assert_eq!(game.status(), GameStatus::Win);
}

#[test]
fn the_goal_wins_even_under_the_minotaur() {
    let mut game = Game::from_board("XXXXXX\nXM TGX\nXXXXXX").unwrap();
    game.theseus_move(Command::Right);
    assert_eq!(game.status(), GameStatus::Win);
    game.minotaur_move();
    game.minotaur_move();
    game.minotaur_move();
    assert_eq!(game.minotaur(), game.theseus());
    assert_eq!(game.theseus(), game.goal());
    assert_eq!(game.status(), GameStatus::Win);
}

#[test]
fn being_caught_loses() {
    let mut game = Game::from_board("XXXXXX\nXGTM X\nXXXXXX").unwrap();
    game.minotaur_move();
    assert_eq!(game.minotaur(), (1, 2));
    assert_eq!(game.status(), GameStatus::Lose);
}

#[test]
fn steps_off_the_board_are_told_apart() {
    let game = Game::from_board("TM\nG").unwrap();
    assert!(!game.theseus_can_move(Command::Up));
    assert!(!game.theseus_can_move(Command::Left));
    assert!(game.theseus_can_move(Command::Right));
    assert!(game.theseus_can_move(Command::Down));
    assert!(game.theseus_can_move(Command::Skip));
    let game = Game::from_board("M\n\nGT").unwrap();
    assert!(!game.minotaur_can_move());
    let game = Game::from_board("M \n\nGT").unwrap();
    assert!(game.minotaur_can_move());
    let game = Game::from_board("MX\n\nGT").unwrap();
    assert!(!game.minotaur_can_move());
}

#[test]
fn a_cloned_game_goes_its_own_way() {
    let mut game = open_board();
    let kept = game.clone();
    game.theseus_move(Command::Left);
    assert_eq!(game.theseus(), (2, 4));
    assert_eq!(kept.theseus(), (2, 5));
    assert!(kept.is_theseus(2, 5));
    assert!(game.is_empty(2, 5));
}

#[test]
fn input_tokens() {
    assert_eq!(input("w"), Some(Command::Up));
    assert_eq!(input("a"), Some(Command::Left));
    assert_eq!(input("s"), Some(Command::Down));
    assert_eq!(input("d"), Some(Command::Right));
}

#[test]
fn other_input_skips() {
    assert_eq!(input(""), Some(Command::Skip));
    assert_eq!(input("x"), Some(Command::Skip));
    assert_eq!(input("W"), Some(Command::Skip));
    assert_eq!(input("ww"), Some(Command::Skip));
    assert_eq!(input(" w"), Some(Command::Skip));
    assert_eq!(input("up"), Some(Command::Skip));
    assert_eq!(input("\u{e9}"), Some(Command::Skip));
}

#[test]
fn grid_relocation_clears_and_overwrites() {
    let mut grid = Grid::new(vec![vec!['T', ' ', 'X'], vec!['G']]).unwrap();
    assert!(grid.is_theseus(0, 0));
    assert!(grid.is_empty(0, 1));
    assert!(grid.is_wall(0, 2));
    assert!(grid.is_goal(1, 0));
    grid.move_entity('T', 0, 0, 0, 2);
    assert!(grid.is_empty(0, 0));
    assert!(grid.is_theseus(0, 2));
    assert!(!grid.is_wall(0, 2));
    grid.move_entity('M', 0, 1, 1, 0);
    assert!(grid.is_minotaur(1, 0));
    assert!(!grid.is_goal(1, 0));
    assert!(grid.is_empty(0, 1));
    assert_eq!(grid.render(), vec![vec![' ', ' ', 'T'], vec!['M']]);
}

#[test]
fn grid_relocation_onto_its_own_cell_keeps_the_symbol() {
    let mut grid = Grid::new(vec![vec!['M', ' ']]).unwrap();
    grid.move_entity('M', 0, 0, 0, 0);
    assert!(grid.is_minotaur(0, 0));
    assert!(grid.is_empty(0, 1));
}

#[test]
fn grid_bounds() {
    let grid = Grid::new(vec![vec!['a', 'b'], vec![], vec!['c']]).unwrap();
    assert!(grid.contains(0, 0));
    assert!(grid.contains(0, 1));
    assert!(!grid.contains(0, 2));
    assert!(!grid.contains(1, 0));
    assert!(grid.contains(2, 0));
    assert!(!grid.contains(3, 0));
    let empty = Grid::new(Vec::new()).unwrap();
    assert!(!empty.contains(0, 0));
}

#[test]
fn a_bordered_board_is_enclosed() {
    assert!(open_board().is_enclosed());
    assert!(Game::from_board("XXXXX\nXTMGX\nXXXXX").unwrap().is_enclosed());
    assert!(Game::from_board("XXX\nXTXXX\nXM GX\nXXXXX").unwrap().is_enclosed());
    assert!(Game::from_board("XXXX\nXTMGX\nXXXX").unwrap().is_enclosed());
}

#[test]
fn a_gap_in_the_walls_is_found() {
    assert!(!Game::from_board("TMG").unwrap().is_enclosed());
    assert!(!Game::from_board("XXXXX\nXTMG \nXXXXX").unwrap().is_enclosed());
    assert!(!Game::from_board("XXXXX\nXTMGX\nXX XX").unwrap().is_enclosed());
    assert!(!Game::from_board("XXX\nXTMGX\nXXXXX").unwrap().is_enclosed());
    assert!(!Game::from_board("XXXXX\nXTMGX\nXXX").unwrap().is_enclosed());
    assert!(!Game::from_board("XXXXX\n TMGX\nXXXXX").unwrap().is_enclosed());
}

#[test]
fn an_enclosed_board_stays_enclosed_and_every_turn_can_be_taken() {
    let mut game = Game::from_board("XXXXXXX\nXT    X\nX XX  X\nX    MX\nXG    X\nXXXXXXX").unwrap();
    assert!(game.is_enclosed());
    let commands = [
        Command::Up,
        Command::Left,
        Command::Right,
        Command::Right,
        Command::Down,
        Command::Down,
        Command::Skip,
        Command::Left,
    ];
    for command in commands {
        assert!(game.theseus_can_move(command));
        game.theseus_move(command);
        assert!(game.minotaur_can_move());
        game.minotaur_move();
        assert!(game.is_enclosed());
    }
}

#[test]
fn grid_walls() {
    let closed = Grid::new(vec![vec!['X', 'X', 'X'], vec!['X', ' ', 'X'], vec!['X', 'X', 'X']]).unwrap();
    assert!(closed.is_walled_in());
    let open = Grid::new(vec![vec!['X', 'X', 'X'], vec!['X', ' ', ' '], vec!['X', 'X', 'X']]).unwrap();
    assert!(!open.is_walled_in());
    let all_walls = Grid::new(vec![vec!['X'], vec![], vec!['X', 'X']]).unwrap();
    assert!(all_walls.is_walled_in());
    let none = Grid::new(Vec::new()).unwrap();
    assert!(none.is_walled_in());
    let lone = Grid::new(vec![vec![' ']]).unwrap();
    assert!(!lone.is_walled_in());
}

#[test]
fn a_cloned_grid_holds_the_same_rows() {
    let grid = Grid::new(vec![vec!['T', 'X'], vec![], vec!['G']]).unwrap();
    let mut copy = grid.clone();
    assert_eq!(copy.render(), grid.render());
    copy.move_entity('T', 0, 0, 2, 0);
    assert!(grid.is_theseus(0, 0));
    assert!(grid.is_goal(2, 0));
    assert!(copy.is_theseus(2, 0));
    assert!(copy.is_empty(0, 0));
}
