use tictactoe::app::App;
use tictactoe::app::Direction;
use tictactoe::app::SymbolColor;

/// Walks the selection cursor to `cell`, one clamped move at a time.
fn go_to(app: &mut App, cell: u8) {
    while app.selected_cell_id / 3 < cell / 3 {
        app.move_selection(Direction::Down);
    }
    while app.selected_cell_id / 3 > cell / 3 {
        app.move_selection(Direction::Up);
    }
    while app.selected_cell_id % 3 < cell % 3 {
        app.move_selection(Direction::Right);
    }
    while app.selected_cell_id % 3 > cell % 3 {
        app.move_selection(Direction::Left);
    }
}

fn play_at(app: &mut App, cell: u8) {
    go_to(app, cell);
    app.play_on_selection();
}

#[test]
fn test_no_winners() {
    let mut app = App::new();

    app.board.set_play(0, 1);
    app.board.set_play(1, 1);

    assert_eq!(app.check_for_winner(), None);
}

#[test]
fn test_winning_horizontal() {
    let mut app = App::new();

    app.board.set_play(0, 1);
    app.board.set_play(1, 1);
    app.board.set_play(2, 1);

    assert_eq!(app.check_for_winner(), Some(0));
}

#[test]
fn test_winning_vertical() {
    let mut app = App::new();

    app.board.set_play(0, -1);
    app.board.set_play(3, -1);
    app.board.set_play(6, -1);

    assert_eq!(app.check_for_winner(), Some(1));
}

#[test]
fn test_winning_top_left_diagonal() {
    let mut app = App::new();

    app.board.set_play(0, -1);
    app.board.set_play(4, -1);
    app.board.set_play(8, -1);

    assert_eq!(app.check_for_winner(), Some(1));
}

#[test]
fn test_winning_top_right_diagonal() {
    let mut app = App::new();

    app.board.set_play(2, 1);
    app.board.set_play(4, 1);
    app.board.set_play(6, 1);

    assert_eq!(app.check_for_winner(), Some(0));
}

#[test]
fn test_initial_state() {
    let app = App::new();

    for cell in 0..9u8 {
        assert!(app.board.is_cell_empty(cell));
    }
    assert_eq!(app.missing_free_cells, 9);
    assert_eq!(app.selected_cell_id, 4);
    assert_eq!(app.current_player_index, 0);
    assert_eq!(app.winner_index, None);
    assert!(!app.game_over);
    assert!(!app.should_quit);
    assert_eq!(app.get_current_player().play_symbol, 'x');
    assert!(app.get_winner().is_none());
}

#[test]
fn test_full_board_without_triple_is_not_a_win() {
    let mut app = App::new();

    let marks: [i32; 9] = [1, -1, 1, 1, -1, -1, -1, 1, 1];
    for cell in 0..9u8 {
        app.board.set_play(cell, marks[cell as usize]);
    }

    assert_eq!(app.check_for_winner(), None);
}

#[test]
fn test_tie_game() {
    let mut app = App::new();

    // Alternating plays that fill the board with no aligned triple.
    for cell in [0u8, 1, 2, 4, 3, 5, 7, 6, 8] {
        play_at(&mut app, cell);
    }

    assert!(app.game_over);
    assert!(app.get_winner().is_none());
    assert_eq!(app.missing_free_cells, 0);
}

#[test]
fn test_row_win_ends_game() {
    let mut app = App::new();

    for cell in [0u8, 3, 1, 4, 2] {
        play_at(&mut app, cell);
    }

    assert!(app.game_over);
    assert_eq!(app.winner_index, Some(0));
    let winner = app.get_winner().expect("the first player swept the top row");
    assert_eq!(winner.play_symbol, 'x');
    assert_eq!(winner.symbol_color, SymbolColor::Green);
    // The turn does not advance after a winning move.
    assert_eq!(app.current_player_index, 0);
}

#[test]
fn test_move_selection_clamps_at_edges() {
    let mut app = App::new();

    app.move_selection(Direction::Left);
    assert_eq!(app.selected_cell_id, 3);
    app.move_selection(Direction::Left);
    assert_eq!(app.selected_cell_id, 3);
    app.move_selection(Direction::Left);
    assert_eq!(app.selected_cell_id, 3);

    app.move_selection(Direction::Up);
    assert_eq!(app.selected_cell_id, 0);
    app.move_selection(Direction::Up);
    assert_eq!(app.selected_cell_id, 0);

    app.move_selection(Direction::Down);
    assert_eq!(app.selected_cell_id, 3);
    app.move_selection(Direction::Down);
    assert_eq!(app.selected_cell_id, 6);
    app.move_selection(Direction::Down);
    assert_eq!(app.selected_cell_id, 6);

    app.move_selection(Direction::Right);
    assert_eq!(app.selected_cell_id, 7);
    app.move_selection(Direction::Right);
    assert_eq!(app.selected_cell_id, 8);
    app.move_selection(Direction::Right);
    assert_eq!(app.selected_cell_id, 8);
}

#[test]
fn test_play_on_occupied_cell_is_noop() {
    let mut app = App::new();

    app.play_on_selection();
    assert_eq!(app.board.get_play(4), 1);
    assert_eq!(app.missing_free_cells, 8);
    assert_eq!(app.current_player_index, 1);

    // The selected cell is already occupied: nothing may change.
    app.play_on_selection();
    assert_eq!(app.board.get_play(4), 1);
    assert_eq!(app.missing_free_cells, 8);
    assert_eq!(app.current_player_index, 1);
    assert!(!app.game_over);
}

#[test]
fn test_turn_alternates_between_players() {
    let mut app = App::new();

    assert_eq!(app.get_current_player().play_symbol, 'x');
    play_at(&mut app, 4);
    assert_eq!(app.get_current_player().play_symbol, 'o');
    play_at(&mut app, 0);
    assert_eq!(app.get_current_player().play_symbol, 'x');
}

#[test]
fn test_get_play_maps_marks_to_symbols() {
    let mut app = App::new();

    assert_eq!(app.get_play(4), (' ', SymbolColor::Reset));
    play_at(&mut app, 4);
    assert_eq!(app.get_play(4), ('x', SymbolColor::Green));
    play_at(&mut app, 0);
    assert_eq!(app.get_play(0), ('o', SymbolColor::Red));
    assert_eq!(app.get_play(8), (' ', SymbolColor::Reset));
}

#[test]
fn test_restart_restores_initial_state() {
    let mut app = App::new();

    for cell in [0u8, 3, 1, 4, 2] {
        play_at(&mut app, cell);
    }
    assert!(app.game_over);

    app.restart();

    for cell in 0..9u8 {
        assert!(app.board.is_cell_empty(cell));
    }
    assert_eq!(app.missing_free_cells, 9);
    assert_eq!(app.selected_cell_id, 4);
    assert_eq!(app.current_player_index, 0);
    assert_eq!(app.winner_index, None);
    assert!(!app.game_over);
    assert!(!app.should_quit);
    assert_eq!(app.get_current_player().play_symbol, 'x');
    assert_eq!(app.get_current_player().symbol_color, SymbolColor::Green);
}

#[test]
fn test_no_moves_or_plays_once_game_over() {
    let mut app = App::new();

    for cell in [0u8, 3, 1, 4, 2] {
        play_at(&mut app, cell);
    }
    assert!(app.game_over);
    assert_eq!(app.missing_free_cells, 4);

    let selected = app.selected_cell_id;
    app.move_selection(Direction::Down);
    assert_eq!(app.selected_cell_id, selected);
    app.play_on_selection();
    assert_eq!(app.missing_free_cells, 4);
    assert_eq!(app.winner_index, Some(0));
}
