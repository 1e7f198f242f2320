use tic_tac_toe::board::{PlayerMove, SquarePosition};
use tic_tac_toe::game::{Game, Input, Phase, Reply};

const PROMPT_X: &str = "Player \"X\" to move!\n
top left    (1)  top middle    (2)     top right (3)
center left (4)  center middle (5)  center right (6)
bottom left (7)  bottom middle (8)  bottom right (9)
            \n";

const PROMPT_O: &str = "Player \"O\" to move!\n
top left    (1)  top middle    (2)     top right (3)
center left (4)  center middle (5)  center right (6)
bottom left (7)  bottom middle (8)  bottom right (9)
            \n";

fn feed(game: Game, lines: &[&str]) -> (Game, Vec<Reply>) {
    let mut game = game;
    let mut replies = Vec::new();
    for line in lines {
        let (next, reply) = game.step(line);
        game = next;
        replies.push(reply);
    }
    (game, replies)
}

#[test]
fn a_game_starts_with_an_empty_board_and_x_to_move() {
    let game = Game::new();
    assert_eq!(game.phase(), Phase::Playing);
    assert_eq!(game.board().turn_num(), 0);
    assert_eq!(*game.board().get_player_turn(), PlayerMove::X);
}

#[test]
fn a_line_with_a_number_and_white_space_names_a_square() {
    assert_eq!(Game::get_player_move_position("5\n"), Some(SquarePosition::CenterMiddle));
    assert_eq!(Game::get_player_move_position("  1  \r\n"), Some(SquarePosition::TopLeft));
    assert_eq!(Game::get_player_move_position("\t9"), Some(SquarePosition::BottomRight));
    assert_eq!(Game::get_player_move_position("3"), Some(SquarePosition::TopRight));
}

#[test]
fn white_space_of_any_script_is_set_aside_at_the_ends_only() {
    assert_eq!(
        Game::get_player_move_position("\u{2003}5\u{3000}\n"),
        Some(SquarePosition::CenterMiddle)
    );
    assert_eq!(Game::get_player_move_position("5\u{2003}5\n"), None);
    assert!(Game::play_again("\u{a0}y\u{85}"));
    assert!(!Game::play_again("_y_"));
}

#[test]
fn a_line_without_a_square_number_names_none() {
    assert_eq!(Game::get_player_move_position("\n"), None);
    assert_eq!(Game::get_player_move_position(""), None);
    assert_eq!(Game::get_player_move_position("0\n"), None);
    assert_eq!(Game::get_player_move_position("10\n"), None);
    assert_eq!(Game::get_player_move_position("1 2\n"), None);
    assert_eq!(Game::get_player_move_position("top left\n"), None);
    assert_eq!(Game::get_player_move_position("y\n"), None);
}

#[test]
fn only_y_asks_for_another_round() {
    assert!(Game::play_again("y\n"));
    assert!(Game::play_again("  y  \r\n"));
    assert!(Game::play_again("y"));
    assert!(!Game::play_again("n\n"));
    assert!(!Game::play_again("Y\n"));
    assert!(!Game::play_again("yes\n"));
    assert!(!Game::play_again("\n"));
    assert!(!Game::play_again("y y\n"));
}

#[test]
fn lines_are_read_by_phase() {
    let game = Game::new();
    assert_eq!(game.interpret("5\n"), Input::Square(SquarePosition::CenterMiddle));
    assert_eq!(game.interpret("y\n"), Input::Other);
    assert_eq!(game.interpret("x\n"), Input::Other);
    let (game, _) = feed(game, &["1", "4", "2", "5", "3"]);
    assert_eq!(game.phase(), Phase::RoundOver);
    assert_eq!(game.interpret("y\n"), Input::Yes);
    assert_eq!(game.interpret("5\n"), Input::Other);
    let (game, _) = feed(game, &["n"]);
    assert_eq!(game.phase(), Phase::Closed);
    assert_eq!(game.interpret("y\n"), Input::Other);
    assert_eq!(game.interpret("5\n"), Input::Other);
}

#[test]
fn malformed_input_consumes_no_turn() {
    let (game, replies) = feed(Game::new(), &["abc\n", "0\n", "10\n", "\n", "y\n"]);
    assert_eq!(replies, vec![Reply::InvalidInput; 5]);
    assert_eq!(game.phase(), Phase::Playing);
    assert_eq!(game.board().turn_num(), 0);
    assert_eq!(*game.board().get_player_turn(), PlayerMove::X);
}

#[test]
fn a_taken_square_is_reported_and_the_same_mark_moves() {
    let (game, replies) = feed(Game::new(), &["5\n", "5\n"]);
    assert_eq!(replies, vec![Reply::NextTurn, Reply::SquareTaken]);
    assert_eq!(game.phase(), Phase::Playing);
    assert_eq!(game.board().turn_num(), 1);
    assert_eq!(*game.board().get_player_turn(), PlayerMove::O);
    assert_eq!(game.board().mark_at(SquarePosition::CenterMiddle), Some(PlayerMove::X));
}

#[test]
fn x_wins_a_round_with_the_top_row() {
    let (game, replies) = feed(Game::new(), &["1\n", "4\n", "2\n", "5\n", "3\n"]);
    assert_eq!(
        replies,
        vec![
            Reply::NextTurn,
            Reply::NextTurn,
            Reply::NextTurn,
            Reply::NextTurn,
            Reply::Won(PlayerMove::X),
        ]
    );
    assert_eq!(game.phase(), Phase::RoundOver);
    assert!(game.board().has_winner());
}

#[test]
fn o_wins_a_round_with_the_center_row() {
    let (game, replies) = feed(Game::new(), &["1", "4", "2", "5", "9", "6"]);
    assert_eq!(replies.last(), Some(&Reply::Won(PlayerMove::O)));
    assert_eq!(game.phase(), Phase::RoundOver);
}

#[test]
fn a_full_board_without_a_line_is_a_draw() {
    let (game, replies) = feed(Game::new(), &["1", "2", "3", "5", "4", "6", "8", "7", "9"]);
    let mut expected = vec![Reply::NextTurn; 8];
    expected.push(Reply::Drawn);
    assert_eq!(replies, expected);
    assert_eq!(game.phase(), Phase::RoundOver);
}

#[test]
fn a_line_on_the_last_square_is_a_win() {
    let (game, replies) = feed(Game::new(), &["1", "4", "2", "5", "6", "8", "7", "9", "3"]);
    assert_eq!(replies.last(), Some(&Reply::Won(PlayerMove::X)));
    assert_eq!(game.phase(), Phase::RoundOver);
    assert_eq!(game.board().turn_num(), 9);
}

#[test]
fn yes_starts_another_round_on_an_empty_board() {
    let (game, replies) = feed(Game::new(), &["1", "4", "2", "5", "3", " y \n"]);
    assert_eq!(replies.last(), Some(&Reply::NewRound));
    assert_eq!(game.phase(), Phase::Playing);
    assert_eq!(game.board().turn_num(), 0);
    assert_eq!(*game.board().get_player_turn(), PlayerMove::X);
    assert_eq!(game.board().mark_at(SquarePosition::TopLeft), None);
    let (game, replies) = feed(game, &["5"]);
    assert_eq!(replies, vec![Reply::NextTurn]);
    assert_eq!(game.board().mark_at(SquarePosition::CenterMiddle), Some(PlayerMove::X));
}

#[test]
fn anything_but_yes_closes_the_game() {
    for answer in ["n\n", "\n", "yes\n", "5\n", "Y\n"] {
        let (game, replies) = feed(Game::new(), &["1", "4", "2", "5", "3", answer]);
        assert_eq!(replies.last(), Some(&Reply::Quit));
        assert_eq!(game.phase(), Phase::Closed);
    }
}

#[test]
fn a_closed_game_stays_closed() {
    let (game, _) = feed(Game::new(), &["1", "4", "2", "5", "3", "n"]);
    let (game, replies) = feed(game, &["y\n", "5\n", "\n"]);
    assert_eq!(replies, vec![Reply::Quit; 3]);
    assert_eq!(game.phase(), Phase::Closed);
    assert_eq!(game.board().turn_num(), 5);
}

#[test]
fn inputs_are_answered_by_phase() {
    let game = Game::new();
    let (game, reply) = game.advance(Input::Yes);
    assert_eq!(reply, Reply::InvalidInput);
    let (game, reply) = game.advance(Input::Other);
    assert_eq!(reply, Reply::InvalidInput);
    let (game, reply) = game.advance(Input::Square(SquarePosition::BottomRight));
    assert_eq!(reply, Reply::NextTurn);
    let (game, reply) = game.advance(Input::Square(SquarePosition::BottomRight));
    assert_eq!(reply, Reply::SquareTaken);
    let (game, _) = feed(game, &["1", "8", "2", "7"]);
    assert_eq!(game.phase(), Phase::RoundOver);
    let (game, reply) = game.advance(Input::Square(SquarePosition::CenterMiddle));
    assert_eq!(reply, Reply::Quit);
    assert_eq!(game.phase(), Phase::Closed);
    assert_eq!(game.board().mark_at(SquarePosition::CenterMiddle), None);
    let (game, reply) = game.advance(Input::Yes);
    assert_eq!(reply, Reply::Quit);
    assert_eq!(game.phase(), Phase::Closed);
}

#[test]
fn the_first_screen_shows_the_board_and_asks_x() {
    let game = Game::new();
    let expected = format!("{}\n{}", game.board().to_string(), PROMPT_X);
    assert_eq!(game.render(Reply::NewRound), expected);
}

#[test]
fn after_a_move_the_board_is_shown_and_the_other_mark_is_asked() {
    let (game, replies) = feed(Game::new(), &["5"]);
    let expected = format!("{}\n{}", game.board().to_string(), PROMPT_O);
    assert_eq!(game.render(replies[0]), expected);
    assert!(expected.contains("     |  X  |     "));
}

#[test]
fn a_line_that_names_no_square_gets_a_message_only() {
    let (game, replies) = feed(Game::new(), &["nine"]);
    assert_eq!(game.render(replies[0]), "\nChoose a valid square!\n\n");
}

#[test]
fn a_taken_square_gets_a_message_and_the_board_again() {
    let (game, replies) = feed(Game::new(), &["5", "5"]);
    let expected = format!(
        "\nSquare already taken!\n\n{}\n{}",
        game.board().to_string(),
        PROMPT_O
    );
    assert_eq!(game.render(replies[1]), expected);
}

#[test]
fn a_win_is_announced_with_the_winner_and_the_question() {
    let (game, replies) = feed(Game::new(), &["1", "4", "2", "5", "3"]);
    let expected = format!(
        "{}\n\nPlayer \"X\" wins!\n\nPlay again? (y/n)\n",
        game.board().to_string()
    );
    assert_eq!(game.render(replies[4]), expected);
}

#[test]
fn a_draw_is_announced_with_the_question() {
    let (game, replies) = feed(Game::new(), &["1", "2", "3", "5", "4", "6", "8", "7", "9"]);
    let expected = format!("{}\n\nDraw!\n\nPlay again? (y/n)\n", game.board().to_string());
    assert_eq!(game.render(replies[8]), expected);
}

#[test]
fn nothing_is_shown_when_the_game_closes() {
    let (game, replies) = feed(Game::new(), &["1", "4", "2", "5", "3", "n"]);
    assert_eq!(game.render(replies[5]), "");
}
