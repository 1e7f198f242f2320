//! The game: round after round on a fresh board, moved forward by what the players
//! type.

use vstd::prelude::*;
use vstd::string::*;

use crate::board::{
    board_text, Board, PlayerMove, SquareAlreadyTaken, SquarePosition, Status,
};
use crate::input::{position_from_token, token_means_yes, token_position, trim, trimmed};
use crate::rules::{
    has_winning_line, lemma_initial_board, lemma_marks_placed_bounds,
    lemma_move_keeps_board_valid, lemma_win_belongs_to_mover, wins, BoardState,
};

verus! {

/// Where a game stands between two lines of input.
#[derive(Copy, Clone, Debug, PartialEq, Eq, Structural)]
pub enum Phase {
    /// A round is in progress and the mark to move is asked for a square.
    Playing,
    /// A round has ended and the players are asked whether to play another.
    RoundOver,
    /// The players have declined another round.
    Closed,
}

/// What a line of input means to the game.
#[derive(Copy, Clone, Debug, PartialEq, Eq, Structural)]
pub enum Input {
    /// The line names a square.
    Square(SquarePosition),
    /// The line says yes.
    Yes,
    /// The line says neither.
    Other,
}

/// What the game answers to a line of input.
#[derive(Copy, Clone, Debug, PartialEq, Eq, Structural)]
pub enum Reply {
    /// The line names no square; the same mark is asked again.
    InvalidInput,
    /// The square named holds a mark already; the same mark is asked again.
    SquareTaken,
    /// The mark was placed and the other mark is to move.
    NextTurn,
    /// The mark was placed and completed a winning line: its player has won the round.
    Won(PlayerMove),
    /// The mark was placed on the last empty square and no line is complete.
    Drawn,
    /// Another round starts on an empty board.
    NewRound,
    /// The game is over.
    Quit,
}

/// The request for a move, with the number of each square.
pub open spec fn prompt_text(mark: PlayerMove) -> Seq<char> {
    "Player \""@ + mark.text()
        + "\" to move!\n\ntop left    (1)  top middle    (2)     top right (3)\ncenter left (4)  center middle (5)  center right (6)\nbottom left (7)  bottom middle (8)  bottom right (9)\n            "@
}

/// What a player is told after a line that names no square.
pub open spec fn invalid_text() -> Seq<char> {
    "\nChoose a valid square!\n"@
}

/// The news that `mark` has won the round.
pub open spec fn win_text(mark: PlayerMove) -> Seq<char> {
    "\nPlayer \""@ + mark.text() + "\" wins!\n"@
}

/// The news that the round is drawn.
pub open spec fn draw_text() -> Seq<char> {
    "\nDraw!\n"@
}

/// The question whether to play another round.
pub open spec fn replay_text() -> Seq<char> {
    "Play again? (y/n)"@
}

/// What a game is: the board of the current round, and the phase.
pub struct GameState {
    pub board: BoardState,
    pub phase: Phase,
}

impl GameState {
    /// The invariant of every game: the board is valid, and a square is asked for
    /// exactly while the round on it is in progress.
    pub open spec fn valid(self) -> bool {
        &&& self.board.valid()
        &&& self.phase == Phase::Playing <==> self.board.status() == Status::InProgress
    }

    /// A game at its start: the first round, on an empty board.
    pub open spec fn initial() -> GameState {
        GameState { board: BoardState::initial(), phase: Phase::Playing }
    }

    /// What a line means in the current phase: a square or nothing while a round is
    /// played, yes or nothing once it has ended.
    pub open spec fn interpret(self, line: Seq<char>) -> Input {
        match self.phase {
            Phase::Playing => match token_position(trimmed(line)) {
                Some(position) => Input::Square(position),
                None => Input::Other,
            },
            Phase::RoundOver => if trimmed(line) == seq!['y'] {
                Input::Yes
            } else {
                Input::Other
            },
            Phase::Closed => Input::Other,
        }
    }

    /// The board and the request for the next move, a line each.
    pub open spec fn turn_text(self) -> Seq<char> {
        board_text(self.board.cells) + "\n"@ + prompt_text(self.board.turn) + "\n"@
    }

    /// The board, the result of the round in `news`, and the question whether to play
    /// another, a line each.
    pub open spec fn result_text(self, news: Seq<char>) -> Seq<char> {
        board_text(self.board.cells) + "\n"@ + news + "\n"@ + replay_text() + "\n"@
    }

    /// What the players are shown when the game, in this state, has answered `reply`,
    /// each message on a line of its own: after a move the board, and then either the
    /// request for the next move or the result of the round and the question whether
    /// to play another; after a line that could not be used, what was wrong with it.
    pub open spec fn rendered(self, reply: Reply) -> Seq<char> {
        match reply {
            Reply::InvalidInput => invalid_text() + "\n"@,
            Reply::SquareTaken => SquareAlreadyTaken::text() + "\n"@ + self.turn_text(),
            Reply::NextTurn => self.turn_text(),
            Reply::NewRound => self.turn_text(),
            Reply::Won(mark) => self.result_text(win_text(mark)),
            Reply::Drawn => self.result_text(draw_text()),
            Reply::Quit => Seq::empty(),
        }
    }

    /// The answer to `input`.
    pub open spec fn reply_to(self, input: Input) -> Reply {
        match self.phase {
            Phase::Playing => match input {
                Input::Square(position) => if self.board.is_free(position) {
                    match self.board.place(position).status() {
                        Status::Complete => Reply::Won(self.board.turn),
                        Status::Draw => Reply::Drawn,
                        Status::InProgress => Reply::NextTurn,
                    }
                } else {
                    Reply::SquareTaken
                },
                _ => Reply::InvalidInput,
            },
            Phase::RoundOver => match input {
                Input::Yes => Reply::NewRound,
                _ => Reply::Quit,
            },
            Phase::Closed => Reply::Quit,
        }
    }

    /// The game after `input`. Only a move to an empty square changes the board of a
    /// round; only yes after a round starts another, and anything else closes the game.
    pub open spec fn after(self, input: Input) -> GameState {
        match self.phase {
            Phase::Playing => match input {
                Input::Square(position) => if self.board.is_free(position) {
                    let board = self.board.place(position);
                    GameState {
                        board,
                        phase: if board.status() == Status::InProgress {
                            Phase::Playing
                        } else {
                            Phase::RoundOver
                        },
                    }
                } else {
                    self
                },
                _ => self,
            },
            Phase::RoundOver => match input {
                Input::Yes => GameState::initial(),
                _ => GameState { board: self.board, phase: Phase::Closed },
            },
            Phase::Closed => self,
        }
    }

    /// The game after each of `inputs`, one after the other.
    pub open spec fn after_all(self, inputs: Seq<Input>) -> GameState
        decreases inputs.len(),
    {
        if inputs.len() == 0 {
            self
        } else {
            self.after_all(inputs.drop_last()).after(inputs.last())
        }
    }
}

/// An input keeps a valid game valid.
pub proof fn lemma_game_stays_valid(game: GameState, input: Input)
    requires
        game.valid(),
    ensures
        game.after(input).valid(),
{
    match game.phase {
        Phase::Playing => match input {
            Input::Square(position) => {
                if game.board.is_free(position) {
                    lemma_move_keeps_board_valid(game.board, position);
                }
            },
            _ => {},
        },
        Phase::RoundOver => {
            lemma_initial_board();
        },
        Phase::Closed => {},
    }
}

/// Whatever the players type, the game stays valid: a square is asked for exactly
/// while the round on the board is in progress, and the board is that of a round.
pub proof fn lemma_play_keeps_game_valid(inputs: Seq<Input>)
    ensures
        GameState::initial().after_all(inputs).valid(),
    decreases inputs.len(),
{
    if inputs.len() == 0 {
        lemma_initial_board();
    } else {
        lemma_play_keeps_game_valid(inputs.drop_last());
        lemma_game_stays_valid(GameState::initial().after_all(inputs.drop_last()), inputs.last());
    }
}

/// An input that cannot be used takes no turn: after a line that names no square, and
/// after a move onto a square that holds a mark, the game is as it was.
pub proof fn lemma_refused_input_changes_nothing(game: GameState, input: Input)
    requires
        game.reply_to(input) == Reply::InvalidInput || game.reply_to(input) == Reply::SquareTaken,
    ensures
        game.after(input) == game,
{
}

/// A round is won by the mark that moved last: that mark holds a winning line on the
/// board, and the other mark holds none.
pub proof fn lemma_winner_holds_a_line(game: GameState, input: Input, mark: PlayerMove)
    requires
        game.valid(),
        game.reply_to(input) == Reply::Won(mark),
    ensures
        mark == game.board.turn,
        game.after(input).phase == Phase::RoundOver,
        wins(game.after(input).board.cells, mark),
        !wins(game.after(input).board.cells, mark.opponent()),
{
    match input {
        Input::Square(position) => {
            lemma_win_belongs_to_mover(game.board, position);
        },
        _ => {},
    }
}

/// A round ends in a draw only on a full board without a complete line.
pub proof fn lemma_drawn_round_has_no_line(game: GameState, input: Input)
    requires
        game.valid(),
        game.reply_to(input) == Reply::Drawn,
    ensures
        game.after(input).phase == Phase::RoundOver,
        !has_winning_line(game.after(input).board.cells),
        forall|position: SquarePosition| !game.after(input).board.is_free(position),
{
    match input {
        Input::Square(position) => {
            lemma_move_keeps_board_valid(game.board, position);
            lemma_marks_placed_bounds(game.after(input).board.cells);
        },
        _ => {},
    }
}

/// A game of tic-tac-toe between two players at one keyboard.
pub struct Game {
    board: Board,
    phase: Phase,
}

impl View for Game {
    type V = GameState;

    closed spec fn view(&self) -> GameState {
        GameState { board: self.board@, phase: self.phase }
    }
}

impl Game {
    #[verifier::type_invariant]
    spec fn well_formed(self) -> bool {
        self@.valid()
    }

    /// A game at its start: the first round, on an empty board.
    pub fn new() -> (game: Game)
        ensures
            game@ == GameState::initial(),
            game@.valid(),
    {
        proof {
            lemma_initial_board();
        }
        Game { board: Board::new(), phase: Phase::Playing }
    }

    /// The board of the current round.
    pub fn board(&self) -> (board: &Board)
        ensures
            board@ == self@.board,
    {
        &self.board
    }

    /// The phase that the game is in.
    pub fn phase(&self) -> (phase: Phase)
        ensures
            phase == self@.phase,
    {
        self.phase
    }

    /// The square that a line of input names, white space around it aside: a number
    /// from 1 (top left) to 9 (bottom right). `None` where the line names none.
    pub fn get_player_move_position(line: &str) -> (position: Option<SquarePosition>)
        ensures
            position == token_position(trimmed(line@)),
    {
        position_from_token(trim(line))
    }

    /// Whether a line of input asks for another round: it holds the letter `y` and,
    /// around it, white space only.
    pub fn play_again(line: &str) -> (again: bool)
        ensures
            again == (trimmed(line@) == seq!['y']),
    {
        token_means_yes(trim(line))
    }

    /// What `line` means in the current phase.
    pub fn interpret(&self, line: &str) -> (input: Input)
        ensures
            input == self@.interpret(line@),
    {
        match self.phase {
            Phase::Playing => match Game::get_player_move_position(line) {
                Some(position) => Input::Square(position),
                None => Input::Other,
            },
            Phase::RoundOver => if Game::play_again(line) {
                Input::Yes
            } else {
                Input::Other
            },
            Phase::Closed => Input::Other,
        }
    }

    /// Moves the game forward by one input and answers it.
    ///
    /// While a round is played, a square that is empty takes the mark to move, and the
    /// round goes on, is won by that mark, or is drawn; a square that holds a mark, or
    /// an input that names none, changes nothing. Once the round has ended, yes starts
    /// another on an empty board and anything else closes the game.
    pub fn advance(self, input: Input) -> (next: (Game, Reply))
        ensures
            self@.valid(),
            next.0@.valid(),
            next.0@ == self@.after(input),
            next.1 == self@.reply_to(input),
            next.1 matches Reply::Won(mark) ==> wins(next.0@.board.cells, mark),
    {
        proof {
            use_type_invariant(&self);
        }
        let Game { board, phase } = self;
        let mut board = board;
        match phase {
            Phase::Playing => match input {
                Input::Square(position) => {
                    let turn = *board.get_player_turn();
                    match board.make_move(position) {
                        Ok(Status::Complete) => {
                            proof {
                                lemma_win_belongs_to_mover(self@.board, position);
                            }
                            (Game { board, phase: Phase::RoundOver }, Reply::Won(turn))
                        },
                        Ok(Status::Draw) => (Game { board, phase: Phase::RoundOver }, Reply::Drawn),
                        Ok(Status::InProgress) => (
                            Game { board, phase: Phase::Playing },
                            Reply::NextTurn,
                        ),
                        Err(_) => (Game { board, phase: Phase::Playing }, Reply::SquareTaken),
                    }
                },
                _ => (Game { board, phase: Phase::Playing }, Reply::InvalidInput),
            },
            Phase::RoundOver => match input {
                Input::Yes => (Game::new(), Reply::NewRound),
                _ => (Game { board, phase: Phase::Closed }, Reply::Quit),
            },
            Phase::Closed => (Game { board, phase: Phase::Closed }, Reply::Quit),
        }
    }

    /// The board and the request for the next move, a line each.
    fn turn_to_string(&self) -> (text: String)
        ensures
            text@ == self@.turn_text(),
    {
        let mut text = self.board.to_string();
        text.append("\n");
        text.append("Player \"");
        text.append(self.board.get_player_turn().to_string().as_str());
        text.append(
            "\" to move!\n\ntop left    (1)  top middle    (2)     top right (3)\ncenter left (4)  center middle (5)  center right (6)\nbottom left (7)  bottom middle (8)  bottom right (9)\n            ",
        );
        text.append("\n");
        text
    }

    /// The board, the result of the round in `news`, and the question whether to play
    /// another, a line each.
    fn result_to_string(&self, news: &str) -> (text: String)
        ensures
            text@ == self@.result_text(news@),
    {
        let mut text = self.board.to_string();
        text.append("\n");
        text.append(news);
        text.append("\n");
        text.append("Play again? (y/n)");
        text.append("\n");
        text
    }

    /// What to show the players once the game has answered `reply`; at the start of a
    /// game, what to show for `Reply::NewRound`.
    pub fn render(&self, reply: Reply) -> (text: String)
        ensures
            text@ == self@.rendered(reply),
    {
        match reply {
            Reply::InvalidInput => {
                let mut text = String::from_str("\nChoose a valid square!\n");
                text.append("\n");
                text
            },
            Reply::SquareTaken => {
                let mut text = SquareAlreadyTaken.to_string();
                text.append("\n");
                text.append(self.turn_to_string().as_str());
                text
            },
            Reply::NextTurn => self.turn_to_string(),
            Reply::NewRound => self.turn_to_string(),
            Reply::Won(mark) => {
                let mut news = String::from_str("\nPlayer \"");
                news.append(mark.to_string().as_str());
                news.append("\" wins!\n");
                self.result_to_string(news.as_str())
            },
            Reply::Drawn => self.result_to_string("\nDraw!\n"),
            Reply::Quit => String::new(),
        }
    }

    /// Moves the game forward by one line of input and answers it.
    pub fn step(self, line: &str) -> (next: (Game, Reply))
        ensures
            next.0@.valid(),
            next.0@ == self@.after(self@.interpret(line@)),
            next.1 == self@.reply_to(self@.interpret(line@)),
            next.1 matches Reply::Won(mark) ==> wins(next.0@.board.cells, mark),
    {
        let input = self.interpret(line);
        self.advance(input)
    }
}

} // verus!
