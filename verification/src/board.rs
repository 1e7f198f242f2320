//! The 3x3 board: marks, square positions, and the rules for placing a mark.

use vstd::prelude::*;
use vstd::string::*;

use crate::rules::{
    has_winning_line, lemma_marks_placed_bounds, lemma_placing_adds_one, line_complete,
    mark_to_move, marks_placed, BoardState,
};

verus! {

/// One of the two marks that players place on the grid.
#[derive(Copy, Clone, Debug, PartialEq, Eq, Structural)]
pub enum PlayerMove {
    X,
    O,
}

impl PlayerMove {
    /// The mark of the other player.
    pub open spec fn opponent(self) -> PlayerMove {
        match self {
            PlayerMove::X => PlayerMove::O,
            PlayerMove::O => PlayerMove::X,
        }
    }

    /// The letter that stands for the mark.
    pub open spec fn text(self) -> Seq<char> {
        match self {
            PlayerMove::X => "X"@,
            PlayerMove::O => "O"@,
        }
    }

    /// The mark as text: its letter.
    pub fn to_string(&self) -> (text: String)
        ensures
            text@ == self.text(),
    {
        match self {
            PlayerMove::X => String::from_str("X"),
            PlayerMove::O => String::from_str("O"),
        }
    }

    /// Hands the turn over: the mark that moves after `player_move`.
    pub fn toggle(player_move: Self) -> (next: Self)
        ensures
            next == player_move.opponent(),
    {
        match player_move {
            Self::X => Self::O,
            Self::O => Self::X,
        }
    }
}

/// One of the nine squares of the grid, named by row and column.
#[derive(Copy, Clone, Debug, PartialEq, Eq, Structural)]
pub enum SquarePosition {
    TopLeft,
    TopMiddle,
    TopRight,
    CenterLeft,
    CenterMiddle,
    CenterRight,
    BottomLeft,
    BottomMiddle,
    BottomRight,
}

impl SquarePosition {
    /// The square that a player names by `number`: the squares are numbered row by row
    /// from 1 (top left) to 9 (bottom right), and no other number names a square.
    pub open spec fn numbered(number: int) -> Option<SquarePosition> {
        if number == 1 {
            Some(SquarePosition::TopLeft)
        } else if number == 2 {
            Some(SquarePosition::TopMiddle)
        } else if number == 3 {
            Some(SquarePosition::TopRight)
        } else if number == 4 {
            Some(SquarePosition::CenterLeft)
        } else if number == 5 {
            Some(SquarePosition::CenterMiddle)
        } else if number == 6 {
            Some(SquarePosition::CenterRight)
        } else if number == 7 {
            Some(SquarePosition::BottomLeft)
        } else if number == 8 {
            Some(SquarePosition::BottomMiddle)
        } else if number == 9 {
            Some(SquarePosition::BottomRight)
        } else {
            None
        }
    }

    /// The square's place in row-major order, from 0 (top left) to 8 (bottom right).
    pub open spec fn index(self) -> int {
        match self {
            SquarePosition::TopLeft => 0,
            SquarePosition::TopMiddle => 1,
            SquarePosition::TopRight => 2,
            SquarePosition::CenterLeft => 3,
            SquarePosition::CenterMiddle => 4,
            SquarePosition::CenterRight => 5,
            SquarePosition::BottomLeft => 6,
            SquarePosition::BottomMiddle => 7,
            SquarePosition::BottomRight => 8,
        }
    }
}

impl From<SquarePosition> for usize {
    /// The square's place in row-major order, counted from 0.
    fn from(position: SquarePosition) -> (index: usize)
        ensures
            index == position.index(),
    {
        match position {
            SquarePosition::TopLeft => 0,
            SquarePosition::TopMiddle => 1,
            SquarePosition::TopRight => 2,
            SquarePosition::CenterLeft => 3,
            SquarePosition::CenterMiddle => 4,
            SquarePosition::CenterRight => 5,
            SquarePosition::BottomLeft => 6,
            SquarePosition::BottomMiddle => 7,
            SquarePosition::BottomRight => 8,
        }
    }
}

impl vstd::std_specs::convert::FromSpecImpl<SquarePosition> for usize {
    open spec fn obeys_from_spec() -> bool {
        true
    }

    open spec fn from_spec(position: SquarePosition) -> usize {
        position.index() as usize
    }
}

impl TryFrom<usize> for SquarePosition {
    type Error = ();

    /// The square that a player names by `value`, from 1 (top left) to 9 (bottom
    /// right); any other number is refused.
    fn try_from(value: usize) -> (position: Result<Self, Self::Error>)
        ensures
            position is Ok <==> 1 <= value <= 9,
            position is Ok ==> SquarePosition::numbered(value as int) == Some(position->Ok_0),
    {
        match value {
            1 => Ok(SquarePosition::TopLeft),
            2 => Ok(SquarePosition::TopMiddle),
            3 => Ok(SquarePosition::TopRight),
            4 => Ok(SquarePosition::CenterLeft),
            5 => Ok(SquarePosition::CenterMiddle),
            6 => Ok(SquarePosition::CenterRight),
            7 => Ok(SquarePosition::BottomLeft),
            8 => Ok(SquarePosition::BottomMiddle),
            9 => Ok(SquarePosition::BottomRight),
            _ => Err(()),
        }
    }
}

impl vstd::std_specs::convert::TryFromSpecImpl<usize> for SquarePosition {
    open spec fn obeys_try_from_spec() -> bool {
        true
    }

    open spec fn try_from_spec(value: usize) -> Result<Self, Self::Error> {
        match SquarePosition::numbered(value as int) {
            Some(position) => Ok(position),
            None => Err(()),
        }
    }
}

/// A square's number is its index plus one: the two conversions agree.
pub proof fn lemma_number_is_index_plus_one(position: SquarePosition, number: int)
    ensures
        0 <= position.index() < 9,
        SquarePosition::numbered(number) == Some(position) <==> number == position.index() + 1,
        SquarePosition::numbered(number) is Some <==> 1 <= number <= 9,
{
}

/// How a square shows on the grid: the letter of its mark, or a blank.
pub open spec fn square_text(content: Option<PlayerMove>) -> Seq<char> {
    match content {
        Some(mark) => mark.text(),
        None => " "@,
    }
}

/// One row of the grid as text: its three squares, parted by bars.
pub open spec fn row_text(
    left: Option<PlayerMove>,
    middle: Option<PlayerMove>,
    right: Option<PlayerMove>,
) -> Seq<char> {
    "  "@ + square_text(left) + "  |  "@ + square_text(middle) + "  |  "@ + square_text(right)
        + "  \n"@
}

/// The grid as text: three rows of squares, parted by rules.
pub open spec fn board_text(cells: Seq<Option<PlayerMove>>) -> Seq<char> {
    "\n\n     |     |     \n"@ + row_text(cells[0], cells[1], cells[2])
        + "_____|_____|_____\n     |     |     \n"@ + row_text(cells[3], cells[4], cells[5])
        + "_____|_____|_____\n     |     |     \n"@ + row_text(cells[6], cells[7], cells[8])
        + "     |     |     \n\n            "@
}

/// One square of the grid: empty, or holding the mark that was placed on it.
#[derive(Copy, Clone)]
struct Square(Option<PlayerMove>);

impl View for Square {
    type V = Option<PlayerMove>;

    closed spec fn view(&self) -> Option<PlayerMove> {
        self.0
    }
}

/// The error of a move onto a square that already holds a mark.
#[derive(Copy, Clone, Debug, PartialEq, Eq, Structural)]
pub struct SquareAlreadyTaken;

impl SquareAlreadyTaken {
    /// What a player is told after a move onto a square that holds a mark.
    pub open spec fn text() -> Seq<char> {
        "\nSquare already taken!\n"@
    }

    /// The error as text.
    pub fn to_string(&self) -> (text: String)
        ensures
            text@ == SquareAlreadyTaken::text(),
    {
        String::from_str("\nSquare already taken!\n")
    }
}

impl Square {
    /// The square as text: the letter of its mark, or a blank.
    fn to_string(&self) -> (text: String)
        ensures
            text@ == square_text(self@),
    {
        match self.0 {
            Some(PlayerMove::X) => String::from_str("X"),
            Some(PlayerMove::O) => String::from_str("O"),
            None => String::from_str(" "),
        }
    }

    /// Places `player_move` on the square if it is empty; a square that holds a mark
    /// keeps it.
    fn try_make_move(&mut self, player_move: PlayerMove) -> (placed: Result<
        (),
        SquareAlreadyTaken,
    >)
        ensures
            old(self)@ is None ==> placed is Ok && final(self)@ == Some(player_move),
            old(self)@ is Some ==> placed is Err && *final(self) == *old(self),
    {
        if self.0.is_none() {
            self.0 = Some(player_move);
            Ok(())
        } else {
            Err(SquareAlreadyTaken)
        }
    }
}

/// How a round stands after a move.
#[derive(Copy, Clone, Debug, PartialEq, Eq, Structural)]
pub enum Status {
    InProgress,
    Draw,
    Complete,
}

/// A round of tic-tac-toe: nine squares, the mark that moves next, and the number of
/// moves made so far.
pub struct Board {
    squares: [Square; 9],
    player_turn: PlayerMove,
    turn_num: u8,
}

impl View for Board {
    type V = BoardState;

    closed spec fn view(&self) -> BoardState {
        BoardState {
            cells: Seq::new(9, |i: int| self.squares[i]@),
            turn: self.player_turn,
            turns: self.turn_num as nat,
        }
    }
}

impl Board {
    #[verifier::type_invariant]
    spec fn well_formed(self) -> bool {
        self@.valid()
    }

    /// A board for a new round: every square empty, no move made, `X` to move.
    pub fn new() -> (board: Board)
        ensures
            board@ == BoardState::initial(),
            board@.valid(),
    {
        let squares = [Square(None); 9];
        proof {
            let cells = Seq::new(9, |i: int| squares[i]@);
            assert(cells =~= BoardState::initial().cells);
            lemma_marks_placed_bounds(cells);
        }
        Board { squares, player_turn: PlayerMove::X, turn_num: 0 }
    }

    /// The mark whose move it is.
    pub fn get_player_turn(&self) -> (turn: &PlayerMove)
        ensures
            *turn == self@.turn,
            *turn == mark_to_move(self@.turns),
    {
        proof {
            use_type_invariant(self);
        }
        &self.player_turn
    }

    /// Places the mark to move at `position` and passes the turn to the other mark.
    ///
    /// A move onto a square that holds a mark fails and changes nothing. A move onto an
    /// empty square succeeds, and the result is how the round stands after it: a
    /// complete line wins even when the move has filled the board.
    pub fn make_move(&mut self, position: SquarePosition) -> (outcome: Result<
        Status,
        SquareAlreadyTaken,
    >)
        ensures
            old(self)@.valid(),
            final(self)@.valid(),
            final(self)@ == old(self)@.attempt(position),
            old(self)@.is_free(position) ==> final(self)@ == old(self)@.place(position)
                && outcome == Ok::<Status, SquareAlreadyTaken>(final(self)@.status()),
            !old(self)@.is_free(position) ==> final(self)@ == old(self)@
                && outcome == Err::<Status, SquareAlreadyTaken>(SquareAlreadyTaken),
    {
        proof {
            use_type_invariant(&*self);
            lemma_marks_placed_bounds(self@.cells);
        }
        let index = usize::from(position);
        let mut squares = self.squares;
        squares[index].try_make_move(self.player_turn)?;
        proof {
            let placed = self@.cells.update(index as int, Some(self.player_turn));
            assert(Seq::new(9, |i: int| squares[i]@) =~= placed);
            lemma_placing_adds_one(self@.cells, index as int, self.player_turn);
        }
        *self = Board {
            squares,
            player_turn: PlayerMove::toggle(self.player_turn),
            turn_num: self.turn_num + 1,
        };

        Ok(
            if self.has_winner() {
                Status::Complete
            } else if self.turn_num > 8 {
                Status::Draw
            } else {
                Status::InProgress
            },
        )
    }

    /// The number of moves made in this round, which is the number of marks on the
    /// board.
    pub fn turn_num(&self) -> (turns: u8)
        ensures
            turns == self@.turns,
            turns == marks_placed(self@.cells),
            turns <= 9,
    {
        proof {
            use_type_invariant(self);
            lemma_marks_placed_bounds(self@.cells);
        }
        self.turn_num
    }

    /// The content of the square at `position`.
    pub fn mark_at(&self, position: SquarePosition) -> (content: Option<PlayerMove>)
        ensures
            content == self@.mark_at(position),
    {
        self.squares[usize::from(position)].0
    }

    /// One row of the grid as text.
    fn row_to_string(&self, row: (SquarePosition, SquarePosition, SquarePosition)) -> (text: String)
        ensures
            text@ == row_text(self@.mark_at(row.0), self@.mark_at(row.1), self@.mark_at(row.2)),
    {
        let mut text = String::from_str("  ");
        text.append(self.squares[usize::from(row.0)].to_string().as_str());
        text.append("  |  ");
        text.append(self.squares[usize::from(row.1)].to_string().as_str());
        text.append("  |  ");
        text.append(self.squares[usize::from(row.2)].to_string().as_str());
        text.append("  \n");
        text
    }

    /// The board as text: a grid of three rows with a letter or a blank in each
    /// square.
    pub fn to_string(&self) -> (text: String)
        ensures
            text@ == board_text(self@.cells),
    {
        let mut text = String::from_str("\n\n     |     |     \n");
        text.append(
            self.row_to_string(
                (SquarePosition::TopLeft, SquarePosition::TopMiddle, SquarePosition::TopRight),
            ).as_str(),
        );
        text.append("_____|_____|_____\n     |     |     \n");
        text.append(
            self.row_to_string(
                (
                    SquarePosition::CenterLeft,
                    SquarePosition::CenterMiddle,
                    SquarePosition::CenterRight,
                ),
            ).as_str(),
        );
        text.append("_____|_____|_____\n     |     |     \n");
        text.append(
            self.row_to_string(
                (
                    SquarePosition::BottomLeft,
                    SquarePosition::BottomMiddle,
                    SquarePosition::BottomRight,
                ),
            ).as_str(),
        );
        text.append("     |     |     \n\n            ");
        text
    }

    /// Whether one of the eight winning lines is complete.
    pub fn has_winner(&self) -> (won: bool)
        ensures
            won == has_winning_line(self@.cells),
    {
        let top_row = self.has_winner_in(
            (SquarePosition::TopLeft, SquarePosition::TopMiddle, SquarePosition::TopRight),
        );

        let center_row = self.has_winner_in(
            (SquarePosition::CenterLeft, SquarePosition::CenterMiddle, SquarePosition::CenterRight),
        );

        let bottom_row = self.has_winner_in(
            (SquarePosition::BottomLeft, SquarePosition::BottomMiddle, SquarePosition::BottomRight),
        );

        let left_column = self.has_winner_in(
            (SquarePosition::TopLeft, SquarePosition::CenterLeft, SquarePosition::BottomLeft),
        );

        let center_column = self.has_winner_in(
            (SquarePosition::TopMiddle, SquarePosition::CenterMiddle, SquarePosition::BottomMiddle),
        );

        let right_column = self.has_winner_in(
            (SquarePosition::TopRight, SquarePosition::CenterRight, SquarePosition::BottomRight),
        );

        let major_diagonal = self.has_winner_in(
            (SquarePosition::TopLeft, SquarePosition::CenterMiddle, SquarePosition::BottomRight),
        );

        let minor_diagonal = self.has_winner_in(
            (SquarePosition::BottomLeft, SquarePosition::CenterMiddle, SquarePosition::TopRight),
        );

        let row = top_row || center_row || bottom_row;
        let column = left_column || center_column || right_column;
        let diagonal = major_diagonal || minor_diagonal;

        row || column || diagonal
    }

    /// Whether the three squares of `line` hold one and the same mark.
    pub fn has_winner_in(
        &self,
        line: (SquarePosition, SquarePosition, SquarePosition),
    ) -> (won: bool)
        ensures
            won == line_complete(self@.cells, line),
    {
        let a = self.squares[usize::from(line.0)].0;
        let b = self.squares[usize::from(line.1)].0;
        let c = self.squares[usize::from(line.2)].0;
        if a.is_none() || b.is_none() || c.is_none() {
            false
        } else {
            a == b && a == c
        }
    }
}

} // verus!
