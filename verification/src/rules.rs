//! The rules of the game as mathematics: what a board holds, which lines win, how a
//! move changes the board, and the laws that follow.

use vstd::prelude::*;

use crate::board::{PlayerMove, SquarePosition, Status};

verus! {

/// Three squares in a row, a column or a diagonal.
pub type Line = (SquarePosition, SquarePosition, SquarePosition);

/// The eight lines that win: three rows, three columns and the two diagonals.
pub open spec fn winning_lines() -> Seq<Line> {
    seq![
        (SquarePosition::TopLeft, SquarePosition::TopMiddle, SquarePosition::TopRight),
        (SquarePosition::CenterLeft, SquarePosition::CenterMiddle, SquarePosition::CenterRight),
        (SquarePosition::BottomLeft, SquarePosition::BottomMiddle, SquarePosition::BottomRight),
        (SquarePosition::TopLeft, SquarePosition::CenterLeft, SquarePosition::BottomLeft),
        (SquarePosition::TopMiddle, SquarePosition::CenterMiddle, SquarePosition::BottomMiddle),
        (SquarePosition::TopRight, SquarePosition::CenterRight, SquarePosition::BottomRight),
        (SquarePosition::TopLeft, SquarePosition::CenterMiddle, SquarePosition::BottomRight),
        (SquarePosition::BottomLeft, SquarePosition::CenterMiddle, SquarePosition::TopRight),
    ]
}

/// All three squares of `line` hold `mark`.
pub open spec fn line_held_by(cells: Seq<Option<PlayerMove>>, line: Line, mark: PlayerMove) -> bool {
    &&& cells[line.0.index()] == Some(mark)
    &&& cells[line.1.index()] == Some(mark)
    &&& cells[line.2.index()] == Some(mark)
}

/// No square of `line` is empty and all three hold the same mark.
pub open spec fn line_complete(cells: Seq<Option<PlayerMove>>, line: Line) -> bool {
    &&& cells[line.0.index()] is Some
    &&& cells[line.0.index()] == cells[line.1.index()]
    &&& cells[line.0.index()] == cells[line.2.index()]
}

/// One of the eight winning lines is complete.
pub open spec fn has_winning_line(cells: Seq<Option<PlayerMove>>) -> bool {
    exists|k: int| 0 <= k < 8 && line_complete(cells, #[trigger] winning_lines()[k])
}

/// `mark` holds one of the eight winning lines.
pub open spec fn wins(cells: Seq<Option<PlayerMove>>, mark: PlayerMove) -> bool {
    exists|k: int| 0 <= k < 8 && line_held_by(cells, #[trigger] winning_lines()[k], mark)
}

/// The number of squares that hold a mark.
pub open spec fn marks_placed(cells: Seq<Option<PlayerMove>>) -> nat
    decreases cells.len(),
{
    if cells.len() == 0 {
        0
    } else {
        marks_placed(cells.drop_last()) + if cells.last() is Some {
            1nat
        } else {
            0nat
        }
    }
}

/// The mark that moves when `turns` moves have been made: `X` opens, and the marks
/// take turns.
pub open spec fn mark_to_move(turns: nat) -> PlayerMove {
    if turns % 2 == 0 {
        PlayerMove::X
    } else {
        PlayerMove::O
    }
}

/// What a board is: the content of its nine squares in row-major order, the mark that
/// moves next, and the number of moves made.
pub struct BoardState {
    pub cells: Seq<Option<PlayerMove>>,
    pub turn: PlayerMove,
    pub turns: nat,
}

impl BoardState {
    /// The invariant of every board: nine squares, as many marks as moves, and the
    /// turn given by the parity of the number of moves.
    pub open spec fn valid(self) -> bool {
        &&& self.cells.len() == 9
        &&& self.turns == marks_placed(self.cells)
        &&& self.turn == mark_to_move(self.turns)
    }

    /// The board at the start of a round: empty, with `X` to move.
    pub open spec fn initial() -> BoardState {
        BoardState { cells: Seq::new(9, |i: int| None), turn: PlayerMove::X, turns: 0 }
    }

    /// The content of the square at `position`.
    pub open spec fn mark_at(self, position: SquarePosition) -> Option<PlayerMove> {
        self.cells[position.index()]
    }

    /// The square at `position` is empty.
    pub open spec fn is_free(self, position: SquarePosition) -> bool {
        self.mark_at(position) is None
    }

    /// The board after the mark to move has been placed at `position`.
    pub open spec fn place(self, position: SquarePosition) -> BoardState {
        BoardState {
            cells: self.cells.update(position.index(), Some(self.turn)),
            turn: self.turn.opponent(),
            turns: self.turns + 1,
        }
    }

    /// The board after an attempt to move to `position`: the mark to move is placed
    /// where the square is empty, and nothing changes where it is not.
    pub open spec fn attempt(self, position: SquarePosition) -> BoardState {
        if self.is_free(position) {
            self.place(position)
        } else {
            self
        }
    }

    /// The board after an attempt to move to each of `positions`, one after the other.
    pub open spec fn attempt_all(self, positions: Seq<SquarePosition>) -> BoardState
        decreases positions.len(),
    {
        if positions.len() == 0 {
            self
        } else {
            self.attempt_all(positions.drop_last()).attempt(positions.last())
        }
    }

    /// How the round stands: won as soon as a winning line is complete, drawn when
    /// nine moves have been made without one, in progress otherwise.
    pub open spec fn status(self) -> Status {
        if has_winning_line(self.cells) {
            Status::Complete
        } else if self.turns >= 9 {
            Status::Draw
        } else {
            Status::InProgress
        }
    }
}

/// Placing a mark on an empty square raises the number of marks by one.
pub proof fn lemma_placing_adds_one(cells: Seq<Option<PlayerMove>>, i: int, mark: PlayerMove)
    requires
        0 <= i < cells.len(),
        cells[i] is None,
    ensures
        marks_placed(cells.update(i, Some(mark))) == marks_placed(cells) + 1,
    decreases cells.len(),
{
    let placed = cells.update(i, Some(mark));
    if i == cells.len() - 1 {
        assert(placed.drop_last() =~= cells.drop_last());
    } else {
        assert(placed.drop_last() =~= cells.drop_last().update(i, Some(mark)));
        lemma_placing_adds_one(cells.drop_last(), i, mark);
    }
}

/// There are at most as many marks as squares; as many exactly when no square is
/// empty, and none exactly when every square is.
pub proof fn lemma_marks_placed_bounds(cells: Seq<Option<PlayerMove>>)
    ensures
        marks_placed(cells) <= cells.len(),
        marks_placed(cells) == cells.len() <==> forall|i: int|
            0 <= i < cells.len() ==> cells[i] is Some,
        marks_placed(cells) == 0 <==> forall|i: int| 0 <= i < cells.len() ==> cells[i] is None,
    decreases cells.len(),
{
    if cells.len() > 0 {
        let front = cells.drop_last();
        lemma_marks_placed_bounds(front);
        assert forall|i: int| 0 <= i < front.len() implies front[i] == cells[i] by {}
    }
}

/// A round starts from a valid board: nothing placed, every square free, `X` to move
/// and the round in progress.
pub proof fn lemma_initial_board()
    ensures
        BoardState::initial().valid(),
        BoardState::initial().turn == PlayerMove::X,
        marks_placed(BoardState::initial().cells) == 0,
        forall|position: SquarePosition| BoardState::initial().is_free(position),
        BoardState::initial().status() == Status::InProgress,
{
    let start = BoardState::initial();
    lemma_marks_placed_bounds(start.cells);
    assert forall|k: int| 0 <= k < 8 implies !line_complete(
        start.cells,
        #[trigger] winning_lines()[k],
    ) by {
        assert(start.cells[winning_lines()[k].0.index()] is None);
    }
}

/// A legal move keeps the board valid: afterwards the number of marks on the board
/// still equals the number of moves made, which has grown by one and is at most nine.
/// The square moved to holds the mark that moved, and every other square is as it was.
pub proof fn lemma_move_keeps_board_valid(board: BoardState, position: SquarePosition)
    requires
        board.valid(),
        board.is_free(position),
    ensures
        board.place(position).valid(),
        board.place(position).turns == board.turns + 1,
        marks_placed(board.place(position).cells) == board.place(position).turns,
        board.place(position).turns <= 9,
        board.place(position).mark_at(position) == Some(board.turn),
        forall|other: SquarePosition|
            other != position ==> board.place(position).mark_at(other) == board.mark_at(other),
{
    lemma_placing_adds_one(board.cells, position.index(), board.turn);
    lemma_marks_placed_bounds(board.place(position).cells);
}

/// Whatever squares the players try, and in whatever order, the board of a round stays
/// valid: at every point the number of marks on it equals the number of moves made, at
/// most nine, and the turn is `X`'s after an even number of moves and `O`'s after an
/// odd one.
pub proof fn lemma_play_keeps_board_valid(positions: Seq<SquarePosition>)
    ensures
        BoardState::initial().attempt_all(positions).valid(),
        marks_placed(BoardState::initial().attempt_all(positions).cells)
            == BoardState::initial().attempt_all(positions).turns,
        BoardState::initial().attempt_all(positions).turns <= 9,
        BoardState::initial().attempt_all(positions).turn == mark_to_move(
            BoardState::initial().attempt_all(positions).turns,
        ),
    decreases positions.len(),
{
    let start = BoardState::initial();
    if positions.len() == 0 {
        lemma_initial_board();
    } else {
        lemma_play_keeps_board_valid(positions.drop_last());
        let before = start.attempt_all(positions.drop_last());
        if before.is_free(positions.last()) {
            lemma_move_keeps_board_valid(before, positions.last());
        }
    }
    lemma_marks_placed_bounds(start.attempt_all(positions).cells);
}

/// The marks take turns: after a legal move the other mark is to move, and after two
/// the first one again.
pub proof fn lemma_marks_alternate(board: BoardState, first: SquarePosition, second: SquarePosition)
    requires
        board.valid(),
        board.is_free(first),
        board.place(first).is_free(second),
    ensures
        board.place(first).turn == board.turn.opponent(),
        board.place(first).turn != board.turn,
        board.place(first).place(second).turn == board.turn,
{
}

/// A board on which no square is empty and no winning line is complete is drawn.
pub proof fn lemma_full_board_without_line_is_draw(board: BoardState)
    requires
        board.valid(),
        forall|position: SquarePosition| !board.is_free(position),
        !has_winning_line(board.cells),
    ensures
        board.status() == Status::Draw,
{
    assert forall|i: int| 0 <= i < 9 implies board.cells[i] is Some by {
        let position = SquarePosition::numbered(i + 1).unwrap();
        assert(!board.is_free(position));
    }
    lemma_marks_placed_bounds(board.cells);
}

/// A board with a complete winning line is won, whether or not squares are left.
pub proof fn lemma_complete_line_wins(board: BoardState, k: int)
    requires
        0 <= k < 8,
        line_complete(board.cells, winning_lines()[k]),
    ensures
        board.status() == Status::Complete,
{
}

/// A winning line that a legal move completes runs through the square moved to and is
/// held by the mark that moved.
pub proof fn lemma_new_line_belongs_to_mover(board: BoardState, position: SquarePosition, k: int)
    requires
        board.valid(),
        board.is_free(position),
        0 <= k < 8,
        !line_complete(board.cells, winning_lines()[k]),
        line_complete(board.place(position).cells, winning_lines()[k]),
    ensures
        line_held_by(board.place(position).cells, winning_lines()[k], board.turn),
        winning_lines()[k].0 == position || winning_lines()[k].1 == position
            || winning_lines()[k].2 == position,
{
}

/// A legal move that wins a round in progress wins it for the mark that moved.
pub proof fn lemma_win_belongs_to_mover(board: BoardState, position: SquarePosition)
    requires
        board.valid(),
        board.is_free(position),
        board.status() == Status::InProgress,
        board.place(position).status() == Status::Complete,
    ensures
        wins(board.place(position).cells, board.turn),
        !wins(board.place(position).cells, board.turn.opponent()),
{
    let after = board.place(position).cells;
    let k = choose|k: int| 0 <= k < 8 && line_complete(after, #[trigger] winning_lines()[k]);
    assert(!line_complete(board.cells, winning_lines()[k]));
    lemma_new_line_belongs_to_mover(board, position, k);
    assert forall|j: int| 0 <= j < 8 implies !line_held_by(
        after,
        #[trigger] winning_lines()[j],
        board.turn.opponent(),
    ) by {
        if line_held_by(after, winning_lines()[j], board.turn.opponent()) {
            assert(line_complete(after, winning_lines()[j]));
            assert(!line_complete(board.cells, winning_lines()[j]));
            lemma_new_line_belongs_to_mover(board, position, j);
        }
    }
}

} // verus!
