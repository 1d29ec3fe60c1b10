//! The game: whose turn it is, what a move does and how a position is judged.

use crate::board::{grid_wf, is_full, line_cell, line_owner, placed, Board, BoardValue, Grid, Player};
use vstd::prelude::*;

verus! {

/// The outcome of a position.
#[derive(Clone, Copy, PartialEq, Eq, Structural, Debug)]
pub enum GameStatus {
    Continue,
    PlayerWins(Player),
    Draw,
}

/// Why a move was refused.
#[derive(Clone, Copy, PartialEq, Eq, Structural, Debug)]
pub enum PlayError {
    /// The cell is already taken.
    InvalidMove,
}

/// The owner of the first complete line among the lines `from..8`.
pub open spec fn winner_from(grid: Grid, from: int) -> Option<Player>
    decreases 8 - from,
{
    if from >= 8 {
        None
    } else if line_owner(grid, from) is Some {
        line_owner(grid, from)
    } else {
        winner_from(grid, from + 1)
    }
}

/// The owner of the first complete line, in the fixed order of the lines.
pub open spec fn winner(grid: Grid) -> Option<Player> {
    winner_from(grid, 0)
}

/// How a grid is judged: a complete line wins, and the first one decides
/// for whom; without one a full grid is a draw; otherwise play goes on.
pub open spec fn status(grid: Grid) -> GameStatus {
    match winner(grid) {
        Some(player) => GameStatus::PlayerWins(player),
        None => if is_full(grid) {
            GameStatus::Draw
        } else {
            GameStatus::Continue
        },
    }
}

/// The mathematical model of a game: the grid and the player to move.
pub struct Position {
    pub cells: Grid,
    pub to_move: Player,
}

impl Position {
    /// The grid has three rows of three cells.
    pub open spec fn wf(self) -> bool {
        grid_wf(self.cells)
    }

    /// The grid once the player to move has taken the cell at (`row`, `column`).
    pub open spec fn marked(self, row: int, column: int) -> Grid {
        placed(self.cells, row, column, BoardValue::Filled(self.to_move))
    }

    /// What a move at (`row`, `column`) returns: a taken cell refuses it,
    /// a free one is marked and the grid judged.
    pub open spec fn play_result(self, row: int, column: int) -> Result<GameStatus, PlayError> {
        if self.cells[row][column] != BoardValue::Empty {
            Err(PlayError::InvalidMove)
        } else {
            Ok(status(self.marked(row, column)))
        }
    }

    /// The position after a move at (`row`, `column`): unchanged where the
    /// move is refused; else the cell is marked, and the turn passes only
    /// while play goes on.
    pub open spec fn after_play(self, row: int, column: int) -> Position {
        match self.play_result(row, column) {
            Err(_) => self,
            Ok(GameStatus::Continue) => Position {
                cells: self.marked(row, column),
                to_move: self.to_move.other(),
            },
            Ok(_) => Position { cells: self.marked(row, column), to_move: self.to_move },
        }
    }
}

/// A game of tic-tac-toe: the board and the player whose move is next.
pub struct Game {
    pub board: Board,
    pub current_player: Player,
}

impl View for Game {
    type V = Position;

    open spec fn view(&self) -> Position {
        Position { cells: self.board@, to_move: self.current_player }
    }
}

impl Game {
    /// A fresh game: every cell empty, `X` to move.
    pub fn new() -> (game: Game)
        ensures
            game.current_player == Player::X,
            forall|row: int, column: int|
                0 <= row < 3 && 0 <= column < 3 ==> #[trigger] game.board@[row][column]
                    == BoardValue::Empty,
    {
        Game { board: Board::default(), current_player: Player::default() }
    }

    /// Judges the board as it stands.
    pub fn get_game_status(&self) -> (game_status: GameStatus)
        ensures
            game_status == status(self.board@),
    {
        let slices = self.board.get_winnable_slices();
        let mut line: usize = 0;
        while line < 8
            invariant
                line <= 8,
                slices@.len() == 8,
                forall|i: int, k: int|
                    0 <= i < 8 && 0 <= k < 3 ==> #[trigger] slices@[i][k] == line_cell(
                        self.board@,
                        i,
                        k,
                    ),
                winner(self.board@) == winner_from(self.board@, line as int),
            decreases 8 - line,
        {
            let slice = &slices[line];
            if slice[0] != BoardValue::Empty && slice[0] == slice[1] && slice[1] == slice[2] {
                return GameStatus::PlayerWins(slice[0].player());
            }
            line += 1;
        }
        let cells = self.board.get_all_cells();
        let mut i: usize = 0;
        while i < 9
            invariant
                i <= 9,
                cells@.len() == 9,
                winner(self.board@) is None,
                forall|j: int| 0 <= j < 9 ==> #[trigger] cells@[j] == self.board@[j / 3][j % 3],
                forall|j: int| 0 <= j < i ==> #[trigger] cells@[j] != BoardValue::Empty,
            decreases 9 - i,
        {
            if cells[i] == BoardValue::Empty {
                assert(self.board@[i as int / 3][i as int % 3] == BoardValue::Empty);
                return GameStatus::Continue;
            }
            i += 1;
        }
        assert(is_full(self.board@)) by {
            assert forall|row: int, column: int| 0 <= row < 3 && 0 <= column < 3 implies
                #[trigger] self.board@[row][column] != BoardValue::Empty by {
                assert(cells@[3 * row + column] != BoardValue::Empty);
            }
        }
        GameStatus::Draw
    }

    /// Attempts a move of the current player at (`row`, `column`).
    ///
    /// A taken cell refuses the move and leaves the game as it was. A free
    /// cell is marked for the current player and the board judged; the turn
    /// passes to the opponent only if play goes on.
    pub fn play(&mut self, row: usize, column: usize) -> (result: Result<GameStatus, PlayError>)
        requires
            row < 3,
            column < 3,
        ensures
            result == old(self)@.play_result(row as int, column as int),
            final(self)@ == old(self)@.after_play(row as int, column as int),
            result is Err ==> *final(self) == *old(self),
            result == Ok::<GameStatus, PlayError>(GameStatus::Continue) ==> final(self).current_player
                == old(self).current_player.other(),
            result != Ok::<GameStatus, PlayError>(GameStatus::Continue) ==> final(self).current_player
                == old(self).current_player,
            forall|r: int, c: int|
                0 <= r < 3 && 0 <= c < 3 && old(self).board@[r][c] != BoardValue::Empty
                    ==> #[trigger] final(self).board@[r][c] == old(self).board@[r][c],
    {
        if self.board.get(row, column) != BoardValue::Empty {
            return Err(PlayError::InvalidMove);
        }
        self.board.set(row, column, BoardValue::Filled(self.current_player));
        let game_status = self.get_game_status();
        if game_status == GameStatus::Continue {
            self.current_player = self.current_player.other();
        }
        Ok(game_status)
    }
}

} // verus!
