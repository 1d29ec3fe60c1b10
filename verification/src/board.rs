//! The players, the cells and the 3x3 board, with the grid that models it.

use vstd::prelude::*;
use vstd::string::StringExecFns;

verus! {

/// One of the two players. `X` moves first.
#[derive(Clone, Copy, PartialEq, Eq, Structural, Debug)]
pub enum Player {
    X,
    O,
}

impl Player {
    /// The opponent of this player.
    pub open spec fn spec_other(self) -> Player {
        match self {
            Player::X => Player::O,
            Player::O => Player::X,
        }
    }

    /// The opponent of this player.
    #[verifier::when_used_as_spec(spec_other)]
    pub fn other(self) -> (opponent: Player)
        ensures
            opponent == self.spec_other(),
    {
        match self {
            Player::X => Player::O,
            Player::O => Player::X,
        }
    }

    /// The letter that stands for this player.
    pub open spec fn symbol_text(self) -> Seq<char> {
        match self {
            Player::X => "X"@,
            Player::O => "O"@,
        }
    }

    /// The letter that stands for this player: "X" or "O".
    pub fn symbol(self) -> (text: &'static str)
        ensures
            text@ == self.symbol_text(),
    {
        match self {
            Player::X => "X",
            Player::O => "O",
        }
    }
}

impl Default for Player {
    fn default() -> (player: Player)
        ensures
            player == Player::X,
    {
        Player::X
    }
}

/// What one cell of the board holds.
#[derive(Clone, Copy, PartialEq, Eq, Structural, Debug)]
pub enum BoardValue {
    Filled(Player),
    Empty,
}

impl Default for BoardValue {
    fn default() -> (value: BoardValue)
        ensures
            value == BoardValue::Empty,
    {
        BoardValue::Empty
    }
}

impl BoardValue {
    /// What a cell shows: its owner's letter, or a blank.
    pub open spec fn symbol_text(self) -> Seq<char> {
        match self {
            BoardValue::Filled(player) => player.symbol_text(),
            BoardValue::Empty => " "@,
        }
    }

    /// What a cell shows: "X", "O", or a single space where it is empty.
    pub fn symbol(self) -> (text: &'static str)
        ensures
            text@ == self.symbol_text(),
    {
        match self {
            BoardValue::Filled(player) => player.symbol(),
            BoardValue::Empty => " ",
        }
    }

    /// The player who owns a filled cell.
    pub fn player(self) -> (owner: Player)
        requires
            self is Filled,
        ensures
            self == BoardValue::Filled(owner),
    {
        match self {
            BoardValue::Filled(player) => player,
            BoardValue::Empty => vstd::pervasive::unreached(),
        }
    }
}

/// The mathematical model of a board: three rows of three cells.
pub type Grid = Seq<Seq<BoardValue>>;

/// A grid has exactly three rows of exactly three cells.
pub open spec fn grid_wf(grid: Grid) -> bool {
    &&& grid.len() == 3
    &&& forall|row: int| 0 <= row < 3 ==> (#[trigger] grid[row]).len() == 3
}

/// The grid with the cell at (`row`, `column`) replaced by `value`.
pub open spec fn placed(grid: Grid, row: int, column: int, value: BoardValue) -> Grid {
    grid.update(row, grid[row].update(column, value))
}

/// No cell of the grid is empty.
pub open spec fn is_full(grid: Grid) -> bool {
    forall|row: int, column: int|
        0 <= row < 3 && 0 <= column < 3 ==> #[trigger] grid[row][column] != BoardValue::Empty
}

/// The coordinates of cell `k` of line `line`. The eight lines are numbered
/// in a fixed order: the rows from the top, the columns from the left, the
/// main diagonal, the anti-diagonal. Each runs from the top downwards, a row
/// from the left.
pub open spec fn line_coord(line: int, k: int) -> (int, int) {
    if line < 3 {
        (line, k)
    } else if line < 6 {
        (k, line - 3)
    } else if line == 6 {
        (k, k)
    } else {
        (k, 2 - k)
    }
}

/// What cell `k` of line `line` holds.
pub open spec fn line_cell(grid: Grid, line: int, k: int) -> BoardValue {
    grid[line_coord(line, k).0][line_coord(line, k).1]
}

/// The player who owns all three cells of a line, if one does.
pub open spec fn line_owner(grid: Grid, line: int) -> Option<Player> {
    match line_cell(grid, line, 0) {
        BoardValue::Filled(player) => if line_cell(grid, line, 1) == BoardValue::Filled(player)
            && line_cell(grid, line, 2) == BoardValue::Filled(player) {
            Some(player)
        } else {
            None
        },
        BoardValue::Empty => None,
    }
}

/// One row of the drawn board: its three cells between bars, then a line end.
pub open spec fn row_text(grid: Grid, row: int) -> Seq<char> {
    "│ "@ + grid[row][0].symbol_text() + " │ "@ + grid[row][1].symbol_text() + " │ "@
        + grid[row][2].symbol_text() + " │\n"@
}

/// The drawn board, seven lines in all: the three rows inside a frame, with
/// no line end after the last.
pub open spec fn board_text(grid: Grid) -> Seq<char> {
    "┌───┬───┬───┐\n"@ + row_text(grid, 0) + "├───┼───┼───┤\n"@ + row_text(grid, 1)
        + "├───┼───┼───┤\n"@ + row_text(grid, 2) + "└───┴───┴───┘"@
}

/// The 3x3 board, row-major.
pub struct Board(pub [[BoardValue; 3]; 3]);

impl View for Board {
    type V = Grid;

    open spec fn view(&self) -> Grid {
        Seq::new(3, |row: int| self.0[row]@)
    }
}

impl Default for Board {
    fn default() -> (board: Board)
        ensures
            forall|row: int, column: int|
                0 <= row < 3 && 0 <= column < 3 ==> #[trigger] board@[row][column]
                    == BoardValue::Empty,
    {
        Board(
            [
                [BoardValue::Empty, BoardValue::Empty, BoardValue::Empty],
                [BoardValue::Empty, BoardValue::Empty, BoardValue::Empty],
                [BoardValue::Empty, BoardValue::Empty, BoardValue::Empty],
            ],
        )
    }
}

impl Board {
    /// Every board is modelled by a well-formed grid.
    pub proof fn lemma_view_wf(&self)
        ensures
            grid_wf(self@),
    {
    }

    /// The cell at (`row`, `column`).
    pub fn get(&self, row: usize, column: usize) -> (value: BoardValue)
        requires
            row < 3,
            column < 3,
        ensures
            value == self@[row as int][column as int],
    {
        self.0[row][column]
    }

    /// Overwrites the cell at (`row`, `column`), whatever it held.
    pub fn set(&mut self, row: usize, column: usize, value: BoardValue)
        requires
            row < 3,
            column < 3,
        ensures
            final(self)@ == placed(old(self)@, row as int, column as int, value),
    {
        self.0[row][column] = value;
    }

    /// The eight lines on which a game can be won, each as its three cells,
    /// in the fixed order of `line_coord`.
    pub fn get_winnable_slices(&self) -> (slices: Vec<[BoardValue; 3]>)
        ensures
            slices@.len() == 8,
            forall|line: int, k: int|
                0 <= line < 8 && 0 <= k < 3 ==> #[trigger] slices@[line][k] == line_cell(
                    self@,
                    line,
                    k,
                ),
    {
        let cells = &self.0;
        vec![
            [cells[0][0], cells[0][1], cells[0][2]],
            [cells[1][0], cells[1][1], cells[1][2]],
            [cells[2][0], cells[2][1], cells[2][2]],
            [cells[0][0], cells[1][0], cells[2][0]],
            [cells[0][1], cells[1][1], cells[2][1]],
            [cells[0][2], cells[1][2], cells[2][2]],
            [cells[0][0], cells[1][1], cells[2][2]],
            [cells[0][2], cells[1][1], cells[2][0]],
        ]
    }

    /// All nine cells, row by row.
    pub fn get_all_cells(&self) -> (cells: Vec<BoardValue>)
        ensures
            cells@.len() == 9,
            forall|i: int| 0 <= i < 9 ==> #[trigger] cells@[i] == self@[i / 3][i % 3],
    {
        let mut cells: Vec<BoardValue> = Vec::new();
        for row in 0..3usize
            invariant
                cells@.len() == 3 * row,
                forall|i: int| 0 <= i < 3 * row ==> #[trigger] cells@[i] == self@[i / 3][i % 3],
        {
            for column in 0..3usize
                invariant
                    row < 3,
                    cells@.len() == 3 * row + column,
                    forall|i: int|
                        0 <= i < 3 * row + column ==> #[trigger] cells@[i] == self@[i / 3][i % 3],
            {
                cells.push(self.0[row][column]);
            }
        }
        cells
    }

    /// Draws one row of the board.
    pub fn render_row(&self, row: usize) -> (text: String)
        requires
            row < 3,
        ensures
            text@ == row_text(self@, row as int),
    {
        let mut text = String::from_str("│ ");
        text.append(self.0[row][0].symbol());
        text.append(" │ ");
        text.append(self.0[row][1].symbol());
        text.append(" │ ");
        text.append(self.0[row][2].symbol());
        text.append(" │\n");
        text
    }

    /// Draws the board as text.
    pub fn render(&self) -> (text: String)
        ensures
            text@ == board_text(self@),
    {
        let mut text = String::from_str("┌───┬───┬───┐\n");
        text.append(self.render_row(0).as_str());
        text.append("├───┼───┼───┤\n");
        text.append(self.render_row(1).as_str());
        text.append("├───┼───┼───┤\n");
        text.append(self.render_row(2).as_str());
        text.append("└───┴───┴───┘");
        text
    }
}

} // verus!
