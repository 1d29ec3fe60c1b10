//! What holds of every position and every move, proved over the model.

use crate::board::{grid_wf, is_full, line_coord, line_owner, placed, BoardValue, Grid, Player};
use crate::game::{status, winner, winner_from, GameStatus, PlayError, Position};
use vstd::prelude::*;

verus! {

/// No line of the grid is owned by one player.
pub open spec fn no_complete_line(grid: Grid) -> bool {
    forall|line: int| 0 <= line < 8 ==> (#[trigger] line_owner(grid, line)) is None
}

/// Line `line` is the first complete line of the grid, and `player` owns it.
pub open spec fn first_complete_line(grid: Grid, line: int, player: Player) -> bool {
    &&& 0 <= line < 8
    &&& line_owner(grid, line) == Some(player)
    &&& forall|earlier: int| 0 <= earlier < line ==> (#[trigger] line_owner(grid, earlier)) is None
}

/// A grid has no winner exactly when none of its eight lines is complete.
pub proof fn lemma_no_winner_iff_no_complete_line(grid: Grid)
    ensures
        winner(grid) is None <==> no_complete_line(grid),
{
    reveal_with_fuel(winner_from, 9);
}

/// The winner of a grid is the owner of its first complete line.
pub proof fn lemma_winner_owns_first_complete_line(grid: Grid, player: Player)
    ensures
        winner(grid) == Some(player) <==> exists|line: int|
            first_complete_line(grid, line, player),
{
    lemma_winner_from_is_first(grid, 0, player);
    if winner(grid) == Some(player) {
        let line = choose|line: int| first_complete_line_from(grid, 0, line, player);
        assert(first_complete_line(grid, line, player));
    }
    if exists|line: int| first_complete_line(grid, line, player) {
        let line = choose|line: int| first_complete_line(grid, line, player);
        assert(first_complete_line_from(grid, 0, line, player));
    }
}

/// Line `line` is the first complete line at or after line `from`.
pub open spec fn first_complete_line_from(grid: Grid, from: int, line: int, player: Player) -> bool {
    &&& from <= line < 8
    &&& line_owner(grid, line) == Some(player)
    &&& forall|earlier: int|
        from <= earlier < line ==> (#[trigger] line_owner(grid, earlier)) is None
}

/// The search from line `from` finds the owner of the first complete line
/// at or after it.
pub proof fn lemma_winner_from_is_first(grid: Grid, from: int, player: Player)
    requires
        0 <= from <= 8,
    ensures
        winner_from(grid, from) == Some(player) <==> exists|line: int|
            first_complete_line_from(grid, from, line, player),
    decreases 8 - from,
{
    if from >= 8 {
    } else if line_owner(grid, from) is Some {
        if winner_from(grid, from) == Some(player) {
            assert(first_complete_line_from(grid, from, from, player));
        }
        if exists|line: int| first_complete_line_from(grid, from, line, player) {
            let line = choose|line: int| first_complete_line_from(grid, from, line, player);
            if line > from {
                assert(line_owner(grid, from) is None);
            }
        }
    } else {
        let next = from + 1;
        lemma_winner_from_is_first(grid, next, player);
        if winner_from(grid, from) == Some(player) {
            let line = choose|line: int| first_complete_line_from(grid, next, line, player);
            assert(first_complete_line_from(grid, from, line, player));
        }
        if exists|line: int| first_complete_line_from(grid, from, line, player) {
            let line = choose|line: int| first_complete_line_from(grid, from, line, player);
            assert(first_complete_line_from(grid, next, line, player));
        }
    }
}

/// How a grid is judged, case by case: a player wins exactly when that
/// player owns the first complete line; the grid is a draw exactly when it
/// is full without a complete line; play goes on exactly when it has neither
/// a complete line nor all cells taken.
pub proof fn lemma_status_cases(grid: Grid)
    ensures
        forall|player: Player|
            status(grid) == GameStatus::PlayerWins(player) <==> exists|line: int| #[trigger]
                first_complete_line(grid, line, player),
        status(grid) == GameStatus::Draw <==> no_complete_line(grid) && is_full(grid),
        status(grid) == GameStatus::Continue <==> no_complete_line(grid) && !is_full(grid),
{
    lemma_no_winner_iff_no_complete_line(grid);
    assert forall|player: Player|
        status(grid) == GameStatus::PlayerWins(player) <==> exists|line: int| #[trigger]
            first_complete_line(grid, line, player) by {
        lemma_winner_owns_first_complete_line(grid, player);
    }
}

/// A refused move can be repeated at will: a move on a taken cell is
/// refused and leaves the position as it was, and so is the same move
/// made again.
pub proof fn lemma_refused_move_changes_nothing(position: Position, row: int, column: int)
    requires
        position.wf(),
        0 <= row < 3,
        0 <= column < 3,
        position.cells[row][column] != BoardValue::Empty,
    ensures
        position.play_result(row, column) == Err::<GameStatus, PlayError>(PlayError::InvalidMove),
        position.after_play(row, column) == position,
        position.after_play(row, column).play_result(row, column) == Err::<GameStatus, PlayError>(
            PlayError::InvalidMove,
        ),
        position.after_play(row, column).after_play(row, column) == position,
{
}

/// The turn passes to the opponent after a move that lets play go on, and
/// stays where it was after every other move: a win, a draw or a refusal.
pub proof fn lemma_turn_passes_only_while_play_goes_on(position: Position, row: int, column: int)
    requires
        position.wf(),
        0 <= row < 3,
        0 <= column < 3,
    ensures
        position.play_result(row, column) == Ok::<GameStatus, PlayError>(GameStatus::Continue)
            ==> position.after_play(row, column).to_move == position.to_move.other(),
        position.play_result(row, column) != Ok::<GameStatus, PlayError>(GameStatus::Continue)
            ==> position.after_play(row, column).to_move == position.to_move,
        position.to_move.other() != position.to_move,
{
}

/// A move keeps the grid well formed and never takes a mark back: every
/// cell that was filled holds what it held, and on an accepted move the
/// chosen cell alone changes, to the mover's mark.
pub proof fn lemma_move_only_adds_a_mark(position: Position, row: int, column: int)
    requires
        position.wf(),
        0 <= row < 3,
        0 <= column < 3,
    ensures
        position.after_play(row, column).wf(),
        forall|r: int, c: int|
            0 <= r < 3 && 0 <= c < 3 && (r != row || c != column || position.cells[r][c]
                != BoardValue::Empty) ==> #[trigger] position.after_play(row, column).cells[r][c]
                == position.cells[r][c],
        position.cells[row][column] == BoardValue::Empty ==> position.after_play(
            row,
            column,
        ).cells[row][column] == BoardValue::Filled(position.to_move),
{
}

/// The move that completes a line wins for the mover. Where no line was
/// complete before a move on a free cell, every line that is complete after
/// it belongs to the mover, the move returns the mover as the winner, and
/// the turn stays with the winner.
pub proof fn lemma_completing_a_line_wins(position: Position, row: int, column: int, line: int)
    requires
        position.wf(),
        0 <= row < 3,
        0 <= column < 3,
        position.cells[row][column] == BoardValue::Empty,
        no_complete_line(position.cells),
        0 <= line < 8,
        line_owner(position.marked(row, column), line) is Some,
    ensures
        line_owner(position.marked(row, column), line) == Some(position.to_move),
        position.play_result(row, column) == Ok::<GameStatus, PlayError>(
            GameStatus::PlayerWins(position.to_move),
        ),
        position.after_play(row, column).to_move == position.to_move,
{
    let after = position.marked(row, column);
    assert forall|l: int| 0 <= l < 8 && (#[trigger] line_owner(after, l)) is Some implies line_owner(
        after,
        l,
    ) == Some(position.to_move) by {
        lemma_new_line_runs_through_the_move(position, row, column, l);
    }
    lemma_no_winner_iff_no_complete_line(after);
    let champion = winner(after)->Some_0;
    lemma_winner_owns_first_complete_line(after, champion);
    let first = choose|first: int| first_complete_line(after, first, champion);
    assert(line_owner(after, first) is Some);
}

/// A line that a move on a free cell made complete holds the mover's mark
/// in all three cells.
proof fn lemma_new_line_runs_through_the_move(position: Position, row: int, column: int, line: int)
    requires
        position.wf(),
        0 <= row < 3,
        0 <= column < 3,
        position.cells[row][column] == BoardValue::Empty,
        0 <= line < 8,
        line_owner(position.cells, line) is None,
        line_owner(position.marked(row, column), line) is Some,
    ensures
        line_owner(position.marked(row, column), line) == Some(position.to_move),
{
    let after = position.marked(row, column);
    assert forall|k: int| 0 <= k < 3 implies {
        let (r, c) = #[trigger] line_coord(line, k);
        after[r][c] == if r == row && c == column {
            BoardValue::Filled(position.to_move)
        } else {
            position.cells[r][c]
        }
    } by {}
}

/// No win before a line is complete: a move on a free cell after which no
/// line is complete returns a draw if it filled the last cell, and lets
/// play go on otherwise.
pub proof fn lemma_no_win_without_a_complete_line(position: Position, row: int, column: int)
    requires
        position.wf(),
        0 <= row < 3,
        0 <= column < 3,
        position.cells[row][column] == BoardValue::Empty,
        no_complete_line(position.marked(row, column)),
    ensures
        is_full(position.marked(row, column)) ==> position.play_result(row, column) == Ok::<
            GameStatus,
            PlayError,
        >(GameStatus::Draw),
        !is_full(position.marked(row, column)) ==> position.play_result(row, column) == Ok::<
            GameStatus,
            PlayError,
        >(GameStatus::Continue),
{
    lemma_no_winner_iff_no_complete_line(position.marked(row, column));
}

/// A full grid without a complete line is a draw.
pub proof fn lemma_full_grid_without_line_is_draw(grid: Grid)
    requires
        grid_wf(grid),
        is_full(grid),
        no_complete_line(grid),
    ensures
        status(grid) == GameStatus::Draw,
{
    lemma_no_winner_iff_no_complete_line(grid);
}

/// A complete line decides before fullness does: a grid with a complete
/// line is won, never drawn, even when every cell is taken.
pub proof fn lemma_complete_line_beats_full_grid(grid: Grid, line: int)
    requires
        grid_wf(grid),
        0 <= line < 8,
        line_owner(grid, line) is Some,
    ensures
        status(grid) is PlayerWins,
{
    lemma_no_winner_iff_no_complete_line(grid);
}

/// One where the cell holds the player's mark, zero where it does not.
pub open spec fn mark(grid: Grid, row: int, column: int, player: Player) -> nat {
    if grid[row][column] == BoardValue::Filled(player) {
        1
    } else {
        0
    }
}

/// How many cells of the grid hold the player's mark.
pub open spec fn marks(grid: Grid, player: Player) -> nat {
    mark(grid, 0, 0, player) + mark(grid, 0, 1, player) + mark(grid, 0, 2, player) + mark(
        grid,
        1,
        0,
        player,
    ) + mark(grid, 1, 1, player) + mark(grid, 1, 2, player) + mark(grid, 2, 0, player) + mark(
        grid,
        2,
        1,
        player,
    ) + mark(grid, 2, 2, player)
}

/// The turn agrees with the marks on the grid: `X` moves first, so with `X`
/// to move both players have as many marks, and with `O` to move `X` has
/// one more.
pub open spec fn turn_matches_marks(position: Position) -> bool {
    marks(position.cells, Player::X) == marks(position.cells, Player::O) + if position.to_move
        == Player::O {
        1nat
    } else {
        0nat
    }
}

/// At the start of a game the turn agrees with the marks.
pub proof fn lemma_turn_matches_marks_at_start(position: Position)
    requires
        position.wf(),
        position.to_move == Player::X,
        forall|row: int, column: int|
            0 <= row < 3 && 0 <= column < 3 ==> #[trigger] position.cells[row][column]
                == BoardValue::Empty,
    ensures
        turn_matches_marks(position),
{
}

/// A mark set on a free cell adds one to the marks of its player and leaves
/// the marks of the opponent as they were.
pub proof fn lemma_placing_adds_one_mark(grid: Grid, row: int, column: int, player: Player)
    requires
        grid_wf(grid),
        0 <= row < 3,
        0 <= column < 3,
        grid[row][column] == BoardValue::Empty,
    ensures
        marks(placed(grid, row, column, BoardValue::Filled(player)), player) == marks(grid, player)
            + 1,
        marks(placed(grid, row, column, BoardValue::Filled(player)), player.other()) == marks(
            grid,
            player.other(),
        ),
{
    let after = placed(grid, row, column, BoardValue::Filled(player));
    assert forall|r: int, c: int, p: Player| 0 <= r < 3 && 0 <= c < 3 implies #[trigger] mark(
        after,
        r,
        c,
        p,
    ) == mark(grid, r, c, p) + if r == row && c == column && p == player {
        1nat
    } else {
        0nat
    } by {}
}

/// An accepted move adds one mark of the mover and none of the opponent; a
/// refused move adds none.
pub proof fn lemma_move_adds_one_mark(position: Position, row: int, column: int)
    requires
        position.wf(),
        0 <= row < 3,
        0 <= column < 3,
    ensures
        position.play_result(row, column) is Ok ==> marks(
            position.after_play(row, column).cells,
            position.to_move,
        ) == marks(position.cells, position.to_move) + 1,
        position.play_result(row, column) is Err ==> marks(
            position.after_play(row, column).cells,
            position.to_move,
        ) == marks(position.cells, position.to_move),
        marks(position.after_play(row, column).cells, position.to_move.other()) == marks(
            position.cells,
            position.to_move.other(),
        ),
{
    if position.cells[row][column] == BoardValue::Empty {
        lemma_placing_adds_one_mark(position.cells, row, column, position.to_move);
        assert(position.after_play(row, column).cells == position.marked(row, column));
    } else {
        assert(position.after_play(row, column).cells == position.cells);
    }
}

/// While play goes on the turn keeps agreeing with the marks: the player to
/// move is always the one whose move is due.
pub proof fn lemma_turn_matches_marks_while_play_goes_on(position: Position, row: int, column: int)
    requires
        position.wf(),
        0 <= row < 3,
        0 <= column < 3,
        turn_matches_marks(position),
        position.play_result(row, column) == Ok::<GameStatus, PlayError>(GameStatus::Continue)
            || position.play_result(row, column) is Err,
    ensures
        turn_matches_marks(position.after_play(row, column)),
{
    lemma_move_adds_one_mark(position, row, column);
}

/// A game ends: a grid on which the two players have nine marks between
/// them is full, and on a full grid play does not go on.
pub proof fn lemma_nine_marks_end_the_game(grid: Grid)
    requires
        grid_wf(grid),
        marks(grid, Player::X) + marks(grid, Player::O) == 9,
    ensures
        is_full(grid),
        status(grid) != GameStatus::Continue,
{
    assert forall|row: int, column: int| 0 <= row < 3 && 0 <= column < 3 implies #[trigger] grid[row][column]
        != BoardValue::Empty by {
        assert forall|r: int, c: int| 0 <= r < 3 && 0 <= c < 3 implies #[trigger] mark(
            grid,
            r,
            c,
            Player::X,
        ) + mark(grid, r, c, Player::O) <= 1 by {}
    }
}

} // verus!
