//! The 4x4 board game: gravity placements, win detection in a fixed scan
//! order, rendering, and randomized boards.

use vstd::prelude::*;
use vstd::string::StringExecFns;
use crate::rng::coin_flip;

verus! {

/// One cell of the grid: empty, or claimed by one of the two teams.
#[derive(Clone, Copy, PartialEq, Eq, Structural, Debug)]
pub enum TileState {
    Empty,
    Cookie,
    Milk,
}

/// The ways a placement attempt can be rejected.
#[derive(Debug)]
pub enum BoardError {
    ColumnIsFull,
    GameIsOver,
    InvalidTeam,
    InvalidColumn,
}

impl BoardError {
    /// The response status a rejection maps to: a blocked game (column full,
    /// game already over) is "service unavailable", a malformed request
    /// (invalid team or column) is "bad request".
    pub fn http_status(&self) -> (s: u16)
        ensures
            match self {
                BoardError::ColumnIsFull => s == 503,
                BoardError::GameIsOver => s == 503,
                BoardError::InvalidColumn => s == 400,
                BoardError::InvalidTeam => s == 400,
            },
    {
        match self {
            BoardError::ColumnIsFull => 503,
            BoardError::GameIsOver => 503,
            BoardError::InvalidColumn => 400,
            BoardError::InvalidTeam => 400,
        }
    }
}

/// The terminal state of a finished game.
#[derive(Clone, Copy, PartialEq, Eq, Structural, Debug)]
pub enum GameOutcome {
    CookieWins,
    MilkWins,
    Draw,
}

/// A 4x4 grid, stored row-major as 16 tiles.
#[derive(Clone, Debug)]
pub struct Board {
    grid: Vec<TileState>,
}

/// The tile in row `r`, column `c` of a row-major 4x4 grid.
pub open spec fn cell(g: Seq<TileState>, r: int, c: int) -> TileState {
    g[r * 4 + c]
}

/// The all-empty grid.
pub open spec fn empty_grid() -> Seq<TileState> {
    Seq::new(16, |i: int| TileState::Empty)
}

/// Row `r` is four identical non-empty tiles.
pub open spec fn row_winner(g: Seq<TileState>, r: int) -> bool {
    &&& cell(g, r, 0) != TileState::Empty
    &&& cell(g, r, 1) == cell(g, r, 0)
    &&& cell(g, r, 2) == cell(g, r, 0)
    &&& cell(g, r, 3) == cell(g, r, 0)
}

/// Column `c` is four identical non-empty tiles.
pub open spec fn col_winner(g: Seq<TileState>, c: int) -> bool {
    &&& cell(g, 0, c) != TileState::Empty
    &&& cell(g, 1, c) == cell(g, 0, c)
    &&& cell(g, 2, c) == cell(g, 0, c)
    &&& cell(g, 3, c) == cell(g, 0, c)
}

/// The top-left-to-bottom-right diagonal is four identical non-empty tiles.
pub open spec fn diag_winner(g: Seq<TileState>) -> bool {
    &&& cell(g, 0, 0) != TileState::Empty
    &&& cell(g, 1, 1) == cell(g, 0, 0)
    &&& cell(g, 2, 2) == cell(g, 0, 0)
    &&& cell(g, 3, 3) == cell(g, 0, 0)
}

/// The bottom-left-to-top-right diagonal is four identical non-empty tiles.
pub open spec fn anti_diag_winner(g: Seq<TileState>) -> bool {
    &&& cell(g, 3, 0) != TileState::Empty
    &&& cell(g, 2, 1) == cell(g, 3, 0)
    &&& cell(g, 1, 2) == cell(g, 3, 0)
    &&& cell(g, 0, 3) == cell(g, 3, 0)
}

/// No tile of the grid is empty.
pub open spec fn is_full(g: Seq<TileState>) -> bool {
    forall|i: int| 0 <= i < 16 ==> g[i] != TileState::Empty
}

/// Some row, column or diagonal is four identical non-empty tiles.
pub open spec fn has_winning_line(g: Seq<TileState>) -> bool {
    ||| row_winner(g, 0)
    ||| row_winner(g, 1)
    ||| row_winner(g, 2)
    ||| row_winner(g, 3)
    ||| col_winner(g, 0)
    ||| col_winner(g, 1)
    ||| col_winner(g, 2)
    ||| col_winner(g, 3)
    ||| diag_winner(g)
    ||| anti_diag_winner(g)
}

/// The outcome credited to the non-empty marker `t` that owns a winning line.
pub open spec fn outcome_of(t: TileState) -> GameOutcome {
    if t == TileState::Cookie {
        GameOutcome::CookieWins
    } else {
        GameOutcome::MilkWins
    }
}

/// Win detection in the fixed scan order: rows top to bottom, then columns
/// left to right, then the main diagonal, then the anti-diagonal. A full grid
/// with no winning line is a draw; otherwise the game is still in progress.
pub open spec fn spec_winner(g: Seq<TileState>) -> Option<GameOutcome> {
    if row_winner(g, 0) {
        Some(outcome_of(cell(g, 0, 0)))
    } else if row_winner(g, 1) {
        Some(outcome_of(cell(g, 1, 0)))
    } else if row_winner(g, 2) {
        Some(outcome_of(cell(g, 2, 0)))
    } else if row_winner(g, 3) {
        Some(outcome_of(cell(g, 3, 0)))
    } else if col_winner(g, 0) {
        Some(outcome_of(cell(g, 0, 0)))
    } else if col_winner(g, 1) {
        Some(outcome_of(cell(g, 0, 1)))
    } else if col_winner(g, 2) {
        Some(outcome_of(cell(g, 0, 2)))
    } else if col_winner(g, 3) {
        Some(outcome_of(cell(g, 0, 3)))
    } else if diag_winner(g) {
        Some(outcome_of(cell(g, 0, 0)))
    } else if anti_diag_winner(g) {
        Some(outcome_of(cell(g, 3, 0)))
    } else if is_full(g) {
        Some(GameOutcome::Draw)
    } else {
        None
    }
}

/// The text reported for a terminal state.
pub open spec fn outcome_text(o: GameOutcome) -> Seq<char> {
    match o {
        GameOutcome::CookieWins => "Cookie wins!\n"@,
        GameOutcome::MilkWins => "Milk wins!\n"@,
        GameOutcome::Draw => "No winner.\n"@,
    }
}

/// The marker a team name stands for, if the name is valid.
pub open spec fn team_marker(team: Seq<char>) -> Option<TileState> {
    if team == "cookie"@ {
        Some(TileState::Cookie)
    } else if team == "milk"@ {
        Some(TileState::Milk)
    } else {
        None
    }
}

/// Does 0-based column `c` still hold an empty tile?
pub open spec fn col_has_empty(g: Seq<TileState>, c: int) -> bool {
    ||| cell(g, 0, c) == TileState::Empty
    ||| cell(g, 1, c) == TileState::Empty
    ||| cell(g, 2, c) == TileState::Empty
    ||| cell(g, 3, c) == TileState::Empty
}

/// The bottom-most empty row of 0-based column `c`, scanning upward from the
/// bottom row. Meaningful only when the column has an empty tile.
pub open spec fn lowest_empty_row(g: Seq<TileState>, c: int) -> int {
    if cell(g, 3, c) == TileState::Empty {
        3
    } else if cell(g, 2, c) == TileState::Empty {
        2
    } else if cell(g, 1, c) == TileState::Empty {
        1
    } else {
        0
    }
}

/// The grid after dropping marker `t` into 0-based column `c`.
pub open spec fn place_grid(g: Seq<TileState>, t: TileState, c: int) -> Seq<TileState> {
    g.update(lowest_empty_row(g, c) * 4 + c, t)
}

/// The grid a row-major sequence of coin flips produces: heads is a cookie
/// tile, tails a milk tile, so no tile is empty.
pub open spec fn grid_of_flips(flips: Seq<bool>) -> Seq<TileState> {
    flips.map(
        |i: int, heads: bool|
            if heads {
                TileState::Cookie
            } else {
                TileState::Milk
            },
    )
}

/// The glyphs one tile renders to.
pub open spec fn glyph(t: TileState) -> Seq<char> {
    match t {
        TileState::Empty => "."@,
        TileState::Cookie => "C"@,
        TileState::Milk => "M"@,
    }
}

/// One rendered row: the four tiles of row `r` between border glyphs.
pub open spec fn spec_render_row(g: Seq<TileState>, r: int) -> Seq<char> {
    "#"@ + glyph(cell(g, r, 0)) + glyph(cell(g, r, 1)) + glyph(cell(g, r, 2)) + glyph(
        cell(g, r, 3),
    ) + "#\n"@
}

/// The rendered grid: the four rows over a bottom border.
pub open spec fn spec_render(g: Seq<TileState>) -> Seq<char> {
    spec_render_row(g, 0) + spec_render_row(g, 1) + spec_render_row(g, 2) + spec_render_row(g, 3)
        + "######\n"@
}

/// The full board report: the rendered grid, followed by the terminal text
/// when the game is over.
pub open spec fn spec_show(g: Seq<TileState>) -> Seq<char> {
    match spec_winner(g) {
        Some(o) => spec_render(g) + outcome_text(o),
        None => spec_render(g),
    }
}

/// A vector of 16 empty tiles.
fn empty_tiles() -> (v: Vec<TileState>)
    ensures
        v@ == empty_grid(),
{
    let mut v: Vec<TileState> = Vec::new();
    let mut i: usize = 0;
    while i < 16
        invariant
            v@.len() == i,
            i <= 16,
            forall|j: int| 0 <= j < i ==> v@[j] == TileState::Empty,
        decreases 16 - i,
    {
        v.push(TileState::Empty);
        i = i + 1;
    }
    proof {
        assert(v@ =~= empty_grid());
    }
    v
}

/// The text announcing a win for the non-empty marker `t`.
fn win_text(t: TileState) -> (r: String)
    requires
        t != TileState::Empty,
    ensures
        r@ == outcome_text(outcome_of(t)),
{
    match t {
        TileState::Cookie => "Cookie wins!\n".to_owned(),
        _ => "Milk wins!\n".to_owned(),
    }
}

impl Board {
    /// The grid as a row-major sequence of 16 tiles.
    pub closed spec fn view(&self) -> Seq<TileState> {
        self.grid@
    }

    /// Well-formedness: the grid always holds exactly 16 tiles.
    pub open spec fn wf(&self) -> bool {
        self@.len() == 16
    }

    /// A board starts with every tile empty.
    pub fn new() -> (b: Board)
        ensures
            b.wf(),
            b@ == empty_grid(),
    {
        Board { grid: empty_tiles() }
    }

    /// A board over the given 16 tiles, row-major; `None` when the tile
    /// count is wrong.
    pub fn from_tiles(tiles: Vec<TileState>) -> (b: Option<Board>)
        ensures
            match b {
                Some(board) => board.wf() && board@ == tiles@ && tiles@.len() == 16,
                None => tiles@.len() != 16,
            },
    {
        if tiles.len() == 16 {
            Some(Board { grid: tiles })
        } else {
            None
        }
    }

    /// Set every tile back to empty.
    pub fn reset(&mut self)
        ensures
            final(self).wf(),
            final(self)@ == empty_grid(),
    {
        self.grid = empty_tiles();
    }

    /// The tile in `row`, `col` (0-based).
    pub fn tile(&self, row: usize, col: usize) -> (t: TileState)
        requires
            self.wf(),
            row < 4,
            col < 4,
        ensures
            t == cell(self@, row as int, col as int),
    {
        self.grid[row * 4 + col]
    }

    /// Are the four tiles at these flat indices one non-empty marker?
    fn check_line(&self, i0: usize, i1: usize, i2: usize, i3: usize) -> (r: bool)
        requires
            self.wf(),
            i0 < 16,
            i1 < 16,
            i2 < 16,
            i3 < 16,
        ensures
            r == (self@[i0 as int] != TileState::Empty && self@[i1 as int] == self@[i0 as int]
                && self@[i2 as int] == self@[i0 as int] && self@[i3 as int] == self@[i0 as int]),
    {
        let t0 = self.grid[i0];
        t0 != TileState::Empty && self.grid[i1] == t0 && self.grid[i2] == t0 && self.grid[i3] == t0
    }

    /// Is every tile occupied?
    fn is_board_full(&self) -> (r: bool)
        requires
            self.wf(),
        ensures
            r == is_full(self@),
    {
        let mut i: usize = 0;
        while i < 16
            invariant
                self.wf(),
                i <= 16,
                forall|j: int| 0 <= j < i ==> self@[j] != TileState::Empty,
            decreases 16 - i,
        {
            if self.grid[i] == TileState::Empty {
                return false;
            }
            i = i + 1;
        }
        true
    }

    /// The terminal text of the current grid: a win for the first winning
    /// line in scan order, a draw on a full grid, or nothing while the game
    /// is still in progress.
    pub fn get_winner(&self) -> (r: Option<String>)
        requires
            self.wf(),
        ensures
            match spec_winner(self@) {
                Some(o) => r matches Some(s) && s@ == outcome_text(o),
                None => r is None,
            },
    {
        if self.check_line(0, 1, 2, 3) {
            return Some(win_text(self.grid[0]));
        }
        if self.check_line(4, 5, 6, 7) {
            return Some(win_text(self.grid[4]));
        }
        if self.check_line(8, 9, 10, 11) {
            return Some(win_text(self.grid[8]));
        }
        if self.check_line(12, 13, 14, 15) {
            return Some(win_text(self.grid[12]));
        }
        if self.check_line(0, 4, 8, 12) {
            return Some(win_text(self.grid[0]));
        }
        if self.check_line(1, 5, 9, 13) {
            return Some(win_text(self.grid[1]));
        }
        if self.check_line(2, 6, 10, 14) {
            return Some(win_text(self.grid[2]));
        }
        if self.check_line(3, 7, 11, 15) {
            return Some(win_text(self.grid[3]));
        }
        if self.check_line(0, 5, 10, 15) {
            return Some(win_text(self.grid[0]));
        }
        if self.check_line(12, 9, 6, 3) {
            return Some(win_text(self.grid[12]));
        }
        if self.is_board_full() {
            return Some("No winner.\n".to_owned());
        }
        None
    }

    /// Drop the team's marker into the 1-based `column`. The move is rejected
    /// when the game is already over, the team name or column is invalid, or
    /// the column is full; otherwise the marker lands on the bottom-most
    /// empty tile and the terminal text of the new grid, if any, is returned.
    pub fn place_item(&mut self, team: String, column: usize) -> (r: Result<
        Option<String>,
        BoardError,
    >)
        requires
            old(self).wf(),
        ensures
            final(self).wf(),
            ({
                let g = old(self)@;
                let c = column as int - 1;
                if spec_winner(g) is Some {
                    final(self)@ == g && r matches Err(BoardError::GameIsOver)
                } else if team_marker(team@) is None {
                    final(self)@ == g && r matches Err(BoardError::InvalidTeam)
                } else if !(1 <= column <= 4) {
                    final(self)@ == g && r matches Err(BoardError::InvalidColumn)
                } else if !col_has_empty(g, c) {
                    final(self)@ == g && r matches Err(BoardError::ColumnIsFull)
                } else {
                    &&& team_marker(team@) matches Some(t) && final(self)@ == place_grid(g, t, c)
                    &&& match r {
                        Ok(Some(s)) => spec_winner(final(self)@) matches Some(o) && s@
                            == outcome_text(o),
                        Ok(None) => spec_winner(final(self)@) is None,
                        Err(_) => false,
                    }
                }
            }),
    {
        if self.get_winner().is_some() {
            return Err(BoardError::GameIsOver);
        }
        let cookie: String = "cookie".to_owned();
        let milk: String = "milk".to_owned();
        let t: TileState = if team == cookie {
            TileState::Cookie
        } else if team == milk {
            TileState::Milk
        } else {
            return Err(BoardError::InvalidTeam);
        };
        if column < 1 || column > 4 {
            return Err(BoardError::InvalidColumn);
        }
        let ci = column - 1;
        if self.grid[12 + ci] == TileState::Empty {
            self.grid[12 + ci] = t;
        } else if self.grid[8 + ci] == TileState::Empty {
            self.grid[8 + ci] = t;
        } else if self.grid[4 + ci] == TileState::Empty {
            self.grid[4 + ci] = t;
        } else if self.grid[ci] == TileState::Empty {
            self.grid[ci] = t;
        } else {
            return Err(BoardError::ColumnIsFull);
        }
        Ok(self.get_winner())
    }

    /// The board a row-major sequence of 16 coin flips produces: heads is a
    /// cookie tile, tails a milk tile. `None` when the flip count is wrong.
    pub fn board_from_flips(flips: &Vec<bool>) -> (b: Option<Board>)
        ensures
            match b {
                Some(board) => flips@.len() == 16 && board.wf() && board@ == grid_of_flips(
                    flips@,
                ),
                None => flips@.len() != 16,
            },
    {
        if flips.len() != 16 {
            return None;
        }
        let mut grid: Vec<TileState> = Vec::new();
        let mut i: usize = 0;
        while i < 16
            invariant
                flips@.len() == 16,
                grid@.len() == i,
                i <= 16,
                forall|j: int|
                    0 <= j < i ==> grid@[j] == (if flips@[j] {
                        TileState::Cookie
                    } else {
                        TileState::Milk
                    }),
            decreases 16 - i,
        {
            if flips[i] {
                grid.push(TileState::Cookie);
            } else {
                grid.push(TileState::Milk);
            }
            i = i + 1;
        }
        proof {
            assert(grid@ =~= grid_of_flips(flips@));
        }
        Some(Board { grid })
    }

    /// A board with every tile drawn from the random source: a coin flip
    /// picks one of the two markers for each cell in row-major order, so no
    /// tile is left empty. The shared board is not touched.
    pub fn create_random_board(rng: &mut rand::rngs::StdRng) -> (b: Board)
        ensures
            b.wf(),
            forall|i: int| 0 <= i < 16 ==> b@[i] != TileState::Empty,
    {
        let mut flips: Vec<bool> = Vec::new();
        let mut i: usize = 0;
        while i < 16
            invariant
                flips@.len() == i,
                i <= 16,
            decreases 16 - i,
        {
            let f = coin_flip(rng);
            flips.push(f);
            i = i + 1;
        }
        let b = Self::board_from_flips(&flips);
        b.unwrap()
    }

    /// One rendered row of the grid.
    fn render_row(&self, row: usize) -> (r: String)
        requires
            self.wf(),
            row < 4,
        ensures
            r@ == spec_render_row(self@, row as int),
    {
        let mut s: String = "#".to_owned();
        s.append(glyph_str(self.tile(row, 0)));
        s.append(glyph_str(self.tile(row, 1)));
        s.append(glyph_str(self.tile(row, 2)));
        s.append(glyph_str(self.tile(row, 3)));
        s.append("#\n");
        proof {
            assert(s@ =~= spec_render_row(self@, row as int));
        }
        s
    }

    /// The rendered grid, one bordered row per line over a bottom border.
    pub fn render(&self) -> (r: String)
        requires
            self.wf(),
        ensures
            r@ == spec_render(self@),
    {
        let mut s = self.render_row(0);
        s.append(self.render_row(1).as_str());
        s.append(self.render_row(2).as_str());
        s.append(self.render_row(3).as_str());
        s.append("######\n");
        proof {
            assert(s@ =~= spec_render(self@));
        }
        s
    }

    /// The full board report: the rendered grid, with the terminal text
    /// appended when the game is over.
    pub fn show(&self) -> (r: String)
        requires
            self.wf(),
        ensures
            r@ == spec_show(self@),
    {
        let mut s = self.render();
        match self.get_winner() {
            Some(t) => {
                s.append(t.as_str());
            },
            None => {},
        }
        s
    }
}

/// The glyphs of one tile.
fn glyph_str(t: TileState) -> (r: &'static str)
    ensures
        r@ == glyph(t),
{
    match t {
        TileState::Empty => ".",
        TileState::Cookie => "C",
        TileState::Milk => "M",
    }
}

/// Any full line of one marker decides the game: the grid is reported as
/// won, never as a draw and never as still in progress.
pub proof fn lemma_win_detected(g: Seq<TileState>)
    requires
        g.len() == 16,
        has_winning_line(g),
    ensures
        spec_winner(g) matches Some(o) && o != GameOutcome::Draw,
{
}

/// When every winning line on the grid belongs to the one marker `t`, the
/// game is decided for `t`.
pub proof fn lemma_single_marker_win(g: Seq<TileState>, t: TileState)
    requires
        g.len() == 16,
        t != TileState::Empty,
        has_winning_line(g),
        forall|r: int|
            0 <= r < 4 && #[trigger] row_winner(g, r) ==> cell(g, r, 0) == t,
        forall|c: int|
            0 <= c < 4 && #[trigger] col_winner(g, c) ==> cell(g, 0, c) == t,
        diag_winner(g) ==> cell(g, 0, 0) == t,
        anti_diag_winner(g) ==> cell(g, 3, 0) == t,
    ensures
        spec_winner(g) == Some(outcome_of(t)),
{
}

/// A full grid without a winning line is a draw, not a game in progress.
pub proof fn lemma_full_without_line_is_draw(g: Seq<TileState>)
    requires
        g.len() == 16,
        is_full(g),
        !has_winning_line(g),
    ensures
        spec_winner(g) == Some(GameOutcome::Draw),
{
}

/// Showing the board is read-only and deterministic: two reports of the same
/// grid are the same text.
pub proof fn lemma_show_deterministic(g: Seq<TileState>, r1: Seq<char>, r2: Seq<char>)
    requires
        r1 == spec_show(g),
        r2 == spec_show(g),
    ensures
        r1 == r2,
{
}

} // verus!
