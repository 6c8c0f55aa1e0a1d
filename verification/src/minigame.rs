//! The tile-based mini-game: a 20-by-20 grid parsed from a fixed text
//! template, a player that advances at a fixed step interval in the
//! direction of the latest key intent, collectible password pieces, and
//! a finish cell revealed once all pieces are collected.

use vstd::prelude::*;
use vstd::string::StrSliceExecFns;

use crate::geometry::{Dims, DimsV, Pos, PosV};
use crate::input::InputCtx;

verus! {

/// Cells per grid row and column.
pub const NUM_OF_CELLS: usize = 20;

/// Cells in the whole grid.
pub const GRID_CELLS: usize = 400;

/// Pixel size of one cell when drawn.
pub const CELL_SIZE: u32 = 40;

/// Milliseconds that must elapse between two committed steps.
pub const DURATION_BETWEEN_MOVES_MS: u64 = 200;

/// Password pieces required before the finish cell is revealed.
pub const KEYS_TOTAL: u8 = 5;

/// Grid coordinate where the finish cell appears.
pub const FINISH_X: i32 = 10;

/// Grid coordinate where the finish cell appears.
pub const FINISH_Y: i32 = 10;

/// The fixed map template.  `O` is an obstacle, `_` an empty cell, `X`
/// a password piece, and `P` the player's starting cell.
pub const MAP: &'static str = "
OOOOOOOOOOOOOOOOOOOO
O________X_________O
O__OOOOOOOOOOOOO___O
O______________O___O
O______________O___O
OOOOOOOOOOOOO__O_X_O
O______________O___O
O______________O___O
O__OOOOOOOOOOOOO___O
O__________________O
O________X_________O
O__________________O
O____________O_____O
OP___________O_X___O
O____________O_____O
O__________________O
O__________________O
O__________OOOOOOO_O
O_________________XO
OOOOOOOOOOOOOOOOOOOO";

#[derive(Clone, Copy, PartialEq, Eq, Structural, Debug)]
pub enum Cell {
    Empty,
    Player,
    Obstacle,
    PasswordPiece,
    Finish,
}

/// Index of grid coordinate (x, y) in the flat cell sequence.
pub open spec fn cell_index(x: int, y: int) -> int {
    y * 20 + x
}

/// Intermediate state of the template parser: the grid filled so far,
/// the cursor row and column, and the player start found so far.
pub struct ParseV {
    pub cells: Seq<Cell>,
    pub row: int,
    pub col: int,
    pub player_x: int,
    pub player_y: int,
}

pub open spec fn parse_init() -> ParseV {
    ParseV {
        cells: Seq::new(400, |i: int| Cell::Empty),
        row: 0,
        col: 0,
        player_x: 1,
        player_y: 9,
    }
}

/// Writes a parsed cell at the cursor, ignoring cursor positions
/// outside the grid.
pub open spec fn parse_write(st: ParseV, cell: Cell) -> ParseV {
    if 0 <= st.row < 20 && 0 <= st.col < 20 {
        ParseV { cells: st.cells.update(cell_index(st.col, st.row), cell), ..st }
    } else {
        st
    }
}

/// Moves the cursor one column right; the column saturates well past
/// the grid, where its exact value no longer matters.
pub open spec fn parse_advance(st: ParseV) -> ParseV {
    ParseV { col: if st.col < 100 { st.col + 1 } else { st.col }, ..st }
}

/// One character of template input.
pub open spec fn parse_step(st: ParseV, c: char) -> ParseV {
    if c == '\n' {
        ParseV { row: if st.row < 100 { st.row + 1 } else { st.row }, col: 0, ..st }
    } else if c == '_' {
        parse_advance(parse_write(st, Cell::Empty))
    } else if c == 'O' || c == 'o' {
        parse_advance(parse_write(st, Cell::Obstacle))
    } else if c == 'X' || c == 'x' {
        parse_advance(parse_write(st, Cell::PasswordPiece))
    } else if c == 'P' || c == 'p' {
        let st1 = if 0 <= st.row < 20 && 0 <= st.col < 20 {
            ParseV { player_x: st.col, player_y: st.row, ..st }
        } else {
            st
        };
        parse_advance(st1)
    } else {
        st
    }
}

/// Parser state after consuming template characters 1 through i - 1;
/// the leading character (a newline in the fixed template) is skipped.
pub open spec fn parse_upto(s: Seq<char>, i: int) -> ParseV
    decreases i,
{
    if i <= 1 {
        parse_init()
    } else {
        parse_step(parse_upto(s, i - 1), s[i - 1])
    }
}

/// The parse of a whole template.
pub open spec fn parse_map(s: Seq<char>) -> ParseV {
    parse_upto(s, s.len() as int)
}

pub open spec fn parse_state_wf(st: ParseV) -> bool {
    &&& st.cells.len() == 400
    &&& 0 <= st.player_x < 20
    &&& 0 <= st.player_y < 20
    &&& 0 <= st.row <= 100
    &&& 0 <= st.col <= 100
}

pub proof fn lemma_parse_upto_wf(s: Seq<char>, i: int)
    ensures
        parse_state_wf(parse_upto(s, i)),
    decreases i,
{
    if i <= 1 {
    } else {
        lemma_parse_upto_wf(s, i - 1);
    }
}

/// Parses a map template into the flat cell grid and the player's
/// starting coordinate.
pub fn cells_from_string(s: &str) -> (r: (Vec<Cell>, (i32, i32)))
    ensures
        r.0@ == parse_map(s@).cells,
        r.1.0 as int == parse_map(s@).player_x,
        r.1.1 as int == parse_map(s@).player_y,
{
    let len: usize = s.unicode_len();
    let mut cells: Vec<Cell> = Vec::new();
    let mut fill: usize = 0;
    while fill < GRID_CELLS
        invariant
            fill <= GRID_CELLS,
            cells@.len() == fill,
            forall|j: int| 0 <= j < fill ==> cells@[j] == Cell::Empty,
        decreases 400 - fill,
    {
        cells.push(Cell::Empty);
        fill += 1;
    }
    proof {
        assert(cells@ =~= parse_init().cells);
    }
    let mut row: usize = 0;
    let mut col: usize = 0;
    let mut px: i32 = 1;
    let mut py: i32 = 9;
    let mut i: usize = 1;
    while i < len
        invariant
            len == s@.len(),
            1 <= i,
            i <= len || i == 1,
            cells@ == parse_upto(s@, i as int).cells,
            row as int == parse_upto(s@, i as int).row,
            col as int == parse_upto(s@, i as int).col,
            px as int == parse_upto(s@, i as int).player_x,
            py as int == parse_upto(s@, i as int).player_y,
        decreases len - i,
    {
        proof {
            lemma_parse_upto_wf(s@, i as int);
        }
        let c: char = s.get_char(i);
        if c == '\n' {
            if row < 100 {
                row += 1;
            }
            col = 0;
        } else if c == '_' {
            if row < 20 && col < 20 {
                cells[row * 20 + col] = Cell::Empty;
            }
            if col < 100 {
                col += 1;
            }
        } else if c == 'O' || c == 'o' {
            if row < 20 && col < 20 {
                cells[row * 20 + col] = Cell::Obstacle;
            }
            if col < 100 {
                col += 1;
            }
        } else if c == 'X' || c == 'x' {
            if row < 20 && col < 20 {
                cells[row * 20 + col] = Cell::PasswordPiece;
            }
            if col < 100 {
                col += 1;
            }
        } else if c == 'P' || c == 'p' {
            if row < 20 && col < 20 {
                px = col as i32;
                py = row as i32;
            }
            if col < 100 {
                col += 1;
            }
        }
        i += 1;
    }
    (cells, (px, py))
}

pub struct MiniGame {
    pub cells: Vec<Cell>,
    pub player_position: (i32, i32),
    pub player_movement: (i32, i32),
    pub last_update: u64,
    pub new_movement: (i32, i32),
    pub keys_collected: u8,
}

/// Mathematical image of a `MiniGame`.
pub struct MiniGameV {
    pub cells: Seq<Cell>,
    pub player_position: (int, int),
    pub player_movement: (int, int),
    pub last_update: u64,
    pub new_movement: (int, int),
    pub keys_collected: int,
}

impl View for MiniGame {
    type V = MiniGameV;

    open spec fn view(&self) -> MiniGameV {
        MiniGameV {
            cells: self.cells@,
            player_position: (self.player_position.0 as int, self.player_position.1 as int),
            player_movement: (self.player_movement.0 as int, self.player_movement.1 as int),
            last_update: self.last_update,
            new_movement: (self.new_movement.0 as int, self.new_movement.1 as int),
            keys_collected: self.keys_collected as int,
        }
    }
}

/// A unit move along exactly one axis.
pub open spec fn dir_wf(d: (int, int)) -> bool {
    d == (1int, 0int) || d == (-1int, 0int) || d == (0int, 1int) || d == (0int, -1int)
}

impl MiniGameV {
    pub open spec fn wf(self) -> bool {
        &&& self.cells.len() == 400
        &&& 0 <= self.player_position.0 < 20
        &&& 0 <= self.player_position.1 < 20
        &&& dir_wf(self.player_movement)
        &&& dir_wf(self.new_movement)
        &&& 0 <= self.keys_collected <= KEYS_TOTAL as int
    }
}

/// The state of a freshly started game: the parsed fixed template, the
/// player at its start, moving right, nothing collected.
pub open spec fn minigame_init_spec(now_ms: u64) -> MiniGameV {
    let st = parse_map(MAP@);
    MiniGameV {
        cells: st.cells,
        player_position: (st.player_x, st.player_y),
        player_movement: (1int, 0int),
        last_update: now_ms,
        new_movement: (1int, 0int),
        keys_collected: 0,
    }
}

/// The movement intent after this frame's key presses: the latest
/// pressed direction wins, with left, right, up, down priority inside
/// one frame; with no press the previous intent stands.
pub open spec fn intent_spec(g: MiniGameV, ctx: InputCtx) -> (int, int) {
    if ctx.key_left {
        (-1int, 0int)
    } else if ctx.key_right {
        (1int, 0int)
    } else if ctx.key_up {
        (0int, -1int)
    } else if ctx.key_down {
        (0int, 1int)
    } else {
        g.new_movement
    }
}

/// Whether the fixed step interval has elapsed since the last
/// committed step.
pub open spec fn step_due(g: MiniGameV, now_ms: u64) -> bool {
    now_ms as int - g.last_update as int >= DURATION_BETWEEN_MOVES_MS as int
}

/// Reveals the finish cell once every password piece is collected.
pub open spec fn finish_reveal(g: MiniGameV) -> MiniGameV {
    if g.keys_collected == KEYS_TOTAL as int {
        MiniGameV {
            cells: g.cells.update(cell_index(FINISH_X as int, FINISH_Y as int), Cell::Finish),
            ..g
        }
    } else {
        g
    }
}

/// One tick of the game.  Returns the next state and whether the
/// finish cell was reached this tick.
pub open spec fn minigame_step_spec(g: MiniGameV, ctx: InputCtx) -> (MiniGameV, bool) {
    let pending = intent_spec(g, ctx);
    let erased = g.cells.update(
        cell_index(g.player_position.0, g.player_position.1),
        Cell::Empty,
    );
    if step_due(g, ctx.now_ms) {
        let nx = g.player_position.0 + pending.0;
        let ny = g.player_position.1 + pending.1;
        if !(0 <= nx < 20 && 0 <= ny < 20) {
            // out of bounds: full reset, before the player marker is drawn
            (minigame_init_spec(ctx.now_ms), false)
        } else {
            let moved = MiniGameV {
                cells: erased,
                player_position: (nx, ny),
                player_movement: pending,
                new_movement: pending,
                last_update: ctx.now_ms,
                ..g
            };
            let cur = if erased[cell_index(nx, ny)] == Cell::Obstacle {
                minigame_init_spec(ctx.now_ms)
            } else {
                moved
            };
            let landed = cur.cells[cell_index(cur.player_position.0, cur.player_position.1)];
            if landed == Cell::Finish {
                (cur, true)
            } else {
                let keys1 = if landed == Cell::PasswordPiece && cur.keys_collected < KEYS_TOTAL as int {
                    cur.keys_collected + 1
                } else {
                    cur.keys_collected
                };
                let drawn = MiniGameV {
                    cells: cur.cells.update(
                        cell_index(cur.player_position.0, cur.player_position.1),
                        Cell::Player,
                    ),
                    keys_collected: keys1,
                    ..cur
                };
                (finish_reveal(drawn), false)
            }
        }
    } else {
        let drawn = MiniGameV {
            cells: erased.update(
                cell_index(g.player_position.0, g.player_position.1),
                Cell::Player,
            ),
            new_movement: pending,
            ..g
        };
        (finish_reveal(drawn), false)
    }
}

/// One game tick keeps the state well formed.
pub proof fn lemma_minigame_step_wf(g: MiniGameV, ctx: InputCtx)
    requires
        g.wf(),
    ensures
        minigame_step_spec(g, ctx).0.wf(),
{
    lemma_minigame_init_wf(ctx.now_ms);
}

pub proof fn lemma_minigame_init_wf(now_ms: u64)
    ensures
        minigame_init_spec(now_ms).wf(),
{
    lemma_parse_upto_wf(MAP@, MAP@.len() as int);
}

impl MiniGame {
    /// Starts a fresh game from the fixed template at the given time.
    pub fn new(now_ms: u64) -> (g: MiniGame)
        ensures
            g@ == minigame_init_spec(now_ms),
            g@.wf(),
    {
        proof {
            lemma_minigame_init_wf(now_ms);
        }
        let parsed = cells_from_string(MAP);
        MiniGame {
            cells: parsed.0,
            player_position: parsed.1,
            player_movement: (1, 0),
            last_update: now_ms,
            new_movement: (1, 0),
            keys_collected: 0,
        }
    }

    /// Throws the current game away and starts over.
    pub fn restart(&mut self, now_ms: u64)
        ensures
            final(self)@ == minigame_init_spec(now_ms),
            final(self)@.wf(),
    {
        *self = MiniGame::new(now_ms);
    }

    /// One tick of the game.  Returns whether the finish cell was
    /// reached this tick.
    pub fn step(&mut self, ctx: &InputCtx) -> (hack_completed: bool)
        requires
            old(self)@.wf(),
        ensures
            final(self)@ == minigame_step_spec(old(self)@, *ctx).0,
            hack_completed == minigame_step_spec(old(self)@, *ctx).1,
            final(self)@.wf(),
    {
        let input: Option<(i32, i32)> = if ctx.key_left {
            Some((-1, 0))
        } else if ctx.key_right {
            Some((1, 0))
        } else if ctx.key_up {
            Some((0, -1))
        } else if ctx.key_down {
            Some((0, 1))
        } else {
            None
        };
        if let Some(dir) = input {
            self.new_movement = dir;
        }

        let px = self.player_position.0;
        let py = self.player_position.1;
        self.cells[(py as usize) * 20 + px as usize] = Cell::Empty;

        if ctx.now_ms >= self.last_update
            && ctx.now_ms - self.last_update >= DURATION_BETWEEN_MOVES_MS
        {
            let nx = px + self.new_movement.0;
            let ny = py + self.new_movement.1;
            self.player_movement = self.new_movement;
            self.player_position = (nx, ny);
            self.last_update = ctx.now_ms;

            if nx < 0 || nx >= NUM_OF_CELLS as i32 || ny < 0 || ny >= NUM_OF_CELLS as i32 {
                self.restart(ctx.now_ms);
                return false;
            }

            if self.cells[(ny as usize) * 20 + nx as usize] == Cell::Obstacle {
                self.restart(ctx.now_ms);
            }

            let cx = self.player_position.0;
            let cy = self.player_position.1;
            if self.cells[(cy as usize) * 20 + cx as usize] == Cell::Finish {
                return true;
            }
            if self.cells[(cy as usize) * 20 + cx as usize] == Cell::PasswordPiece
                && self.keys_collected < KEYS_TOTAL
            {
                self.keys_collected += 1;
            }
        }

        let cx = self.player_position.0;
        let cy = self.player_position.1;
        self.cells[(cy as usize) * 20 + cx as usize] = Cell::Player;

        if self.keys_collected == KEYS_TOTAL {
            self.cells[FINISH_Y as usize * 20 + FINISH_X as usize] = Cell::Finish;
        }

        false
    }
}

} // verus!
