//! One board's full state machine: the active piece lifecycle
//! (spawn, fall or drop, lock, blast, clear, delay, spawn), gravity and
//! line-removal scheduling through rate regulators, and game-over detection.

use std::collections::VecDeque;

use vstd::prelude::*;

use crate::frequency_regulator::FrequencyRegulator;
use crate::shape::burned;
use crate::shape::grid_cols;
use crate::shape::piece_in_bounds;
use crate::shape::piece_intersects;
use crate::shape::preview_of;
use crate::shape::rows_of;
use crate::shape::lemma_base_cell_within;
use crate::shape::CellType;
use crate::shape::Rotation;
use crate::shape::Tetromino;
use crate::shape::TetrominoType;

verus! {

/// One queued board action: the six player actions, plus the internal
/// cross-board attack payload `BottomRefill` that only the pairing layer
/// enqueues.
#[derive(Debug, PartialEq, Eq, Clone, Copy, Structural)]
pub enum Action {
    MoveLeft,
    MoveRight,
    MoveDown,
    RotateLeft,
    RotateRight,
    Drop,
    BottomRefill,
}

/// What one `step` call did: exactly one of these per call.
#[derive(Debug, PartialEq, Eq, Clone, Copy, Structural)]
pub enum StepResult {
    /// Nothing happened.
    Nothing,
    /// An action was dequeued and attempted; the flag tells whether it took
    /// effect.
    ActionPerformed(Action, bool),
    /// One blasted row was shifted out.
    LineRemoved,
    /// The game is over: a spawn failed now or earlier.
    GameOver,
}

/// A fresh `width` x `height` grid of empty cells.
pub(crate) fn empty_grid(width: usize, height: usize) -> (g: Vec<Vec<CellType>>)
    ensures
        g@.len() == height,
        grid_cols(rows_of(g@), width as int),
        forall|y: int, x: int|
            0 <= y < height && 0 <= x < width ==> rows_of(g@)[y][x] == CellType::Empty,
{
    let mut g: Vec<Vec<CellType>> = Vec::new();
    let mut y: usize = 0;
    while y < height
        invariant
            y <= height,
            g@.len() == y,
            grid_cols(rows_of(g@), width as int),
            forall|yy: int, x: int|
                0 <= yy < y && 0 <= x < width ==> rows_of(g@)[yy][x] == CellType::Empty,
        decreases height - y,
    {
        let mut row: Vec<CellType> = Vec::new();
        let mut x: usize = 0;
        while x < width
            invariant
                x <= width,
                row@.len() == x,
                forall|xx: int| 0 <= xx < x ==> row@[xx] == CellType::Empty,
            decreases width - x,
        {
            row.push(CellType::Empty);
            x = x + 1;
        }
        let ghost g_prev = g@;
        g.push(row);
        proof {
            assert forall|yy: int| 0 <= yy < g@.len() implies (#[trigger] rows_of(g@)[yy]).len()
                == width as int by {
                assert(rows_of(g@)[yy] == g@[yy]@);
                if yy < g_prev.len() {
                    assert(g@[yy] == g_prev[yy]);
                    assert(rows_of(g_prev)[yy] == g_prev[yy]@);
                }
            }
            assert forall|yy: int, x: int| 0 <= yy < y + 1 && 0 <= x < width implies rows_of(
                g@,
            )[yy][x] == CellType::Empty by {
                assert(rows_of(g@)[yy] == g@[yy]@);
                if yy < g_prev.len() {
                    assert(g@[yy] == g_prev[yy]);
                    assert(rows_of(g_prev)[yy] == g_prev[yy]@);
                    assert(rows_of(g_prev)[yy][x] == CellType::Empty);
                }
            }
        }
        y = y + 1;
    }
    g
}

/// One synchronized falling-block board.
pub struct Tetris {
    pub(crate) cols: usize,
    pub(crate) rows: usize,
    pub(crate) game_over: bool,
    pub(crate) field: Vec<Vec<CellType>>,
    pub(crate) preview: Vec<Vec<CellType>>,
    pub(crate) current: Option<Tetromino>,
    pub(crate) next: TetrominoType,
    pub(crate) actions: VecDeque<Action>,
    pub(crate) drop: bool,
    pub(crate) fall_speed: FrequencyRegulator,
    pub(crate) drop_speed: FrequencyRegulator,
    pub(crate) line_remove_speed: FrequencyRegulator,
    pub(crate) line_remove_delay: Option<usize>,
}

/// The spawn position of kind `t` on a board `cols` wide: rotation 0, the
/// bounding-box origin centered at the top.
pub open spec fn spawn_piece(cols: int, t: TetrominoType) -> Tetromino {
    Tetromino {
        tetromino_type: t,
        rotation: Rotation::R0,
        x: (cols / 2 - 2) as isize,
        y: 0 as isize,
    }
}

impl Tetris {
    /// Well-formedness: the grid is `cols` x `rows` and within machine
    /// bounds, the preview is 4x4, the three regulators are well formed, and
    /// the active piece, when present, lies fully inside the grid.
    pub open(crate) spec fn wf(self) -> bool {
        &&& 1 <= self.cols
        &&& 1 <= self.rows
        &&& self.cols + 4 <= isize::MAX
        &&& self.rows + 4 <= isize::MAX
        &&& self.field@.len() == self.rows
        &&& grid_cols(rows_of(self.field@), self.cols as int)
        &&& self.preview@.len() == 4
        &&& grid_cols(rows_of(self.preview@), 4)
        &&& self.fall_speed.wf()
        &&& self.drop_speed.wf()
        &&& self.line_remove_speed.wf()
        &&& match self.current {
            Some(p) => piece_in_bounds(p, self.cols as int, self.rows as int),
            None => true,
        }
    }

    pub open(crate) spec fn spec_cols(self) -> int {
        self.cols as int
    }

    pub open(crate) spec fn spec_rows(self) -> int {
        self.rows as int
    }

    /// The grid contents, as a sequence of rows.
    pub open(crate) spec fn grid(self) -> Seq<Seq<CellType>> {
        rows_of(self.field@)
    }

    /// The 4x4 preview contents.
    pub open(crate) spec fn preview_grid(self) -> Seq<Seq<CellType>> {
        rows_of(self.preview@)
    }

    /// The pending actions, front first.
    pub open(crate) spec fn action_queue(self) -> Seq<Action> {
        self.actions@
    }

    pub open(crate) spec fn spec_current(self) -> Option<Tetromino> {
        self.current
    }

    pub open(crate) spec fn spec_next(self) -> TetrominoType {
        self.next
    }

    pub open(crate) spec fn spec_game_over(self) -> bool {
        self.game_over
    }

    pub open(crate) spec fn spec_drop(self) -> bool {
        self.drop
    }

    pub open(crate) spec fn spec_fall_speed(self) -> FrequencyRegulator {
        self.fall_speed
    }

    pub open(crate) spec fn spec_drop_speed(self) -> FrequencyRegulator {
        self.drop_speed
    }

    pub open(crate) spec fn spec_line_remove_speed(self) -> FrequencyRegulator {
        self.line_remove_speed
    }

    pub open(crate) spec fn spec_delay(self) -> Option<usize> {
        self.line_remove_delay
    }

    /// `self` with the fall-rate regulator replaced.
    pub open(crate) spec fn with_fall_speed(self, f: FrequencyRegulator) -> Tetris {
        Tetris { fall_speed: f, ..self }
    }

    /// `self` with the drop-rate regulator replaced.
    pub open(crate) spec fn with_drop_speed(self, f: FrequencyRegulator) -> Tetris {
        Tetris { drop_speed: f, ..self }
    }

    /// `self` with the line-removal regulator replaced.
    pub open(crate) spec fn with_line_remove_speed(self, f: FrequencyRegulator) -> Tetris {
        Tetris { line_remove_speed: f, ..self }
    }

    /// `post` differs from `pre` at most in the action queue.
    pub open(crate) spec fn same_except_actions(pre: Tetris, post: Tetris) -> bool {
        post == (Tetris { actions: post.actions, ..pre })
    }

    /// `post` differs from `pre` at most in the grid contents.
    pub open(crate) spec fn same_except_grid(pre: Tetris, post: Tetris) -> bool {
        post == (Tetris { field: post.field, ..pre })
    }

    /// `post` differs from `pre` at most in the grid contents and the active
    /// piece.
    pub open(crate) spec fn same_except_grid_current(pre: Tetris, post: Tetris) -> bool {
        post == (Tetris { field: post.field, current: post.current, ..pre })
    }

    /// `post` is `pre` after a successful spawn: only the active piece, the
    /// next kind, the preview and the (cleared) fast-drop flag changed.
    pub open(crate) spec fn same_except_spawn(pre: Tetris, post: Tetris) -> bool {
        post == (Tetris {
            current: post.current,
            next: post.next,
            preview: post.preview,
            drop: false,
            ..pre
        })
    }

    /// `self` with the active piece replaced.
    pub open(crate) spec fn with_current(self, c: Option<Tetromino>) -> Tetris {
        Tetris { current: c, ..self }
    }

    /// `self` with the fast-drop flag replaced.
    pub open(crate) spec fn with_drop(self, d: bool) -> Tetris {
        Tetris { drop: d, ..self }
    }

    /// A fresh board: an empty `width` x `height` grid, no active piece, an
    /// empty action queue, the preview showing the (randomly drawn) next
    /// kind, default speeds of 1/100 (fall), 1/10 (drop) and 1/3 (line
    /// removal), and the game running.
    pub fn new(width: usize, height: usize) -> (t: Tetris)
        requires
            1 <= width,
            1 <= height,
            width + 4 <= isize::MAX,
            height + 4 <= isize::MAX,
        ensures
            t.wf(),
            t.spec_cols() == width,
            t.spec_rows() == height,
            !t.spec_game_over(),
            forall|y: int, x: int|
                0 <= y < height && 0 <= x < width ==> t.grid()[y][x] == CellType::Empty,
            t.spec_current() is None,
            t.action_queue().len() == 0,
            !t.spec_drop(),
            t.preview_grid() == preview_of(t.spec_next()),
            t.spec_fall_speed() == FrequencyRegulator::new_spec(1, 100),
            t.spec_drop_speed() == FrequencyRegulator::new_spec(1, 10),
            t.spec_line_remove_speed() == FrequencyRegulator::new_spec(1, 3),
            t.spec_delay() is None,
    {
        let field = empty_grid(width, height);
        let mut preview = empty_grid(4, 4);
        let next = Self::create_next_tetromino_type(&mut preview);
        let actions: VecDeque<Action> = VecDeque::new();
        Tetris {
            cols: width,
            rows: height,
            game_over: false,
            field,
            preview,
            current: Option::None,
            next,
            actions,
            drop: false,
            fall_speed: FrequencyRegulator::new(1, 100),
            drop_speed: FrequencyRegulator::new(1, 10),
            line_remove_speed: FrequencyRegulator::new(1, 3),
            line_remove_delay: Option::None,
        }
    }

    /// Redraw the preview with a freshly drawn next kind and return that
    /// kind. The preview afterwards shows exactly the returned kind's
    /// canonical pattern.
    fn create_next_tetromino_type(preview: &mut Vec<Vec<CellType>>) -> (t: TetrominoType)
        requires
            old(preview)@.len() == 4,
            grid_cols(rows_of(old(preview)@), 4),
        ensures
            final(preview)@.len() == 4,
            grid_cols(rows_of(final(preview)@), 4),
            rows_of(final(preview)@) == preview_of(t),
    {
        let tetromino_type = TetrominoType::new_random();
        let mut fresh = empty_grid(4, 4);
        let ghost blank = rows_of(fresh@);
        let tetromino = Tetromino::new(tetromino_type, Rotation::R0, 0, 0);
        proof {
            assert(blank[0].len() == 4);
        }
        tetromino.draw(&mut fresh);
        proof {
            lemma_base_cell_within(tetromino_type);
            assert forall|y: int| 0 <= y < 4 implies (#[trigger] rows_of(fresh@)[y]) =~= preview_of(
                tetromino_type,
            )[y] by {
                assert(rows_of(fresh@)[y] == fresh@[y]@);
                assert(blank[y].len() == 4);
                assert(fresh@[y]@.len() == blank[y].len());
                assert forall|x: int| 0 <= x < 4 implies #[trigger] rows_of(fresh@)[y][x]
                    == preview_of(tetromino_type)[y][x] by {
                    assert(rows_of(fresh@)[y][x] == burned(blank, tetromino, x, y));
                    assert(blank[y][x] == CellType::Empty);
                }
            }
            assert(rows_of(fresh@) =~= preview_of(tetromino_type));
        }
        *preview = fresh;
        tetromino_type
    }

    /// Replace the fall-rate regulator: `lines` grid lines per `steps` calls.
    pub fn set_fall_speed(&mut self, lines: usize, steps: usize)
        requires
            0 < steps,
            lines + steps <= usize::MAX,
        ensures
            *final(self) == old(self).with_fall_speed(FrequencyRegulator::new_spec(lines, steps)),
            final(self).spec_fall_speed().wf(),
    {
        self.fall_speed = FrequencyRegulator::new(lines, steps);
    }

    /// Replace the drop-rate regulator: `lines` grid lines per `steps` calls.
    pub fn set_drop_speed(&mut self, lines: usize, steps: usize)
        requires
            0 < steps,
            lines + steps <= usize::MAX,
        ensures
            *final(self) == old(self).with_drop_speed(FrequencyRegulator::new_spec(lines, steps)),
            final(self).spec_drop_speed().wf(),
    {
        self.drop_speed = FrequencyRegulator::new(lines, steps);
    }

    /// Replace the line-removal regulator: `lines` removals per `steps` calls.
    pub fn set_line_remove_speed(&mut self, lines: usize, steps: usize)
        requires
            0 < steps,
            lines + steps <= usize::MAX,
        ensures
            *final(self) == old(self).with_line_remove_speed(
                FrequencyRegulator::new_spec(lines, steps),
            ),
            final(self).spec_line_remove_speed().wf(),
    {
        self.line_remove_speed = FrequencyRegulator::new(lines, steps);
    }

    /// Enqueue one action at the back of the pending queue.
    pub fn add_action(&mut self, action: Action)
        ensures
            final(self).action_queue() == old(self).action_queue().push(action),
            Tetris::same_except_actions(*old(self), *final(self)),
    {
        self.actions.push_back(action);
    }

    pub fn get_field(&self) -> (f: &Vec<Vec<CellType>>)
        ensures
            rows_of(f@) == self.grid(),
    {
        &self.field
    }

    pub fn get_current(&self) -> (c: &Option<Tetromino>)
        ensures
            *c == self.spec_current(),
    {
        &self.current
    }

    pub fn get_next(&self) -> (n: &TetrominoType)
        ensures
            *n == self.spec_next(),
    {
        &self.next
    }

    /// Whether a spawn has failed: permanent once set.
    pub fn is_game_over(&self) -> (b: bool)
        ensures
            b == self.spec_game_over(),
    {
        self.game_over
    }
}

/// `c` shifted by `(dx, dy)` and turned further by `rot`.
pub open spec fn moved_piece(c: Tetromino, dx: int, dy: int, rot: Rotation) -> Tetromino {
    Tetromino {
        tetromino_type: c.tetromino_type,
        rotation: c.rotation.spec_combine(rot),
        x: (c.x + dx) as isize,
        y: (c.y + dy) as isize,
    }
}

/// The shifted position still fits the `isize` coordinate range.
pub open spec fn shift_fits(c: Option<Tetromino>, dx: int, dy: int) -> bool {
    match c {
        Some(p) => {
            &&& isize::MIN <= p.x + dx <= isize::MAX
            &&& isize::MIN <= p.y + dy <= isize::MAX
        },
        None => true,
    }
}

/// What a candidate position or rotation change does: it succeeds exactly
/// when a piece is active and the shifted, turned piece passes the collision
/// gate, and the piece moves exactly on success; nothing else changes.
pub open(crate) spec fn change_spec(
    pre: Tetris,
    post: Tetris,
    ok: bool,
    dx: int,
    dy: int,
    rot: Rotation,
) -> bool {
    &&& ok == (pre.spec_current() is Some && !piece_intersects(
        moved_piece(pre.spec_current()->0, dx, dy, rot),
        pre.grid(),
        pre.spec_cols(),
        pre.spec_rows(),
    ))
    &&& (ok ==> post == pre.with_current(
        Some(moved_piece(pre.spec_current()->0, dx, dy, rot)),
    ))
    &&& (!ok ==> post == pre)
}

impl Tetris {
    /// Shift the active piece by `(x, y)` and turn it by `rotation` if the
    /// candidate passes the collision gate; report whether it did. With no
    /// active piece, or on collision, nothing changes.
    pub fn change_current_tetromino(&mut self, x: isize, y: isize, rotation: Rotation) -> (ok:
        bool)
        requires
            old(self).wf(),
            shift_fits(old(self).spec_current(), x as int, y as int),
        ensures
            final(self).wf(),
            change_spec(*old(self), *final(self), ok, x as int, y as int, rotation),
    {
        let cur = match self.current {
            Some(c) => c,
            None => {
                return false;
            },
        };
        let new_tetromino = Tetromino::new(
            cur.tetromino_type,
            cur.rotation.combine(rotation),
            cur.x + x,
            cur.y + y,
        );
        proof {
            assert(rows_of(self.field@)[0].len() == self.cols as int);
        }
        if new_tetromino.intersects(&self.field) {
            return false;
        }
        self.current = Some(new_tetromino);
        true
    }

    /// Move the active piece down one row, if possible.
    pub fn move_down(&mut self) -> (ok: bool)
        requires
            old(self).wf(),
        ensures
            final(self).wf(),
            change_spec(*old(self), *final(self), ok, 0, 1, Rotation::R0),
    {
        self.change_current_tetromino(0, 1, Rotation::R0)
    }

    /// Move the active piece left one column, if possible.
    pub fn move_left(&mut self) -> (ok: bool)
        requires
            old(self).wf(),
        ensures
            final(self).wf(),
            change_spec(*old(self), *final(self), ok, -1, 0, Rotation::R0),
    {
        self.change_current_tetromino(-1, 0, Rotation::R0)
    }

    /// Move the active piece right one column, if possible.
    pub fn move_right(&mut self) -> (ok: bool)
        requires
            old(self).wf(),
        ensures
            final(self).wf(),
            change_spec(*old(self), *final(self), ok, 1, 0, Rotation::R0),
    {
        self.change_current_tetromino(1, 0, Rotation::R0)
    }

    /// Turn the active piece a quarter turn counterclockwise, if possible.
    pub fn rotate_left(&mut self) -> (ok: bool)
        requires
            old(self).wf(),
        ensures
            final(self).wf(),
            change_spec(*old(self), *final(self), ok, 0, 0, Rotation::R270),
    {
        self.change_current_tetromino(0, 0, Rotation::R270)
    }

    /// Turn the active piece a quarter turn clockwise, if possible.
    pub fn rotate_right(&mut self) -> (ok: bool)
        requires
            old(self).wf(),
        ensures
            final(self).wf(),
            change_spec(*old(self), *final(self), ok, 0, 0, Rotation::R90),
    {
        self.change_current_tetromino(0, 0, Rotation::R90)
    }

    /// Set the fast-drop flag: the piece does not move now, but gravity runs
    /// at the drop rate until the next spawn clears the flag. Always
    /// succeeds.
    pub fn drop(&mut self) -> (ok: bool)
        ensures
            ok,
            *final(self) == old(self).with_drop(true),
    {
        self.drop = true;
        true
    }
}

/// Row `y` of `g` is fully occupied: no cell of it is `Empty`.
pub open spec fn row_full(g: Seq<Seq<CellType>>, y: int, cols: int) -> bool {
    forall|x: int| 0 <= x < cols ==> (#[trigger] g[y][x]) != CellType::Empty
}

/// Some row of `g` is marked blasted (a row counts as blasted when its
/// leading cell is).
pub open spec fn has_blasted(g: Seq<Seq<CellType>>, rows: int) -> bool {
    exists|y: int| 0 <= y < rows && (#[trigger] g[y])[0] == CellType::Blasted
}

/// `top` is the topmost blasted row of `g`.
pub open spec fn is_top_blasted(g: Seq<Seq<CellType>>, top: int, rows: int) -> bool {
    &&& 0 <= top < rows
    &&& g[top][0] == CellType::Blasted
    &&& forall|y: int| 0 <= y < top ==> (#[trigger] g[y])[0] != CellType::Blasted
}

/// The cell `(x, y)` of a grid after the blast pass: cells of fully
/// occupied rows turn `Blasted`, all others keep their value.
pub open spec fn blasted_cell(g: Seq<Seq<CellType>>, cols: int, y: int, x: int) -> CellType {
    if row_full(g, y, cols) {
        CellType::Blasted
    } else {
        g[y][x]
    }
}

/// The cell `(x, y)` of a grid after shifting out the blasted row `top`:
/// the vacated top row becomes empty, rows above `top` shift down one, rows
/// below stay.
pub open spec fn removed_cell(g: Seq<Seq<CellType>>, top: int, y: int, x: int) -> CellType {
    if y == 0 {
        CellType::Empty
    } else if y <= top {
        g[y - 1][x]
    } else {
        g[y][x]
    }
}

impl Tetris {
    /// Burn the active piece, if any, permanently into the grid, and clear
    /// the active slot.
    pub fn fix_current_figure(&mut self)
        requires
            old(self).wf(),
        ensures
            final(self).wf(),
            final(self).spec_current() is None,
            Tetris::same_except_grid_current(*old(self), *final(self)),
            match old(self).spec_current() {
                Some(c) => forall|y: int, x: int|
                    0 <= y < old(self).spec_rows() && 0 <= x < old(self).spec_cols()
                        ==> final(self).grid()[y][x] == #[trigger] burned(old(self).grid(), c, x, y),
                None => *final(self) == *old(self),
            },
    {
        let cur = self.current;
        self.current = Option::None;
        if let Some(current) = cur {
            let ghost pre = self.field@;
            proof {
                assert(rows_of(pre)[0].len() == self.cols as int);
            }
            current.draw(&mut self.field);
            proof {
                assert forall|y: int| 0 <= y < self.spec_rows() implies (#[trigger] self.grid()[y]).len()
                    == self.spec_cols() by {
                    assert(self.grid()[y] == self.field@[y]@);
                    assert(self.field@[y]@.len() == pre[y]@.len());
                    assert(rows_of(pre)[y].len() == self.cols as int);
                }
            }
        }
    }

    /// Mark every fully occupied row as blasted, replacing each of its cells
    /// by the `Blasted` marker; report whether any row was full.
    pub fn blast_full_lines(&mut self) -> (found: bool)
        requires
            old(self).wf(),
        ensures
            final(self).wf(),
            Tetris::same_except_grid(*old(self), *final(self)),
            found == exists|y: int|
                0 <= y < old(self).spec_rows() && #[trigger] row_full(
                    old(self).grid(),
                    y,
                    old(self).spec_cols(),
                ),
            forall|y: int, x: int|
                0 <= y < old(self).spec_rows() && 0 <= x < old(self).spec_cols()
                    ==> final(self).grid()[y][x] == #[trigger] blasted_cell(
                    old(self).grid(),
                    old(self).spec_cols(),
                    y,
                    x,
                ),
    {
        let ghost g0 = self.grid();
        let rows = self.rows;
        let cols = self.cols;
        let mut full_lines = false;
        let mut y: usize = 0;
        while y < rows
            invariant
                y <= rows,
                self.cols == cols,
                self.rows == rows,
                self.wf(),
                Tetris::same_except_grid(*old(self), *self),
                g0 == old(self).grid(),
                full_lines == exists|yy: int|
                    0 <= yy < y && #[trigger] row_full(g0, yy, cols as int),
                forall|yy: int, x: int|
                    y <= yy < rows && 0 <= x < cols ==> self.grid()[yy][x] == g0[yy][x],
                forall|yy: int, x: int|
                    0 <= yy < y && 0 <= x < cols ==> self.grid()[yy][x] == #[trigger] blasted_cell(
                        g0,
                        cols as int,
                        yy,
                        x,
                    ),
            decreases rows - y,
        {
            let mut full_line = true;
            let mut x: usize = 0;
            proof {
                assert(self.grid()[y as int].len() == cols as int);
                assert(self.grid()[y as int] == self.field@[y as int]@);
            }
            while x < cols
                invariant_except_break
                    full_line == forall|xx: int|
                        0 <= xx < x ==> (#[trigger] g0[y as int][xx]) != CellType::Empty,
                invariant
                    y < rows,
                    x <= cols,
                    self.cols == cols,
                    self.rows == rows,
                    self.wf(),
                    forall|yy: int, xx: int|
                        y <= yy < rows && 0 <= xx < cols ==> self.grid()[yy][xx] == g0[yy][xx],
                ensures
                    full_line == row_full(g0, y as int, cols as int),
                decreases cols - x,
            {
                proof {
                    assert(self.grid()[y as int][x as int] == self.field@[y as int]@[x as int]);
                    assert(self.field@[y as int]@.len() == cols as int) by {
                        assert(self.grid()[y as int] == self.field@[y as int]@);
                    }
                }
                if self.field[y][x] == CellType::Empty {
                    full_line = false;
                    proof {
                        assert(g0[y as int][x as int] == CellType::Empty);
                        assert(!row_full(g0, y as int, cols as int));
                    }
                    break;
                }
                x = x + 1;
            }
            if full_line {
                full_lines = true;
                let ghost before_blast = *self;
                let mut x2: usize = 0;
                while x2 < cols
                    invariant
                        y < rows,
                        x2 <= cols,
                        self.cols == cols,
                        self.rows == rows,
                        self.wf(),
                        Tetris::same_except_grid(before_blast, *self),
                        forall|yy: int, xx: int|
                            0 <= yy < rows && 0 <= xx < cols && yy != y ==> self.grid()[yy][xx]
                                == before_blast.grid()[yy][xx],
                        forall|xx: int|
                            0 <= xx < x2 ==> self.grid()[y as int][xx] == CellType::Blasted,
                        forall|xx: int|
                            x2 <= xx < cols ==> self.grid()[y as int][xx] == before_blast.grid()[y as int][xx],
                    decreases cols - x2,
                {
                    let ghost pre_t = *self;
                    let ghost pre = self.field@;
                    proof {
                        assert(rows_of(pre)[y as int] == pre[y as int]@);
                        assert(rows_of(pre)[y as int].len() == cols as int);
                    }
                    self.field[y][x2] = CellType::Blasted;
                    proof {
                        assert forall|yy: int| 0 <= yy < rows implies (#[trigger] self.grid()[yy])
                            .len() == cols as int && self.grid()[yy] == self.field@[yy]@ by {
                            assert(rows_of(pre)[yy] == pre[yy]@);
                        }
                        assert forall|xx: int| 0 <= xx < x2 + 1 implies self.grid()[y as int][xx]
                            == CellType::Blasted by {
                            if xx < x2 {
                                assert(pre_t.grid()[y as int][xx] == CellType::Blasted);
                                assert(rows_of(pre)[y as int] == pre[y as int]@);
                            }
                        }
                    }
                    x2 = x2 + 1;
                }
            }
            y = y + 1;
        }
        full_lines
    }

    /// Find the topmost blasted row (one whose leading cell is `Blasted`),
    /// shift every row above it down by one, and empty the vacated top row;
    /// report whether such a row existed. Without one, nothing changes.
    pub fn remove_top_blasted_line(&mut self) -> (removed: bool)
        requires
            old(self).wf(),
        ensures
            final(self).wf(),
            Tetris::same_except_grid(*old(self), *final(self)),
            removed == has_blasted(old(self).grid(), old(self).spec_rows()),
            !removed ==> *final(self) == *old(self),
            removed ==> exists|top: int|
                {
                    &&& #[trigger] is_top_blasted(old(self).grid(), top, old(self).spec_rows())
                    &&& forall|y: int, x: int|
                        0 <= y < old(self).spec_rows() && 0 <= x < old(self).spec_cols()
                            ==> final(self).grid()[y][x] == #[trigger] removed_cell(
                            old(self).grid(),
                            top,
                            y,
                            x,
                        )
                },
    {
        let ghost g0 = self.grid();
        let rows = self.rows;
        let cols = self.cols;
        let mut top_blasted_line: Option<usize> = Option::None;
        let mut y: usize = 0;
        while y < rows
            invariant_except_break
                top_blasted_line is None,
                y <= rows,
                forall|yy: int| 0 <= yy < y ==> (#[trigger] g0[yy])[0] != CellType::Blasted,
            invariant
                self.cols == cols,
                self.rows == rows,
                self.wf(),
                g0 == self.grid(),
            ensures
                match top_blasted_line {
                    Some(t) => is_top_blasted(g0, t as int, rows as int),
                    None => !has_blasted(g0, rows as int),
                },
            decreases rows - y,
        {
            proof {
                assert(g0[y as int] == self.field@[y as int]@);
                assert(g0[y as int].len() == cols as int);
            }
            if self.field[y][0] == CellType::Blasted {
                top_blasted_line = Some(y);
                break;
            }
            y = y + 1;
        }
        let top = match top_blasted_line {
            Some(t) => t,
            None => {
                return false;
            },
        };
        // Shift every row above the blasted one down by one.
        let mut yv = top;
        while yv > 0
            invariant
                yv <= top,
                top < rows,
                self.cols == cols,
                self.rows == rows,
                self.wf(),
                Tetris::same_except_grid(*old(self), *self),
                g0 == old(self).grid(),
                forall|yy: int, x: int|
                    0 <= yy <= yv && 0 <= x < cols ==> self.grid()[yy][x] == g0[yy][x],
                forall|yy: int, x: int|
                    yv < yy <= top && 0 <= x < cols ==> self.grid()[yy][x] == g0[yy - 1][x],
                forall|yy: int, x: int|
                    top < yy < rows && 0 <= x < cols ==> self.grid()[yy][x] == g0[yy][x],
            decreases yv,
        {
            yv = yv - 1;
            let mut x: usize = 0;
            while x < cols
                invariant
                    yv < top < rows,
                    x <= cols,
                    self.cols == cols,
                    self.rows == rows,
                    self.wf(),
                    Tetris::same_except_grid(*old(self), *self),
                    g0 == old(self).grid(),
                    forall|yy: int, xx: int|
                        0 <= yy < rows && 0 <= xx < cols ==> #[trigger] self.grid()[yy][xx] == (
                        if yy <= yv {
                            g0[yy][xx]
                        } else if yy == yv + 1 {
                            if xx < x {
                                g0[yy - 1][xx]
                            } else {
                                g0[yy][xx]
                            }
                        } else if yy <= top {
                            g0[yy - 1][xx]
                        } else {
                            g0[yy][xx]
                        }),
                decreases cols - x,
            {
                let ghost pre_t = *self;
                let ghost pre = self.field@;
                proof {
                    assert(pre_t.grid()[yv as int] == pre[yv as int]@);
                    assert(pre_t.grid()[yv + 1] == pre[yv + 1]@);
                    assert(pre_t.grid()[yv as int].len() == cols as int);
                    assert(pre_t.grid()[yv + 1].len() == cols as int);
                    assert(pre_t.grid()[yv as int][x as int] == g0[yv as int][x as int]);
                }
                let v = self.field[yv][x];
                self.field[yv + 1][x] = v;
                proof {
                    assert forall|yy: int| 0 <= yy < rows implies (#[trigger] self.grid()[yy]).len()
                        == cols as int && self.grid()[yy] == self.field@[yy]@ by {
                        assert(pre_t.grid()[yy] == pre[yy]@);
                    }
                    assert forall|yy: int, xx: int| 0 <= yy < rows && 0 <= xx < cols implies
                        #[trigger] self.grid()[yy][xx] == (if yy <= yv {
                            g0[yy][xx]
                        } else if yy == yv + 1 {
                            if xx < x + 1 {
                                g0[yy - 1][xx]
                            } else {
                                g0[yy][xx]
                            }
                        } else if yy <= top {
                            g0[yy - 1][xx]
                        } else {
                            g0[yy][xx]
                        }) by {
                        assert(pre_t.grid()[yy][xx] == (if yy <= yv {
                            g0[yy][xx]
                        } else if yy == yv + 1 {
                            if xx < x {
                                g0[yy - 1][xx]
                            } else {
                                g0[yy][xx]
                            }
                        } else if yy <= top {
                            g0[yy - 1][xx]
                        } else {
                            g0[yy][xx]
                        }));
                        assert(pre_t.grid()[yy] == pre[yy]@);
                    }
                }
                x = x + 1;
            }
            proof {
                assert forall|yy: int, xx: int|
                    yv < yy <= top && 0 <= xx < cols implies self.grid()[yy][xx] == g0[yy - 1][xx] by {}
            }
        }
        proof {
            assert forall|yy: int, xx: int| 0 <= yy < rows && 0 <= xx < cols implies
                #[trigger] self.grid()[yy][xx] == (if yy == 0 {
                    if xx < 0 {
                        CellType::Empty
                    } else {
                        g0[0][xx]
                    }
                } else if yy <= top {
                    g0[yy - 1][xx]
                } else {
                    g0[yy][xx]
                }) by {}
        }
        // Empty the vacated top row.
        let mut x: usize = 0;
        while x < cols
            invariant
                x <= cols,
                top < rows,
                self.cols == cols,
                self.rows == rows,
                self.wf(),
                Tetris::same_except_grid(*old(self), *self),
                g0 == old(self).grid(),
                forall|yy: int, xx: int|
                    0 <= yy < rows && 0 <= xx < cols ==> #[trigger] self.grid()[yy][xx] == (
                    if yy == 0 {
                        if xx < x {
                            CellType::Empty
                        } else {
                            g0[0][xx]
                        }
                    } else if yy <= top {
                        g0[yy - 1][xx]
                    } else {
                        g0[yy][xx]
                    }),
            decreases cols - x,
        {
            let ghost pre_t = *self;
            let ghost pre = self.field@;
            proof {
                assert(pre_t.grid()[0] == pre[0]@);
                assert(pre_t.grid()[0].len() == cols as int);
            }
            self.field[0][x] = CellType::Empty;
            proof {
                assert forall|yy: int| 0 <= yy < rows implies (#[trigger] self.grid()[yy]).len()
                    == cols as int && self.grid()[yy] == self.field@[yy]@ by {
                    assert(pre_t.grid()[yy] == pre[yy]@);
                }
                assert forall|yy: int, xx: int| 0 <= yy < rows && 0 <= xx < cols implies
                    #[trigger] self.grid()[yy][xx] == (if yy == 0 {
                        if xx < x + 1 {
                            CellType::Empty
                        } else {
                            g0[0][xx]
                        }
                    } else if yy <= top {
                        g0[yy - 1][xx]
                    } else {
                        g0[yy][xx]
                    }) by {
                    assert(pre_t.grid()[yy][xx] == (if yy == 0 {
                        if xx < x {
                            CellType::Empty
                        } else {
                            g0[0][xx]
                        }
                    } else if yy <= top {
                        g0[yy - 1][xx]
                    } else {
                        g0[yy][xx]
                    }));
                    assert(pre_t.grid()[yy] == pre[yy]@);
                }
            }
            x = x + 1;
        }
        proof {
            assert forall|y: int, x: int|
                0 <= y < rows && 0 <= x < cols implies self.grid()[y][x] == #[trigger] removed_cell(
                g0,
                top as int,
                y,
                x,
            ) by {}
        }
        true
    }

    /// The cross-board attack payload: shift the whole grid up one row,
    /// discarding the original top row, and fill the new bottom row with
    /// random cells, each independently a random color with probability one
    /// half and empty otherwise. Deliberately, the active piece is neither
    /// re-validated nor repositioned afterwards. Always succeeds.
    pub fn bottom_refill(&mut self) -> (ok: bool)
        requires
            old(self).wf(),
        ensures
            final(self).wf(),
            ok,
            Tetris::same_except_grid(*old(self), *final(self)),
            forall|y: int, x: int|
                0 <= y < old(self).spec_rows() - 1 && 0 <= x < old(self).spec_cols()
                    ==> final(self).grid()[y][x] == old(self).grid()[y + 1][x],
            forall|x: int|
                0 <= x < old(self).spec_cols()
                    ==> (#[trigger] final(self).grid()[old(self).spec_rows() - 1][x])
                    != CellType::Blasted,
    {
        let ghost g0 = self.grid();
        let rows = self.rows;
        let cols = self.cols;
        // Shift every row up by one.
        let mut y: usize = 1;
        while y < rows
            invariant
                1 <= y <= rows,
                self.cols == cols,
                self.rows == rows,
                self.wf(),
                Tetris::same_except_grid(*old(self), *self),
                g0 == old(self).grid(),
                forall|yy: int, x: int|
                    0 <= yy < y - 1 && 0 <= x < cols ==> self.grid()[yy][x] == g0[yy + 1][x],
                forall|yy: int, x: int|
                    y - 1 <= yy < rows && 0 <= x < cols ==> self.grid()[yy][x] == g0[yy][x],
            decreases rows - y,
        {
            let mut x: usize = 0;
            while x < cols
                invariant
                    1 <= y < rows,
                    x <= cols,
                    self.cols == cols,
                    self.rows == rows,
                    self.wf(),
                    Tetris::same_except_grid(*old(self), *self),
                    g0 == old(self).grid(),
                    forall|yy: int, xx: int|
                        0 <= yy < rows && 0 <= xx < cols ==> #[trigger] self.grid()[yy][xx] == (
                        if yy < y - 1 {
                            g0[yy + 1][xx]
                        } else if yy == y - 1 {
                            if xx < x {
                                g0[yy + 1][xx]
                            } else {
                                g0[yy][xx]
                            }
                        } else {
                            g0[yy][xx]
                        }),
                decreases cols - x,
            {
                let ghost pre_t = *self;
                let ghost pre = self.field@;
                proof {
                    assert(pre_t.grid()[y as int] == pre[y as int]@);
                    assert(pre_t.grid()[y - 1] == pre[y - 1]@);
                    assert(pre_t.grid()[y as int].len() == cols as int);
                    assert(pre_t.grid()[y - 1].len() == cols as int);
                    assert(pre_t.grid()[y as int][x as int] == g0[y as int][x as int]);
                }
                let v = self.field[y][x];
                self.field[y - 1][x] = v;
                proof {
                    assert forall|yy: int| 0 <= yy < rows implies (#[trigger] self.grid()[yy]).len()
                        == cols as int && self.grid()[yy] == self.field@[yy]@ by {
                        assert(pre_t.grid()[yy] == pre[yy]@);
                    }
                    assert forall|yy: int, xx: int| 0 <= yy < rows && 0 <= xx < cols implies
                        #[trigger] self.grid()[yy][xx] == (if yy < y - 1 {
                            g0[yy + 1][xx]
                        } else if yy == y - 1 {
                            if xx < x + 1 {
                                g0[yy + 1][xx]
                            } else {
                                g0[yy][xx]
                            }
                        } else {
                            g0[yy][xx]
                        }) by {
                        assert(pre_t.grid()[yy][xx] == (if yy < y - 1 {
                            g0[yy + 1][xx]
                        } else if yy == y - 1 {
                            if xx < x {
                                g0[yy + 1][xx]
                            } else {
                                g0[yy][xx]
                            }
                        } else {
                            g0[yy][xx]
                        }));
                        assert(pre_t.grid()[yy] == pre[yy]@);
                    }
                }
                x = x + 1;
            }
            proof {
                assert forall|yy: int, xx: int|
                    0 <= yy < y && 0 <= xx < cols implies self.grid()[yy][xx] == g0[yy + 1][xx] by {}
                assert forall|yy: int, xx: int|
                    y <= yy < rows && 0 <= xx < cols implies self.grid()[yy][xx] == g0[yy][xx] by {}
            }
            y = y + 1;
        }
        // Fill the bottom row at random.
        let mut x: usize = 0;
        while x < cols
            invariant
                x <= cols,
                1 <= rows,
                self.cols == cols,
                self.rows == rows,
                self.wf(),
                Tetris::same_except_grid(*old(self), *self),
                g0 == old(self).grid(),
                forall|yy: int, xx: int|
                    0 <= yy < rows - 1 && 0 <= xx < cols ==> self.grid()[yy][xx] == g0[yy + 1][xx],
                forall|xx: int|
                    0 <= xx < x ==> (#[trigger] self.grid()[rows - 1][xx]) != CellType::Blasted,
            decreases cols - x,
        {
            let cell_type = if crate::rng::random_bool() {
                CellType::new_random()
            } else {
                CellType::Empty
            };
            let ghost pre_t = *self;
            let ghost pre = self.field@;
            proof {
                assert(pre_t.grid()[rows - 1] == pre[rows - 1]@);
                assert(pre_t.grid()[rows - 1].len() == cols as int);
            }
            self.field[rows - 1][x] = cell_type;
            proof {
                assert forall|yy: int| 0 <= yy < rows implies (#[trigger] self.grid()[yy]).len()
                    == cols as int && self.grid()[yy] == self.field@[yy]@ by {
                    assert(pre_t.grid()[yy] == pre[yy]@);
                }
                assert forall|yy: int, xx: int| 0 <= yy < rows - 1 && 0 <= xx < cols implies
                    self.grid()[yy][xx] == g0[yy + 1][xx] by {
                    assert(pre_t.grid()[yy] == pre[yy]@);
                    assert(pre_t.grid()[yy][xx] == g0[yy + 1][xx]);
                }
                assert forall|xx: int| 0 <= xx < x + 1 implies (#[trigger] self.grid()[rows - 1][xx])
                    != CellType::Blasted by {
                    if xx < x {
                        assert(pre_t.grid()[rows - 1][xx] != CellType::Blasted);
                    }
                }
            }
            x = x + 1;
        }
        true
    }
}

/// A read-only projection of one board for rendering or transport: the
/// grid with the active piece burned in, the preview, and the game-over
/// flag.
pub struct TetrisGameState {
    pub cols: usize,
    pub rows: usize,
    pub field: Vec<Vec<CellType>>,
    pub preview: Vec<Vec<CellType>>,
    pub game_over: bool,
}

/// A fresh copy of a rectangular grid, cell for cell.
pub(crate) fn clone_grid(f: &Vec<Vec<CellType>>) -> (g: Vec<Vec<CellType>>)
    ensures
        g@.len() == f@.len(),
        forall|y: int| 0 <= y < f@.len() ==> (#[trigger] g@[y])@.len() == f@[y]@.len(),
        rows_of(g@) == rows_of(f@),
{
    let mut g: Vec<Vec<CellType>> = Vec::new();
    let mut y: usize = 0;
    while y < f.len()
        invariant
            y <= f@.len(),
            g@.len() == y,
            forall|yy: int| 0 <= yy < y ==> (#[trigger] g@[yy])@ == f@[yy]@,
        decreases f@.len() - y,
    {
        let mut row: Vec<CellType> = Vec::new();
        let mut x: usize = 0;
        while x < f[y].len()
            invariant
                y < f@.len(),
                x <= f@[y as int]@.len(),
                row@.len() == x,
                forall|xx: int| 0 <= xx < x ==> row@[xx] == f@[y as int]@[xx],
            decreases f@[y as int]@.len() - x,
        {
            let v = f[y][x];
            row.push(v);
            x = x + 1;
        }
        proof {
            assert(row@ =~= f@[y as int]@);
        }
        g.push(row);
        y = y + 1;
    }
    proof {
        assert(rows_of(g@) =~= rows_of(f@));
    }
    g
}

impl Tetris {
    /// Spawn the next kind at the top center, if its spawn position passes
    /// the collision gate: it becomes the active piece, a new next kind is
    /// drawn into the preview, and the fast-drop flag clears. On a spawn
    /// collision nothing changes and the call reports failure.
    pub fn place_next_tetromino(&mut self) -> (ok: bool)
        requires
            old(self).wf(),
        ensures
            final(self).wf(),
            ok == !piece_intersects(
                spawn_piece(old(self).spec_cols(), old(self).spec_next()),
                old(self).grid(),
                old(self).spec_cols(),
                old(self).spec_rows(),
            ),
            !ok ==> *final(self) == *old(self),
            ok ==> {
                &&& final(self).spec_current() == Some(
                    spawn_piece(old(self).spec_cols(), old(self).spec_next()),
                )
                &&& !final(self).spec_drop()
                &&& final(self).preview_grid() == preview_of(final(self).spec_next())
                &&& Tetris::same_except_spawn(*old(self), *final(self))
            },
    {
        let new_tetromino = Tetromino::new(self.next, Rotation::R0, (self.cols as isize) / 2 - 2, 0);
        proof {
            assert(rows_of(self.field@)[0].len() == self.cols as int);
        }
        if new_tetromino.intersects(&self.field) {
            return false;
        }
        self.current = Some(new_tetromino);
        let next = Self::create_next_tetromino_type(&mut self.preview);
        self.next = next;
        self.drop = false;
        true
    }

    /// `s` is a faithful snapshot of board `t`: same dimensions and
    /// game-over flag, the same preview, and the grid with the active
    /// piece (if any) burned in.
    pub open(crate) spec fn snapshot_matches(t: Tetris, s: TetrisGameState) -> bool {
        &&& s.cols == t.spec_cols()
        &&& s.rows == t.spec_rows()
        &&& s.game_over == t.spec_game_over()
        &&& rows_of(s.preview@) == t.preview_grid()
        &&& s.field@.len() == t.spec_rows()
        &&& forall|y: int| 0 <= y < t.spec_rows() ==> (#[trigger] s.field@[y])@.len() == t.spec_cols()
        &&& match t.spec_current() {
            Some(c) => forall|y: int, x: int|
                0 <= y < t.spec_rows() && 0 <= x < t.spec_cols() ==> rows_of(s.field@)[y][x]
                    == #[trigger] burned(t.grid(), c, x, y),
            None => rows_of(s.field@) == t.grid(),
        }
    }

    /// The current snapshot: grid with the active piece burned in, preview,
    /// and game-over flag. Produces a fresh value; the board is untouched.
    pub fn get_game_state(&self) -> (s: TetrisGameState)
        requires
            self.wf(),
        ensures
            Tetris::snapshot_matches(*self, s),
    {
        let mut field = clone_grid(&self.field);
        if let Some(current) = self.current {
            let ghost pre_f = field@;
            proof {
                assert(rows_of(pre_f)[0].len() == self.cols as int);
            }
            current.draw(&mut field);
            proof {
                assert forall|y: int| 0 <= y < self.spec_rows() implies (#[trigger] field@[y])@.len()
                    == self.spec_cols() by {
                    assert(field@[y]@.len() == pre_f[y]@.len());
                    assert(rows_of(pre_f)[y] == pre_f[y]@);
                    assert(rows_of(pre_f)[y].len() == self.spec_cols());
                }
            }
        } else {
            proof {
                assert forall|y: int| 0 <= y < self.spec_rows() implies (#[trigger] field@[y])@.len()
                    == self.spec_cols() by {
                    assert(rows_of(self.field@)[y] == self.field@[y]@);
                    assert(rows_of(field@)[y] == field@[y]@);
                }
            }
        }
        let preview = clone_grid(&self.preview);
        TetrisGameState {
            cols: self.cols,
            rows: self.rows,
            field,
            preview,
            game_over: self.game_over,
        }
    }
}

impl Default for Tetris {
    /// The default board: 10 columns by 20 rows.
    fn default() -> (t: Tetris)
        ensures
            t.wf(),
            t.spec_cols() == 10,
            t.spec_rows() == 20,
            !t.spec_game_over(),
            t.spec_current() is None,
            t.action_queue().len() == 0,
    {
        Tetris::new(10, 20)
    }
}

/// The grid after burning the active piece (if any) into `g`: the first
/// half of a lock.
pub open spec fn burned_grid(
    g: Seq<Seq<CellType>>,
    cur: Option<Tetromino>,
    cols: int,
    rows: int,
) -> Seq<Seq<CellType>> {
    Seq::new(
        rows as nat,
        |y: int|
            Seq::new(
                cols as nat,
                |x: int|
                    match cur {
                        Some(c) => burned(g, c, x, y),
                        None => g[y][x],
                    },
            ),
    )
}

/// The refill relation between a grid and its successor: every row moves up
/// one, the old top row is discarded, and the new bottom row holds no
/// `Blasted` marker (each cell is a random color or empty).
pub open spec fn refilled(g: Seq<Seq<CellType>>, g2: Seq<Seq<CellType>>, cols: int, rows: int) -> bool {
    &&& forall|y: int, x: int|
        0 <= y < rows - 1 && 0 <= x < cols ==> #[trigger] g2[y][x] == g[y + 1][x]
    &&& forall|x: int| 0 <= x < cols ==> (#[trigger] g2[rows - 1][x]) != CellType::Blasted
}

/// The removal relation between a grid and its successor: the topmost
/// blasted row is shifted out, rows above it move down one, and the vacated
/// top row is empty.
pub open spec fn removed(g: Seq<Seq<CellType>>, g2: Seq<Seq<CellType>>, cols: int, rows: int) -> bool {
    exists|top: int|
        {
            &&& #[trigger] is_top_blasted(g, top, rows)
            &&& forall|y: int, x: int|
                0 <= y < rows && 0 <= x < cols ==> g2[y][x] == #[trigger] removed_cell(g, top, y, x)
        }
}

impl Tetris {
    /// `post` is `pre` after a lock: the active slot empties, the queue
    /// clears, and the clear delay starts; only those and the grid change.
    pub open(crate) spec fn same_except_lock(pre: Tetris, post: Tetris) -> bool {
        post == (Tetris {
            field: post.field,
            current: Option::None,
            actions: post.actions,
            line_remove_delay: Some(10usize),
            ..pre
        })
    }

    /// What executing one dequeued action does. `pre` is the board just
    /// before the dequeue, `rest` the queue just after it; `post` and `r`
    /// are the final board and the step's report.
    pub open(crate) spec fn act_spec(
        pre: Tetris,
        rest: Seq<Action>,
        act: Action,
        post: Tetris,
        r: StepResult,
    ) -> bool {
        match act {
            Action::MoveLeft => Tetris::shift_act_spec(pre, rest, act, post, r, -1, 0, Rotation::R0),
            Action::MoveRight => Tetris::shift_act_spec(pre, rest, act, post, r, 1, 0, Rotation::R0),
            Action::RotateLeft => Tetris::shift_act_spec(pre, rest, act, post, r, 0, 0, Rotation::R270),
            Action::RotateRight => Tetris::shift_act_spec(pre, rest, act, post, r, 0, 0, Rotation::R90),
            Action::MoveDown => {
                let ok = pre.spec_current() is Some && !piece_intersects(
                    moved_piece(pre.spec_current()->0, 0, 1, Rotation::R0),
                    pre.grid(),
                    pre.spec_cols(),
                    pre.spec_rows(),
                );
                &&& r == StepResult::ActionPerformed(Action::MoveDown, ok)
                &&& (ok ==> post.action_queue() == rest && post == (Tetris {
                    actions: post.actions,
                    current: Some(moved_piece(pre.spec_current()->0, 0, 1, Rotation::R0)),
                    ..pre
                }))
                &&& (!ok ==> Tetris::lock_spec(pre, post))
            },
            Action::Drop => {
                &&& r == StepResult::ActionPerformed(Action::Drop, true)
                &&& post.action_queue() == rest
                &&& post == (Tetris { actions: post.actions, drop: true, ..pre })
            },
            Action::BottomRefill => {
                &&& r == StepResult::ActionPerformed(Action::BottomRefill, true)
                &&& post.action_queue() == rest
                &&& refilled(pre.grid(), post.grid(), pre.spec_cols(), pre.spec_rows())
                &&& post == (Tetris { field: post.field, actions: post.actions, ..pre })
            },
        }
    }

    /// A sideways move or a rotation: apply the candidate only if it passes
    /// the collision gate; either way only the active piece and the queue
    /// change, and the step never locks.
    pub open(crate) spec fn shift_act_spec(
        pre: Tetris,
        rest: Seq<Action>,
        act: Action,
        post: Tetris,
        r: StepResult,
        dx: int,
        dy: int,
        rot: Rotation,
    ) -> bool {
        let ok = pre.spec_current() is Some && !piece_intersects(
            moved_piece(pre.spec_current()->0, dx, dy, rot),
            pre.grid(),
            pre.spec_cols(),
            pre.spec_rows(),
        );
        &&& r == StepResult::ActionPerformed(act, ok)
        &&& post.action_queue() == rest
        &&& (ok ==> post == (Tetris {
            actions: post.actions,
            current: Some(moved_piece(pre.spec_current()->0, dx, dy, rot)),
            ..pre
        }))
        &&& (!ok ==> post == (Tetris { actions: post.actions, ..pre }))
    }

    /// A failed down-move locks the board: the active piece burns into the
    /// grid, every fully occupied row turns blasted, the queue clears, and
    /// the clear delay starts at its policy length of 10 ticks.
    pub open(crate) spec fn lock_spec(pre: Tetris, post: Tetris) -> bool {
        &&& post.spec_current() is None
        &&& post.action_queue().len() == 0
        &&& post.spec_delay() == Some(10usize)
        &&& forall|y: int, x: int|
            0 <= y < pre.spec_rows() && 0 <= x < pre.spec_cols() ==> post.grid()[y][x]
                == #[trigger] blasted_cell(
                burned_grid(pre.grid(), pre.spec_current(), pre.spec_cols(), pre.spec_rows()),
                pre.spec_cols(),
                y,
                x,
            )
        &&& Tetris::same_except_lock(pre, post)
    }

    /// The gravity and action phase of a step, from a board whose
    /// line-removal work is done. The regulator the fast-drop flag selects
    /// runs once and enqueues that many synthetic down-moves, then exactly
    /// one pending action is dequeued and executed.
    pub open(crate) spec fn gravity_spec(pre: Tetris, post: Tetris, r: StepResult) -> bool {
        let greg = if pre.spec_drop() {
            pre.spec_drop_speed()
        } else {
            pre.spec_fall_speed()
        };
        let k = greg.spec_emit();
        let pre3 = if pre.spec_drop() {
            pre.with_drop_speed(greg.spec_stepped())
        } else {
            pre.with_fall_speed(greg.spec_stepped())
        };
        let queue = pre3.action_queue() + Seq::new(k as nat, |i: int| Action::MoveDown);
        if queue.len() == 0 {
            &&& r == StepResult::Nothing
            &&& post.action_queue().len() == 0
            &&& post == (Tetris { actions: post.actions, ..pre3 })
        } else {
            Tetris::act_spec(pre3, queue.subrange(1, queue.len() as int), queue[0], post, r)
        }
    }

    /// `mid` is `pre` right after a successful spawn of `pre`'s next kind.
    pub open(crate) spec fn spawned_spec(pre: Tetris, mid: Tetris) -> bool {
        &&& !piece_intersects(
            spawn_piece(pre.spec_cols(), pre.spec_next()),
            pre.grid(),
            pre.spec_cols(),
            pre.spec_rows(),
        )
        &&& mid.spec_current() == Some(spawn_piece(pre.spec_cols(), pre.spec_next()))
        &&& !mid.spec_drop()
        &&& mid.preview_grid() == preview_of(mid.spec_next())
        &&& Tetris::same_except_spawn(pre, mid)
    }

    /// A step on a board that is neither over nor waiting out the clear
    /// delay. The line-removal regulator always runs once; when it emits a
    /// tick and no piece is active, the board first tries to shift out a
    /// blasted row, then to spawn, and only a successful spawn falls
    /// through to gravity.
    pub open(crate) spec fn step_run_spec(pre: Tetris, post: Tetris, r: StepResult) -> bool {
        let ticks = pre.spec_line_remove_speed().spec_emit();
        let pre2 = pre.with_line_remove_speed(pre.spec_line_remove_speed().spec_stepped());
        if ticks > 0 && pre.spec_current() is None {
            if has_blasted(pre.grid(), pre.spec_rows()) {
                &&& r == StepResult::LineRemoved
                &&& Tetris::same_except_grid(pre2, post)
                &&& removed(pre.grid(), post.grid(), pre.spec_cols(), pre.spec_rows())
            } else if piece_intersects(
                spawn_piece(pre.spec_cols(), pre.spec_next()),
                pre.grid(),
                pre.spec_cols(),
                pre.spec_rows(),
            ) {
                &&& r == StepResult::GameOver
                &&& post == (Tetris { game_over: true, ..pre2 })
            } else {
                exists|mid: Tetris|
                    {
                        &&& #[trigger] Tetris::spawned_spec(pre2, mid)
                        &&& Tetris::gravity_spec(mid, post, r)
                    }
            }
        } else {
            Tetris::gravity_spec(pre2, post, r)
        }
    }

    /// The full transition relation of one `step` call: a game-over board
    /// is absorbing and untouched; a running clear delay counts down and
    /// nothing else happens; otherwise the board runs line removal, gravity
    /// and one action per [`Self::step_run_spec`].
    pub open(crate) spec fn step_spec(pre: Tetris, post: Tetris, r: StepResult) -> bool {
        if pre.spec_game_over() {
            r == StepResult::GameOver && post == pre
        } else if pre.spec_delay() is Some && pre.spec_delay()->0 > 0 {
            &&& r == StepResult::Nothing
            &&& post == (Tetris {
                line_remove_delay: Some((pre.spec_delay()->0 - 1) as usize),
                ..pre
            })
        } else {
            Tetris::step_run_spec(Tetris { line_remove_delay: Option::None, ..pre }, post, r)
        }
    }

    /// Advance the board by exactly one tick and report what happened, per
    /// the transition relation [`Self::step_spec`]. In particular, once the
    /// game is over every further call returns `GameOver` and leaves the
    /// board untouched.
    #[verifier::rlimit(100)]
    pub fn step(&mut self) -> (r: StepResult)
        requires
            old(self).wf(),
        ensures
            final(self).wf(),
            Tetris::step_spec(*old(self), *final(self), r),
    {
        if self.game_over {
            return StepResult::GameOver;
        }
        if let Some(delay) = self.line_remove_delay {
            if delay > 0 {
                self.line_remove_delay = Some(delay - 1);
                return StepResult::Nothing;
            } else {
                self.line_remove_delay = Option::None;
            }
        }
        let ghost pre1 = *self;
        proof {
            assert(pre1 == (Tetris { line_remove_delay: Option::None, ..*old(self) }));
        }
        let ticks = self.line_remove_speed.step();
        let ghost pre2 = *self;
        proof {
            assert(pre2 == pre1.with_line_remove_speed(pre1.spec_line_remove_speed().spec_stepped()));
        }
        if ticks > 0 && self.current.is_none() {
            if self.remove_top_blasted_line() {
                return StepResult::LineRemoved;
            }
            if !self.place_next_tetromino() {
                self.game_over = true;
                proof {
                    assert(*self == (Tetris { game_over: true, ..pre2 }));
                }
                return StepResult::GameOver;
            }
        }
        let ghost gstart = *self;
        proof {
            if ticks > 0 && pre2.spec_current() is None {
                assert(Tetris::spawned_spec(pre2, gstart));
            } else {
                assert(gstart == pre2);
            }
        }
        let r = self.step_gravity();
        r
    }

    /// The gravity and action phase of one step: run the regulator the
    /// fast-drop flag selects, enqueue that many synthetic down-moves, then
    /// dequeue and execute exactly one pending action.
    #[verifier::rlimit(100)]
    fn step_gravity(&mut self) -> (r: StepResult)
        requires
            old(self).wf(),
        ensures
            final(self).wf(),
            Tetris::gravity_spec(*old(self), *final(self), r),
    {
        let gticks = if self.drop {
            self.drop_speed.step()
        } else {
            self.fall_speed.step()
        };
        let ghost gstart = *old(self);
        let ghost pre3 = *self;
        let ghost queue = pre3.action_queue() + Seq::new(gticks as nat, |i: int| Action::MoveDown);
        proof {
            if gstart.spec_drop() {
                assert(pre3 == gstart.with_drop_speed(gstart.spec_drop_speed().spec_stepped()));
            } else {
                assert(pre3 == gstart.with_fall_speed(gstart.spec_fall_speed().spec_stepped()));
            }
        }
        let mut i: usize = 0;
        while i < gticks
            invariant
                i <= gticks,
                self.actions@ == pre3.action_queue() + Seq::new(i as nat, |j: int| Action::MoveDown),
                *self == (Tetris { actions: self.actions, ..pre3 }),
                self.wf(),
            decreases gticks - i,
        {
            self.actions.push_back(Action::MoveDown);
            proof {
                assert(self.actions@ =~= pre3.action_queue() + Seq::new(
                    (i + 1) as nat,
                    |j: int| Action::MoveDown,
                ));
            }
            i = i + 1;
        }
        proof {
            assert(self.actions@ =~= queue);
        }
        let action = match self.actions.pop_front() {
            Some(a) => a,
            None => {
                proof {
                    assert(queue.len() == 0);
                    assert(*self == (Tetris { actions: self.actions, ..pre3 }));
                }
                return StepResult::Nothing;
            },
        };
        let ghost rest = queue.subrange(1, queue.len() as int);
        let ghost popped = *self;
        proof {
            assert(action == queue[0]);
            assert(popped.action_queue() =~= rest);
            assert(popped == (Tetris { actions: popped.actions, ..pre3 }));
            assert(popped.wf());
        }
        let succeed = match action {
            Action::MoveLeft => self.move_left(),
            Action::MoveRight => self.move_right(),
            Action::MoveDown => self.move_down(),
            Action::RotateLeft => self.rotate_left(),
            Action::RotateRight => self.rotate_right(),
            Action::Drop => self.drop(),
            Action::BottomRefill => self.bottom_refill(),
        };
        if !succeed && action == Action::MoveDown {
            proof {
                assert(*self == popped);
            }
            self.fix_current_figure();
            let ghost fixed = *self;
            self.blast_full_lines();
            let ghost blasted = *self;
            self.actions.clear();
            self.line_remove_delay = Some(10);
            proof {
                assert forall|y: int, x: int|
                    0 <= y < pre3.spec_rows() && 0 <= x < pre3.spec_cols() implies self.grid()[y][x]
                    == #[trigger] blasted_cell(
                    burned_grid(pre3.grid(), pre3.spec_current(), pre3.spec_cols(), pre3.spec_rows()),
                    pre3.spec_cols(),
                    y,
                    x,
                ) by {
                    let bg = burned_grid(
                        pre3.grid(),
                        pre3.spec_current(),
                        pre3.spec_cols(),
                        pre3.spec_rows(),
                    );
                    assert(fixed.grid()[y][x] == bg[y][x]);
                    assert(blasted.grid()[y][x] == blasted_cell(fixed.grid(), pre3.spec_cols(), y, x));
                    assert(fixed.grid()[y] =~= bg[y]);
                    assert(row_full(fixed.grid(), y, pre3.spec_cols()) == row_full(
                        bg,
                        y,
                        pre3.spec_cols(),
                    ));
                }
                assert(Tetris::lock_spec(popped, *self));
            }
        }
        StepResult::ActionPerformed(action, succeed)
    }
}

} // verus!
