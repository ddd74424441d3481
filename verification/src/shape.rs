//! Piece geometry: cell colors, the four rotation states, the seven
//! tetromino kinds with their canonical 4x4 occupancy patterns, and the
//! active piece with its collision and drawing rules.
//!
//! Each kind stores exactly one pattern, at rotation 0; occupancy, width and
//! height at any other rotation are derived from it by an index transform,
//! so no rotation-specific tables exist.

use vstd::prelude::*;

use crate::rng::random_u8;

verus! {

/// One cell of a grid: empty, flagged for removal, or one of the seven
/// piece colors.
#[derive(Debug, Clone, Copy, PartialEq, Eq, Hash, Structural)]
pub enum CellType {
    Empty,
    Blasted,
    I,
    J,
    L,
    O,
    S,
    T,
    Z,
}

impl CellType {
    /// True of the seven piece colors; false of `Empty` and of the transient
    /// `Blasted` marker.
    pub open spec fn is_color(self) -> bool {
        self != CellType::Empty && self != CellType::Blasted
    }

    /// Draw one of the seven piece colors at random, each with positive
    /// probability; never `Empty` and never `Blasted`.
    pub fn new_random() -> (c: CellType)
        ensures
            c.is_color(),
    {
        match random_u8() % 7 {
            0 => CellType::I,
            1 => CellType::J,
            2 => CellType::L,
            3 => CellType::O,
            4 => CellType::S,
            5 => CellType::T,
            _ => CellType::Z,
        }
    }
}

/// One of the four rotation states, a cyclic group under composition:
/// rotate-right is +90 degrees and rotate-left is -90 degrees, mod 360.
#[derive(Debug, Clone, Copy, PartialEq, Eq, Hash, Structural)]
pub enum Rotation {
    R0,
    R90,
    R180,
    R270,
}

impl Rotation {
    /// Rotate 90 degrees counterclockwise.
    pub fn rotate_left(&self) -> (r: Rotation)
        ensures
            r == self.spec_left(),
    {
        match self {
            Rotation::R0 => Rotation::R270,
            Rotation::R90 => Rotation::R0,
            Rotation::R180 => Rotation::R90,
            Rotation::R270 => Rotation::R180,
        }
    }

    /// Rotate 90 degrees clockwise.
    pub fn rotate_right(&self) -> (r: Rotation)
        ensures
            r == self.spec_right(),
    {
        match self {
            Rotation::R0 => Rotation::R90,
            Rotation::R90 => Rotation::R180,
            Rotation::R180 => Rotation::R270,
            Rotation::R270 => Rotation::R0,
        }
    }

    /// Compose two rotations: turn `self` further by `delta` (mod-4 addition
    /// on quarter turns).
    pub fn combine(self, delta: Rotation) -> (r: Rotation)
        ensures
            r == self.spec_combine(delta),
    {
        match delta {
            Rotation::R0 => self,
            Rotation::R90 => self.rotate_right(),
            Rotation::R180 => self.rotate_right().rotate_right(),
            Rotation::R270 => self.rotate_left(),
        }
    }

    pub open spec fn spec_left(self) -> Rotation {
        match self {
            Rotation::R0 => Rotation::R270,
            Rotation::R90 => Rotation::R0,
            Rotation::R180 => Rotation::R90,
            Rotation::R270 => Rotation::R180,
        }
    }

    pub open spec fn spec_right(self) -> Rotation {
        match self {
            Rotation::R0 => Rotation::R90,
            Rotation::R90 => Rotation::R180,
            Rotation::R180 => Rotation::R270,
            Rotation::R270 => Rotation::R0,
        }
    }

    pub open spec fn spec_combine(self, delta: Rotation) -> Rotation {
        match delta {
            Rotation::R0 => self,
            Rotation::R90 => self.spec_right(),
            Rotation::R180 => self.spec_right().spec_right(),
            Rotation::R270 => self.spec_left(),
        }
    }
}

/// Four quarter turns in either direction return every rotation to itself:
/// the rotations form a cyclic group of order four.
pub proof fn lemma_rotation_cycle(r: Rotation)
    ensures
        r.spec_combine(Rotation::R90).spec_combine(Rotation::R90).spec_combine(
            Rotation::R90,
        ).spec_combine(Rotation::R90) == r,
        r.spec_combine(Rotation::R270).spec_combine(Rotation::R270).spec_combine(
            Rotation::R270,
        ).spec_combine(Rotation::R270) == r,
        r.spec_combine(Rotation::R90).spec_combine(Rotation::R270) == r,
{
}

/// One of the seven tetromino kinds.
#[derive(Debug, Clone, Copy, PartialEq, Eq, Hash, Structural)]
pub enum TetrominoType {
    I,
    J,
    L,
    O,
    S,
    T,
    Z,
}

/// Width of the canonical (rotation-0) bounding box of `t`.
pub open spec fn base_width(t: TetrominoType) -> int {
    match t {
        TetrominoType::I => 4,
        TetrominoType::O => 2,
        _ => 3,
    }
}

/// Height of the canonical (rotation-0) bounding box of `t`.
pub open spec fn base_height(t: TetrominoType) -> int {
    match t {
        TetrominoType::I => 1,
        _ => 2,
    }
}

/// Occupancy of the canonical (rotation-0) pattern of `t` at `(x, y)`.
pub open spec fn base_cell(t: TetrominoType, x: int, y: int) -> bool {
    match t {
        TetrominoType::I => y == 0 && 0 <= x < 4,
        TetrominoType::J => (y == 0 && x == 0) || (y == 1 && 0 <= x < 3),
        TetrominoType::L => (y == 0 && x == 2) || (y == 1 && 0 <= x < 3),
        TetrominoType::O => 0 <= y < 2 && 0 <= x < 2,
        TetrominoType::S => (y == 0 && (x == 1 || x == 2)) || (y == 1 && (x == 0 || x == 1)),
        TetrominoType::T => (y == 0 && x == 1) || (y == 1 && 0 <= x < 3),
        TetrominoType::Z => (y == 0 && (x == 0 || x == 1)) || (y == 1 && (x == 1 || x == 2)),
    }
}

/// Width of the bounding box of `t` once rotated by `r`.
pub open spec fn rot_width(t: TetrominoType, r: Rotation) -> int {
    match r {
        Rotation::R0 | Rotation::R180 => base_width(t),
        Rotation::R90 | Rotation::R270 => base_height(t),
    }
}

/// Height of the bounding box of `t` once rotated by `r`.
pub open spec fn rot_height(t: TetrominoType, r: Rotation) -> int {
    match r {
        Rotation::R0 | Rotation::R180 => base_height(t),
        Rotation::R90 | Rotation::R270 => base_width(t),
    }
}

/// The canonical-pattern column that `(x, y)` of the box rotated by `r`
/// reads from.
pub open spec fn unrotated_x(t: TetrominoType, r: Rotation, x: int, y: int) -> int {
    match r {
        Rotation::R0 => x,
        Rotation::R90 => y,
        Rotation::R180 => base_width(t) - 1 - x,
        Rotation::R270 => base_width(t) - 1 - y,
    }
}

/// The canonical-pattern row that `(x, y)` of the box rotated by `r`
/// reads from.
pub open spec fn unrotated_y(t: TetrominoType, r: Rotation, x: int, y: int) -> int {
    match r {
        Rotation::R0 => y,
        Rotation::R90 => base_height(t) - 1 - x,
        Rotation::R180 => base_height(t) - 1 - y,
        Rotation::R270 => x,
    }
}

/// Occupancy of `t` rotated by `r` at `(x, y)` of the rotated bounding box:
/// the single source of truth for every rotation-dependent occupancy query.
pub open spec fn rot_cell(t: TetrominoType, x: int, y: int, r: Rotation) -> bool {
    base_cell(t, unrotated_x(t, r, x, y), unrotated_y(t, r, x, y))
}

/// Rotation permutes the cells of the bounding box: the index transform
/// carries the rotated box one-to-one onto the canonical box, preserving
/// occupancy, so the rotated pattern visits each occupied cell of the
/// canonical pattern exactly once.
pub proof fn lemma_rotation_bijection(t: TetrominoType, r: Rotation)
    ensures
        forall|x: int, y: int|
            0 <= x < rot_width(t, r) && 0 <= y < rot_height(t, r) ==> {
                &&& 0 <= #[trigger] unrotated_x(t, r, x, y) < base_width(t)
                &&& 0 <= #[trigger] unrotated_y(t, r, x, y) < base_height(t)
                &&& rot_cell(t, x, y, r) == base_cell(
                    t,
                    unrotated_x(t, r, x, y),
                    unrotated_y(t, r, x, y),
                )
            },
        forall|x1: int, y1: int, x2: int, y2: int|
            0 <= x1 < rot_width(t, r) && 0 <= y1 < rot_height(t, r) && 0 <= x2 < rot_width(t, r)
                && 0 <= y2 < rot_height(t, r) && #[trigger] unrotated_x(t, r, x1, y1)
                == #[trigger] unrotated_x(t, r, x2, y2) && #[trigger] unrotated_y(t, r, x1, y1)
                == #[trigger] unrotated_y(t, r, x2, y2) ==> x1 == x2 && y1 == y2,
{
}

/// The other half of the bijection: every cell `(bx, by)` of the canonical
/// box is reached from exactly one cell of the rotated box.
pub proof fn lemma_rotation_onto(t: TetrominoType, r: Rotation, bx: int, by: int)
    requires
        0 <= bx < base_width(t),
        0 <= by < base_height(t),
    ensures
        exists|x: int, y: int|
            {
                &&& 0 <= x < rot_width(t, r)
                &&& 0 <= y < rot_height(t, r)
                &&& #[trigger] unrotated_x(t, r, x, y) == bx
                &&& unrotated_y(t, r, x, y) == by
            },
{
    let (wx, wy): (int, int) = match r {
        Rotation::R0 => (bx, by),
        Rotation::R90 => (base_height(t) - 1 - by, bx),
        Rotation::R180 => (base_width(t) - 1 - bx, base_height(t) - 1 - by),
        Rotation::R270 => (by, base_width(t) - 1 - bx),
    };
    assert(0 <= wx < rot_width(t, r) && 0 <= wy < rot_height(t, r) && unrotated_x(t, r, wx, wy)
        == bx && unrotated_y(t, r, wx, wy) == by);
}

/// A canonical 4x4 occupancy pattern together with the tight width and
/// height of the occupied region at rotation 0.
#[derive(Debug, Clone, Copy, PartialEq, Eq, Hash)]
pub struct TetrominoMatrix {
    pub matrix: [[bool; 4]; 4],
    pub width: usize,
    pub height: usize,
}

impl TetrominoMatrix {
    /// The bounding box fits inside the stored 4x4 pattern.
    pub open spec fn wf(self) -> bool {
        1 <= self.width <= 4 && 1 <= self.height <= 4
    }

    /// The stored pattern value at `(x, y)`, before any rotation.
    pub open spec fn pattern_cell(self, x: int, y: int) -> bool {
        self.matrix@[y][x]
    }

    /// Width of the bounding box once rotated by `rotation`: a quarter turn
    /// swaps width and height.
    pub fn get_width(&self, rotation: &Rotation) -> (w: usize)
        ensures
            w == self.get_width_spec(*rotation),
    {
        match rotation {
            Rotation::R0 => self.width,
            Rotation::R90 => self.height,
            Rotation::R180 => self.width,
            Rotation::R270 => self.height,
        }
    }

    /// Height of the bounding box once rotated by `rotation`.
    pub fn get_height(&self, rotation: &Rotation) -> (h: usize)
        ensures
            h == self.get_height_spec(*rotation),
    {
        match rotation {
            Rotation::R0 => self.height,
            Rotation::R90 => self.width,
            Rotation::R180 => self.height,
            Rotation::R270 => self.width,
        }
    }

    /// Occupancy at `(x, y)` of the box rotated by `rotation`, read from the
    /// stored pattern through the rotation's index transform.
    pub fn get_cell(&self, x: usize, y: usize, rotation: &Rotation) -> (b: bool)
        requires
            self.wf(),
            x < self.get_width_spec(*rotation),
            y < self.get_height_spec(*rotation),
        ensures
            b == self.get_cell_spec(x as int, y as int, *rotation),
    {
        match rotation {
            Rotation::R0 => self.matrix[y][x],
            Rotation::R90 => self.matrix[self.height - x - 1][y],
            Rotation::R180 => self.matrix[self.height - y - 1][self.width - x - 1],
            Rotation::R270 => self.matrix[x][self.width - y - 1],
        }
    }

    /// Occupancy at `(x, y)` of the box rotated by `r`, as [`Self::get_cell`]
    /// reads it: the stored pattern through the rotation's index transform.
    pub open spec fn get_cell_spec(self, x: int, y: int, r: Rotation) -> bool {
        match r {
            Rotation::R0 => self.pattern_cell(x, y),
            Rotation::R90 => self.pattern_cell(y, self.height - x - 1),
            Rotation::R180 => self.pattern_cell(self.width - x - 1, self.height - y - 1),
            Rotation::R270 => self.pattern_cell(self.width - y - 1, x),
        }
    }

    pub open spec fn get_width_spec(self, r: Rotation) -> int {
        if r == Rotation::R90 || r == Rotation::R270 {
            self.height as int
        } else {
            self.width as int
        }
    }

    pub open spec fn get_height_spec(self, r: Rotation) -> int {
        if r == Rotation::R90 || r == Rotation::R270 {
            self.width as int
        } else {
            self.height as int
        }
    }
}

/// The canonical pattern of `t`: its stored cells agree with [`base_cell`]
/// everywhere in the 4x4 box, and its width and height are the canonical
/// bounding-box sizes.
pub fn get_tetromino_matrix(t: &TetrominoType) -> (m: TetrominoMatrix)
    ensures
        m.wf(),
        m.width == base_width(*t),
        m.height == base_height(*t),
        forall|x: int, y: int|
            0 <= x < 4 && 0 <= y < 4 ==> #[trigger] m.pattern_cell(x, y) == base_cell(*t, x, y),
{
    match t {
        TetrominoType::I => TetrominoMatrix {
            matrix: [
                [true, true, true, true],
                [false, false, false, false],
                [false, false, false, false],
                [false, false, false, false],
            ],
            width: 4,
            height: 1,
        },
        TetrominoType::J => TetrominoMatrix {
            matrix: [
                [true, false, false, false],
                [true, true, true, false],
                [false, false, false, false],
                [false, false, false, false],
            ],
            width: 3,
            height: 2,
        },
        TetrominoType::L => TetrominoMatrix {
            matrix: [
                [false, false, true, false],
                [true, true, true, false],
                [false, false, false, false],
                [false, false, false, false],
            ],
            width: 3,
            height: 2,
        },
        TetrominoType::O => TetrominoMatrix {
            matrix: [
                [true, true, false, false],
                [true, true, false, false],
                [false, false, false, false],
                [false, false, false, false],
            ],
            width: 2,
            height: 2,
        },
        TetrominoType::S => TetrominoMatrix {
            matrix: [
                [false, true, true, false],
                [true, true, false, false],
                [false, false, false, false],
                [false, false, false, false],
            ],
            width: 3,
            height: 2,
        },
        TetrominoType::T => TetrominoMatrix {
            matrix: [
                [false, true, false, false],
                [true, true, true, false],
                [false, false, false, false],
                [false, false, false, false],
            ],
            width: 3,
            height: 2,
        },
        TetrominoType::Z => TetrominoMatrix {
            matrix: [
                [true, true, false, false],
                [false, true, true, false],
                [false, false, false, false],
                [false, false, false, false],
            ],
            width: 3,
            height: 2,
        },
    }
}


/// The grid color that locked cells of `t` take.
pub open spec fn color_of(t: TetrominoType) -> CellType {
    match t {
        TetrominoType::I => CellType::I,
        TetrominoType::J => CellType::J,
        TetrominoType::L => CellType::L,
        TetrominoType::O => CellType::O,
        TetrominoType::S => CellType::S,
        TetrominoType::T => CellType::T,
        TetrominoType::Z => CellType::Z,
    }
}

impl TetrominoType {
    /// Draw one of the seven kinds at random, each with positive probability.
    pub fn new_random() -> Self {
        let random_number = crate::rng::random_u32() % 7;
        match random_number {
            0 => TetrominoType::I,
            1 => TetrominoType::J,
            2 => TetrominoType::L,
            3 => TetrominoType::O,
            4 => TetrominoType::S,
            5 => TetrominoType::T,
            6 => TetrominoType::Z,
            _ => TetrominoType::I,
        }
    }

    /// Width of the bounding box of this kind once rotated by `rotation`.
    pub fn get_width(&self, rotation: &Rotation) -> (w: usize)
        ensures
            w == rot_width(*self, *rotation),
    {
        get_tetromino_matrix(self).get_width(rotation)
    }

    /// Height of the bounding box of this kind once rotated by `rotation`.
    pub fn get_height(&self, rotation: &Rotation) -> (h: usize)
        ensures
            h == rot_height(*self, *rotation),
    {
        get_tetromino_matrix(self).get_height(rotation)
    }

    /// Occupancy of this kind at `(x, y)` of the box rotated by `rotation`.
    pub fn get_cell(&self, x: usize, y: usize, rotation: &Rotation) -> (b: bool)
        requires
            x < rot_width(*self, *rotation),
            y < rot_height(*self, *rotation),
        ensures
            b == rot_cell(*self, x as int, y as int, *rotation),
    {
        get_tetromino_matrix(self).get_cell(x, y, rotation)
    }

    /// The grid color corresponding to this kind.
    pub fn get_cell_type(&self) -> (c: CellType)
        ensures
            c == color_of(*self),
            c.is_color(),
    {
        match self {
            TetrominoType::I => CellType::I,
            TetrominoType::J => CellType::J,
            TetrominoType::L => CellType::L,
            TetrominoType::O => CellType::O,
            TetrominoType::S => CellType::S,
            TetrominoType::T => CellType::T,
            TetrominoType::Z => CellType::Z,
        }
    }
}


/// Every row of `f` has exactly `cols` cells.
pub open spec fn grid_cols(f: Seq<Seq<CellType>>, cols: int) -> bool {
    forall|y: int| 0 <= y < f.len() ==> (#[trigger] f[y]).len() == cols
}

/// The rows of a two-level vector, as a sequence of cell sequences.
pub open spec fn rows_of(f: Seq<Vec<CellType>>) -> Seq<Seq<CellType>> {
    Seq::new(f.len(), |y: int| f[y]@)
}

/// An active piece: a tetromino kind at a rotation, with the grid position
/// of its bounding-box origin.
#[derive(Debug, Clone, Copy, PartialEq, Eq, Hash, Structural)]
pub struct Tetromino {
    pub tetromino_type: TetrominoType,
    pub rotation: Rotation,
    pub x: isize,
    pub y: isize,
}

/// The rotated bounding box of `p` lies fully inside a `cols` x `rows` grid.
pub open spec fn piece_in_bounds(p: Tetromino, cols: int, rows: int) -> bool {
    &&& 0 <= p.x
    &&& 0 <= p.y
    &&& p.x + rot_width(p.tetromino_type, p.rotation) <= cols
    &&& p.y + rot_height(p.tetromino_type, p.rotation) <= rows
}

/// Some occupied cell of `p` falls on a non-empty cell of `g`.
pub open spec fn piece_overlaps(p: Tetromino, g: Seq<Seq<CellType>>) -> bool {
    exists|cx: int, cy: int|
        {
            &&& 0 <= cx < rot_width(p.tetromino_type, p.rotation)
            &&& 0 <= cy < rot_height(p.tetromino_type, p.rotation)
            &&& #[trigger] rot_cell(p.tetromino_type, cx, cy, p.rotation)
            &&& g[p.y + cy][p.x + cx] != CellType::Empty
        }
}

/// The collision rule: `p` intersects a `cols` x `rows` grid `g` when its
/// box leaves the grid or an occupied cell of it overlaps a non-empty cell.
pub open spec fn piece_intersects(p: Tetromino, g: Seq<Seq<CellType>>, cols: int, rows: int) -> bool {
    !piece_in_bounds(p, cols, rows) || piece_overlaps(p, g)
}

/// `p` occupies the grid cell `(gx, gy)`.
pub open spec fn piece_covers(p: Tetromino, gx: int, gy: int) -> bool {
    &&& p.x <= gx < p.x + rot_width(p.tetromino_type, p.rotation)
    &&& p.y <= gy < p.y + rot_height(p.tetromino_type, p.rotation)
    &&& rot_cell(p.tetromino_type, gx - p.x, gy - p.y, p.rotation)
}

/// The grid left by burning `p` with color `c` into `g`: covered cells take
/// `c`, every other cell keeps its value.
pub open spec fn burned(g: Seq<Seq<CellType>>, p: Tetromino, gx: int, gy: int) -> CellType {
    if piece_covers(p, gx, gy) {
        color_of(p.tetromino_type)
    } else {
        g[gy][gx]
    }
}

impl Tetromino {
    pub fn new(tetromino_type: TetrominoType, rotation: Rotation, x: isize, y: isize) -> (p: Tetromino)
        ensures
            p == (Tetromino { tetromino_type, rotation, x, y }),
    {
        Tetromino { tetromino_type, rotation, x, y }
    }

    /// Whether this piece intersects the field borders or a non-empty cell,
    /// per the collision rule [`piece_intersects`]: the sole gate for every
    /// position or rotation change.
    pub fn intersects(&self, field: &Vec<Vec<CellType>>) -> (r: bool)
        requires
            field@.len() >= 1,
            grid_cols(rows_of(field@), field@[0]@.len() as int),
        ensures
            r == piece_intersects(
                *self,
                rows_of(field@),
                field@[0]@.len() as int,
                field@.len() as int,
            ),
    {
        let cols = field[0].len();
        let rows = field.len();
        if self.x < 0 || self.y < 0 {
            return true;
        }
        let x = self.x as usize;
        let y = self.y as usize;
        let width = self.tetromino_type.get_width(&self.rotation);
        let height = self.tetromino_type.get_height(&self.rotation);
        if x + width > cols || y + height > rows {
            return true;
        }
        let mut cell_y: usize = 0;
        while cell_y < height
            invariant
                piece_in_bounds(*self, cols as int, rows as int),
                x == self.x as int,
                y == self.y as int,
                width == rot_width(self.tetromino_type, self.rotation),
                height == rot_height(self.tetromino_type, self.rotation),
                cell_y <= height,
                field@.len() == rows >= 1,
                grid_cols(rows_of(field@), cols as int),
                cols == field@[0]@.len(),
                forall|cx: int, cy: int|
                    0 <= cx < width && 0 <= cy < cell_y && #[trigger] rot_cell(
                        self.tetromino_type,
                        cx,
                        cy,
                        self.rotation,
                    ) ==> rows_of(field@)[y + cy][x + cx] == CellType::Empty,
            decreases height - cell_y,
        {
            let mut cell_x: usize = 0;
            while cell_x < width
                invariant
                    piece_in_bounds(*self, cols as int, rows as int),
                    x == self.x as int,
                    y == self.y as int,
                    width == rot_width(self.tetromino_type, self.rotation),
                    height == rot_height(self.tetromino_type, self.rotation),
                    cell_y < height,
                    cell_x <= width,
                    field@.len() == rows >= 1,
                    grid_cols(rows_of(field@), cols as int),
                    cols == field@[0]@.len(),
                    forall|cx: int, cy: int|
                        0 <= cx < width && 0 <= cy < cell_y && #[trigger] rot_cell(
                            self.tetromino_type,
                            cx,
                            cy,
                            self.rotation,
                        ) ==> rows_of(field@)[y + cy][x + cx] == CellType::Empty,
                    forall|cx: int|
                        0 <= cx < cell_x && #[trigger] rot_cell(
                            self.tetromino_type,
                            cx,
                            cell_y as int,
                            self.rotation,
                        ) ==> rows_of(field@)[y + cell_y][x + cx] == CellType::Empty,
                decreases width - cell_x,
            {
                if self.tetromino_type.get_cell(cell_x, cell_y, &self.rotation) && field[y
                    + cell_y][x + cell_x] != CellType::Empty {
                    assert(piece_overlaps(*self, rows_of(field@))) by {
                        assert(rows_of(field@)[y + cell_y as int][x + cell_x as int] == field@[y
                            + cell_y as int]@[x + cell_x as int]);
                    }
                    return true;
                }
                assert(rows_of(field@)[y + cell_y as int][x + cell_x as int] == field@[y
                    + cell_y as int]@[x + cell_x as int]);
                cell_x = cell_x + 1;
            }
            cell_y = cell_y + 1;
        }
        assert(!piece_overlaps(*self, rows_of(field@)));
        false
    }

    /// Burn this piece into the field with its kind's color. Occupied cells
    /// that fall outside the field are silently skipped, so a piece that
    /// straddles the border is drawn partially.
    pub fn draw(&self, field: &mut Vec<Vec<CellType>>)
        requires
            old(field)@.len() >= 1,
            old(field)@.len() <= isize::MAX as int,
            old(field)@[0]@.len() <= isize::MAX as int,
            grid_cols(rows_of(old(field)@), old(field)@[0]@.len() as int),
            self.x + rot_width(self.tetromino_type, self.rotation) <= isize::MAX as int,
            self.y + rot_height(self.tetromino_type, self.rotation) <= isize::MAX as int,
        ensures
            final(field)@.len() == old(field)@.len(),
            forall|gy: int|
                0 <= gy < old(field)@.len() ==> (#[trigger] final(field)@[gy])@.len() == old(
                    field,
                )@[gy]@.len(),
            forall|gy: int, gx: int|
                0 <= gy < old(field)@.len() && 0 <= gx < old(field)@[0]@.len()
                    ==> rows_of(final(field)@)[gy][gx] == #[trigger] burned(
                    rows_of(old(field)@),
                    *self,
                    gx,
                    gy,
                ),
    {
        let ghost g0 = rows_of(old(field)@);
        let cols = field[0].len();
        let rows = field.len();
        let width = self.tetromino_type.get_width(&self.rotation);
        let height = self.tetromino_type.get_height(&self.rotation);
        let cell_type = self.tetromino_type.get_cell_type();
        let mut cell_y: usize = 0;
        while cell_y < height
            invariant
                width == rot_width(self.tetromino_type, self.rotation),
                height == rot_height(self.tetromino_type, self.rotation),
                cell_type == color_of(self.tetromino_type),
                self.x + width <= isize::MAX as int,
                self.y + height <= isize::MAX as int,
                cell_y <= height,
                field@.len() == rows == g0.len() >= 1,
                rows <= isize::MAX as int,
                cols <= isize::MAX as int,
                forall|gy: int| 0 <= gy < rows ==> (#[trigger] field@[gy])@.len() == g0[gy].len(),
                grid_cols(g0, cols as int),
                cols == g0[0].len(),
                forall|gy: int, gx: int|
                    0 <= gy < rows && 0 <= gx < cols ==> rows_of(field@)[gy][gx]
                        == #[trigger] drawn_upto(g0, *self, cell_y as int, 0, gx, gy),
            decreases height - cell_y,
        {
            let mut cell_x: usize = 0;
            while cell_x < width
                invariant
                    width == rot_width(self.tetromino_type, self.rotation),
                    height == rot_height(self.tetromino_type, self.rotation),
                    cell_type == color_of(self.tetromino_type),
                    self.x + width <= isize::MAX as int,
                    self.y + height <= isize::MAX as int,
                    cell_y < height,
                    cell_x <= width,
                    field@.len() == rows == g0.len() >= 1,
                    rows <= isize::MAX as int,
                    cols <= isize::MAX as int,
                    forall|gy: int| 0 <= gy < rows ==> (#[trigger] field@[gy])@.len() == g0[gy].len(),
                    grid_cols(g0, cols as int),
                    cols == g0[0].len(),
                    forall|gy: int, gx: int|
                        0 <= gy < rows && 0 <= gx < cols ==> rows_of(field@)[gy][gx]
                            == #[trigger] drawn_upto(g0, *self, cell_y as int, cell_x as int, gx, gy),
                decreases width - cell_x,
            {
                let ghost pre = field@;
                if self.tetromino_type.get_cell(cell_x, cell_y, &self.rotation) {
                    let x = self.x + cell_x as isize;
                    let y = self.y + cell_y as isize;
                    if x >= 0 && x < cols as isize && y >= 0 && y < rows as isize {
                        field[y as usize][x as usize] = cell_type;
                    }
                }
                assert forall|gy: int, gx: int| 0 <= gy < rows && 0 <= gx < cols implies rows_of(
                    field@,
                )[gy][gx] == #[trigger] drawn_upto(
                    g0,
                    *self,
                    cell_y as int,
                    cell_x + 1,
                    gx,
                    gy,
                ) by {
                    assert(rows_of(pre)[gy][gx] == drawn_upto(
                        g0,
                        *self,
                        cell_y as int,
                        cell_x as int,
                        gx,
                        gy,
                    ));
                    assert(rows_of(pre)[gy][gx] == pre[gy]@[gx]);
                    assert(rows_of(field@)[gy][gx] == field@[gy]@[gx]);
                }
                cell_x = cell_x + 1;
            }
            assert forall|gy: int, gx: int| 0 <= gy < rows && 0 <= gx < cols implies drawn_upto(
                g0,
                *self,
                cell_y as int,
                width as int,
                gx,
                gy,
            ) == #[trigger] drawn_upto(g0, *self, cell_y + 1, 0, gx, gy) by {}
            cell_y = cell_y + 1;
        }
        assert forall|gy: int, gx: int| 0 <= gy < g0.len() && 0 <= gx < g0[0].len() implies
            drawn_upto(g0, *self, height as int, 0, gx, gy) == #[trigger] burned(
            g0,
            *self,
            gx,
            gy,
        ) by {}
    }
}

/// The value of grid cell `(gx, gy)` once the occupied piece cells strictly
/// before `(cx_done, cy_done)` in row-major drawing order have been burned
/// into `g`: the intermediate state of [`Tetromino::draw`].
pub open spec fn drawn_upto(
    g: Seq<Seq<CellType>>,
    p: Tetromino,
    cy_done: int,
    cx_done: int,
    gx: int,
    gy: int,
) -> CellType {
    if piece_covers(p, gx, gy) && (gy - p.y < cy_done || (gy - p.y == cy_done && gx - p.x
        < cx_done)) {
        color_of(p.tetromino_type)
    } else {
        g[gy][gx]
    }
}

/// A piece whose bounding box lies fully inside an everywhere-empty grid
/// never intersects it.
pub proof fn lemma_no_intersect_in_empty_grid(p: Tetromino, g: Seq<Seq<CellType>>, cols: int, rows: int)
    requires
        grid_cols(g, cols),
        g.len() == rows,
        forall|gy: int, gx: int| 0 <= gy < rows && 0 <= gx < cols ==> #[trigger] g[gy][gx]
            == CellType::Empty,
        piece_in_bounds(p, cols, rows),
    ensures
        !piece_intersects(p, g, cols, rows),
{
    assert forall|cx: int, cy: int|
        0 <= cx < rot_width(p.tetromino_type, p.rotation) && 0 <= cy < rot_height(
            p.tetromino_type,
            p.rotation,
        ) && #[trigger] rot_cell(p.tetromino_type, cx, cy, p.rotation) implies g[p.y + cy][p.x
        + cx] == CellType::Empty by {}
}

/// A piece with any occupied cell outside the grid bounds always intersects:
/// the occupied cell lies in the bounding box, so the box itself must leave
/// the grid.
pub proof fn lemma_occupied_cell_outside_intersects(
    p: Tetromino,
    g: Seq<Seq<CellType>>,
    cols: int,
    rows: int,
    cx: int,
    cy: int,
)
    requires
        0 <= cx < rot_width(p.tetromino_type, p.rotation),
        0 <= cy < rot_height(p.tetromino_type, p.rotation),
        rot_cell(p.tetromino_type, cx, cy, p.rotation),
        !(0 <= p.x + cx < cols && 0 <= p.y + cy < rows),
    ensures
        piece_intersects(p, g, cols, rows),
{
}


/// Every occupied cell of the canonical pattern lies inside the canonical
/// bounding box: the stored width and height are tight.
pub proof fn lemma_base_cell_within(t: TetrominoType)
    ensures
        forall|x: int, y: int| #[trigger]
            base_cell(t, x, y) ==> 0 <= x < base_width(t) && 0 <= y < base_height(t),
{
}

/// The 4x4 preview image of `t`: its canonical pattern at the origin, in its
/// color, on an otherwise empty grid.
pub open spec fn preview_of(t: TetrominoType) -> Seq<Seq<CellType>> {
    Seq::new(
        4,
        |y: int|
            Seq::new(
                4,
                |x: int|
                    if base_cell(t, x, y) {
                        color_of(t)
                    } else {
                        CellType::Empty
                    },
            ),
    )
}

} // verus!
