use tetris_core::shape::get_tetromino_matrix;
use tetris_core::shape::Tetromino;
use tetris_core::CellType;
use tetris_core::Rotation;
use tetris_core::TetrominoType;

const ALL_TYPES: [TetrominoType; 7] = [
    TetrominoType::I,
    TetrominoType::J,
    TetrominoType::L,
    TetrominoType::O,
    TetrominoType::S,
    TetrominoType::T,
    TetrominoType::Z,
];

const ALL_ROTATIONS: [Rotation; 4] = [Rotation::R0, Rotation::R90, Rotation::R180, Rotation::R270];

fn occupied_cells(t: TetrominoType, r: Rotation) -> Vec<(usize, usize)> {
    let mut cells = Vec::new();
    for y in 0..t.get_height(&r) {
        for x in 0..t.get_width(&r) {
            if t.get_cell(x, y, &r) {
                cells.push((x, y));
            }
        }
    }
    cells
}

/// Every kind occupies exactly four cells at every rotation: rotation is a
/// bijection on occupied cells.
#[test]
fn rotation_preserves_cell_count() {
    for t in ALL_TYPES {
        for r in ALL_ROTATIONS {
            assert_eq!(occupied_cells(t, r).len(), 4, "{:?} at {:?}", t, r);
        }
    }
}

/// A quarter turn swaps the bounding box's width and height; composing four
/// quarter turns restores both.
#[test]
fn rotation_swaps_box_dimensions() {
    for t in ALL_TYPES {
        assert_eq!(t.get_width(&Rotation::R0), t.get_height(&Rotation::R90));
        assert_eq!(t.get_height(&Rotation::R0), t.get_width(&Rotation::R90));
        assert_eq!(t.get_width(&Rotation::R0), t.get_width(&Rotation::R180));
        assert_eq!(t.get_height(&Rotation::R90), t.get_height(&Rotation::R270));
    }
}

/// Composing four clockwise quarter turns is the identity on rotations, and
/// a clockwise turn undoes a counterclockwise one.
#[test]
fn rotation_group_cycles() {
    for r in ALL_ROTATIONS {
        let four = r
            .combine(Rotation::R90)
            .combine(Rotation::R90)
            .combine(Rotation::R90)
            .combine(Rotation::R90);
        assert_eq!(four, r);
        assert_eq!(r.rotate_left().rotate_right(), r);
        assert_eq!(r.rotate_right().rotate_left(), r);
    }
}

/// The canonical patterns and two rotated spot checks, cell by cell.
#[test]
fn exact_patterns() {
    // I at rotation 0: one row of four.
    let i0 = occupied_cells(TetrominoType::I, Rotation::R0);
    assert_eq!(i0, vec![(0, 0), (1, 0), (2, 0), (3, 0)]);
    // I at 90 degrees: one column of four.
    let i90 = occupied_cells(TetrominoType::I, Rotation::R90);
    assert_eq!(i90, vec![(0, 0), (0, 1), (0, 2), (0, 3)]);
    // T at rotation 0: stem up at x=1, bar across the second row.
    let t0 = occupied_cells(TetrominoType::T, Rotation::R0);
    assert_eq!(t0, vec![(1, 0), (0, 1), (1, 1), (2, 1)]);
    // T at 180 degrees: bar across the first row, stem down at x=1.
    let t180 = occupied_cells(TetrominoType::T, Rotation::R180);
    assert_eq!(t180, vec![(0, 0), (1, 0), (2, 0), (1, 1)]);
    // S and Z at rotation 0.
    let s0 = occupied_cells(TetrominoType::S, Rotation::R0);
    assert_eq!(s0, vec![(1, 0), (2, 0), (0, 1), (1, 1)]);
    let z0 = occupied_cells(TetrominoType::Z, Rotation::R0);
    assert_eq!(z0, vec![(0, 0), (1, 0), (1, 1), (2, 1)]);
}

#[test]
fn cell_type_of_each_kind() {
    assert_eq!(TetrominoType::I.get_cell_type(), CellType::I);
    assert_eq!(TetrominoType::J.get_cell_type(), CellType::J);
    assert_eq!(TetrominoType::L.get_cell_type(), CellType::L);
    assert_eq!(TetrominoType::O.get_cell_type(), CellType::O);
    assert_eq!(TetrominoType::S.get_cell_type(), CellType::S);
    assert_eq!(TetrominoType::T.get_cell_type(), CellType::T);
    assert_eq!(TetrominoType::Z.get_cell_type(), CellType::Z);
}

#[test]
fn random_cell_is_always_a_color() {
    for _ in 0..200 {
        let c = CellType::new_random();
        assert_ne!(c, CellType::Empty);
        assert_ne!(c, CellType::Blasted);
    }
}

fn empty_field(cols: usize, rows: usize) -> Vec<Vec<CellType>> {
    vec![vec![CellType::Empty; cols]; rows]
}

/// A piece fully inside an empty grid never intersects.
#[test]
fn no_intersection_inside_empty_grid() {
    let field = empty_field(10, 20);
    for t in ALL_TYPES {
        for r in ALL_ROTATIONS {
            let w = t.get_width(&r) as isize;
            let h = t.get_height(&r) as isize;
            for x in 0..(10 - w + 1) {
                for y in 0..(20 - h + 1) {
                    let p = Tetromino::new(t, r, x, y);
                    assert!(!p.intersects(&field), "{:?} {:?} at ({}, {})", t, r, x, y);
                }
            }
        }
    }
}

/// A piece with any occupied cell outside the grid bounds always intersects.
#[test]
fn out_of_bounds_always_intersects() {
    let field = empty_field(10, 20);
    for t in ALL_TYPES {
        for r in ALL_ROTATIONS {
            let w = t.get_width(&r) as isize;
            let h = t.get_height(&r) as isize;
            assert!(Tetromino::new(t, r, -1, 0).intersects(&field));
            assert!(Tetromino::new(t, r, 0, -1).intersects(&field));
            assert!(Tetromino::new(t, r, 10 - w + 1, 0).intersects(&field));
            assert!(Tetromino::new(t, r, 0, 20 - h + 1).intersects(&field));
        }
    }
}

/// A piece overlapping a non-empty cell intersects, and drawing writes its
/// color into exactly the occupied cells.
#[test]
fn overlap_and_draw() {
    let mut field = empty_field(6, 6);
    let p = Tetromino::new(TetrominoType::O, Rotation::R0, 2, 2);
    assert!(!p.intersects(&field));
    p.draw(&mut field);
    for y in 0..6 {
        for x in 0..6 {
            let expect = (2..4).contains(&x) && (2..4).contains(&y);
            assert_eq!(field[y][x] == CellType::O, expect);
        }
    }
    // The same position now collides; a disjoint position does not.
    assert!(p.intersects(&field));
    assert!(Tetromino::new(TetrominoType::O, Rotation::R0, 3, 2).intersects(&field));
    assert!(!Tetromino::new(TetrominoType::O, Rotation::R0, 0, 0).intersects(&field));
}

/// Drawing a piece that straddles the border writes only the in-bounds
/// cells and skips the rest.
#[test]
fn partial_draw_skips_outside_cells() {
    let mut field = empty_field(3, 3);
    let p = Tetromino::new(TetrominoType::I, Rotation::R0, -1, 0);
    p.draw(&mut field);
    assert_eq!(field[0], vec![CellType::I, CellType::I, CellType::I]);
    assert_eq!(field[1], vec![CellType::Empty; 3]);
}

#[test]
fn random_kind_spawns_and_matrix_agrees() {
    for _ in 0..50 {
        let t = TetrominoType::new_random();
        let m = get_tetromino_matrix(&t);
        for r in ALL_ROTATIONS {
            assert_eq!(m.get_width(&r), t.get_width(&r));
            assert_eq!(m.get_height(&r), t.get_height(&r));
            for y in 0..m.get_height(&r) {
                for x in 0..m.get_width(&r) {
                    assert_eq!(m.get_cell(x, y, &r), t.get_cell(x, y, &r));
                }
            }
        }
    }
}
