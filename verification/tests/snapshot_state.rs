use tetris_core::CellType;
use tetris_core::Field;

#[test]
fn fresh_field_is_empty() {
    let f = Field::new(3, 2);
    assert_eq!(f.cols(), 3);
    assert_eq!(f.rows(), 2);
    for y in 0..2 {
        for x in 0..3 {
            assert_eq!(f.get_cell(x, y), CellType::Empty);
        }
    }
}

#[test]
fn field_from_grid_copies_cells() {
    let mut cells = vec![vec![CellType::Empty; 3]; 2];
    cells[1][2] = CellType::T;
    cells[0][0] = CellType::Blasted;
    let f = Field::from_grid(&cells, 3, 2);
    assert_eq!(f.get_cell(2, 1), CellType::T);
    assert_eq!(f.get_cell(0, 0), CellType::Blasted);
    assert_eq!(f.get_cell(1, 1), CellType::Empty);
    // The field is a copy: mutating the source afterwards changes nothing.
    cells[1][1] = CellType::I;
    assert_eq!(f.get_cell(1, 1), CellType::Empty);
    // Equal contents compare equal; different contents do not.
    let g = f.clone();
    assert_eq!(f, g);
    assert_ne!(f, Field::new(3, 2));
}
