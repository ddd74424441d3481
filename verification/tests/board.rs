use tetris_core::Action;
use tetris_core::CellType;
use tetris_core::StepResult;
use tetris_core::Tetris;
use tetris_core::TetrominoType;

/// A fresh board until its next piece is the wanted kind, so a test can
/// rely on the shape that will spawn first.
fn board_with_next(kind: TetrominoType, cols: usize, rows: usize) -> Tetris {
    loop {
        let t = Tetris::new(cols, rows);
        if *t.get_next() == kind {
            return t;
        }
    }
}

#[test]
fn new_board_is_empty_and_running() {
    let t = Tetris::new(10, 20);
    assert!(!t.is_game_over());
    assert!(t.get_current().is_none());
    let field = t.get_field();
    assert_eq!(field.len(), 20);
    for row in field {
        assert_eq!(row.len(), 10);
        for cell in row {
            assert_eq!(*cell, CellType::Empty);
        }
    }
}

/// With the default line-removal rate of 1 per 3 calls, the first piece
/// spawns on the third step; the steps before it report nothing.
#[test]
fn spawn_arrives_with_line_removal_rate() {
    let mut t = Tetris::new(10, 20);
    assert_eq!(t.step(), StepResult::Nothing);
    assert!(t.get_current().is_none());
    assert_eq!(t.step(), StepResult::Nothing);
    assert!(t.get_current().is_none());
    assert_eq!(t.step(), StepResult::Nothing);
    assert!(t.get_current().is_some());
}

/// Each step dequeues and executes exactly one pending action, in FIFO
/// order, and reports it.
#[test]
fn actions_run_one_per_step_in_order() {
    let mut t = Tetris::new(10, 20);
    t.set_line_remove_speed(1, 1);
    t.set_fall_speed(0, 1);
    assert_eq!(t.step(), StepResult::Nothing);
    assert!(t.get_current().is_some());
    t.add_action(Action::MoveLeft);
    t.add_action(Action::MoveRight);
    t.add_action(Action::RotateRight);
    assert_eq!(t.step(), StepResult::ActionPerformed(Action::MoveLeft, true));
    assert_eq!(t.step(), StepResult::ActionPerformed(Action::MoveRight, true));
    let r = t.step();
    match r {
        StepResult::ActionPerformed(Action::RotateRight, _) => {},
        other => panic!("unexpected result {:?}", other),
    }
}

/// The drop action does not move the piece; it only flips the fast-drop
/// flag, and always succeeds.
#[test]
fn drop_sets_flag_without_moving() {
    let mut t = Tetris::new(10, 20);
    t.set_line_remove_speed(1, 1);
    t.set_fall_speed(0, 1);
    assert_eq!(t.step(), StepResult::Nothing);
    let before = *t.get_current();
    t.add_action(Action::Drop);
    assert_eq!(t.step(), StepResult::ActionPerformed(Action::Drop, true));
    assert_eq!(*t.get_current(), before);
}

/// The lock-blast-clear round trip: a horizontal I dropped on a four-wide
/// board fills the bottom row; the failing down-move locks it and blasts
/// the row; the clear delay of 10 ticks passes; the very next step reports
/// `LineRemoved` exactly once, after which the rows above have shifted down
/// and the top row is empty.
#[test]
fn line_removal_round_trip() {
    let mut t = board_with_next(TetrominoType::I, 4, 6);
    t.set_line_remove_speed(1, 1);
    t.set_fall_speed(0, 1);
    // Spawn the I at the top; the board is 4 wide, so it spans a full row.
    assert_eq!(t.step(), StepResult::Nothing);
    assert!(t.get_current().is_some());
    // Five successful down-moves take it to the bottom row.
    for _ in 0..5 {
        t.add_action(Action::MoveDown);
        assert_eq!(t.step(), StepResult::ActionPerformed(Action::MoveDown, true));
    }
    // The sixth fails and locks: the full bottom row turns blasted.
    t.add_action(Action::MoveDown);
    assert_eq!(t.step(), StepResult::ActionPerformed(Action::MoveDown, false));
    let field = t.get_field();
    for x in 0..4 {
        assert_eq!(field[5][x], CellType::Blasted);
    }
    // The clear delay: ten steps in which nothing happens.
    for _ in 0..10 {
        assert_eq!(t.step(), StepResult::Nothing);
    }
    // The next step shifts the blasted row out and reports it, exactly once.
    assert_eq!(t.step(), StepResult::LineRemoved);
    for row in t.get_field() {
        for cell in row {
            assert_eq!(*cell, CellType::Empty);
        }
    }
    // Afterwards the board spawns the next piece and goes on; no further
    // removal is reported.
    for _ in 0..5 {
        assert_ne!(t.step(), StepResult::LineRemoved);
    }
}

/// A bottom refill shifts the whole grid up one row, discards the original
/// top row, and fills the bottom row with random cells that are never the
/// blast marker.
#[test]
fn bottom_refill_shifts_grid_up() {
    // A five-wide board: no piece can fill a row, so a locked piece stays
    // as a permanent mark in the grid.
    let mut t = Tetris::new(5, 6);
    t.set_line_remove_speed(1, 1);
    t.set_fall_speed(0, 1);
    assert_eq!(t.step(), StepResult::Nothing);
    assert!(t.get_current().is_some());
    // Drop the piece until it locks.
    let mut locked = false;
    for _ in 0..10 {
        t.add_action(Action::MoveDown);
        if t.step() == StepResult::ActionPerformed(Action::MoveDown, false) {
            locked = true;
            break;
        }
    }
    assert!(locked);
    // Wait out the clear delay (no row is full, so nothing blasts) and let
    // the next piece spawn.
    for _ in 0..11 {
        t.step();
    }
    let before = t.get_field().clone();
    assert!(before.iter().any(|row| row.iter().any(|c| *c != CellType::Empty)));
    t.add_action(Action::BottomRefill);
    assert_eq!(t.step(), StepResult::ActionPerformed(Action::BottomRefill, true));
    let after = t.get_field();
    for y in 0..5 {
        assert_eq!(after[y], before[y + 1], "row {} must move up", y);
    }
    for x in 0..5 {
        assert_ne!(after[5][x], CellType::Blasted);
    }
}

/// Game-over permanence: a board too narrow for any spawn fails its first
/// spawn, and from then on 100 further steps all report game over and the
/// grid is never mutated again.
#[test]
fn game_over_is_permanent() {
    let mut t = Tetris::new(1, 1);
    t.set_line_remove_speed(1, 1);
    assert_eq!(t.step(), StepResult::GameOver);
    assert!(t.is_game_over());
    let frozen = t.get_field().clone();
    for _ in 0..100 {
        assert_eq!(t.step(), StepResult::GameOver);
        assert_eq!(*t.get_field(), frozen);
    }
}

/// The snapshot burns the active piece into its grid copy without touching
/// the board, and carries a 4x4 preview of the next kind.
#[test]
fn snapshot_burns_active_piece() {
    let mut t = Tetris::new(10, 20);
    t.set_line_remove_speed(1, 1);
    t.set_fall_speed(0, 1);
    assert_eq!(t.step(), StepResult::Nothing);
    assert!(t.get_current().is_some());
    let state = t.get_game_state();
    assert_eq!(state.cols, 10);
    assert_eq!(state.rows, 20);
    assert!(!state.game_over);
    let board_filled: usize = t
        .get_field()
        .iter()
        .map(|row| row.iter().filter(|c| **c != CellType::Empty).count())
        .sum();
    let snapshot_filled: usize = state
        .field
        .iter()
        .map(|row| row.iter().filter(|c| **c != CellType::Empty).count())
        .sum();
    assert_eq!(board_filled, 0);
    assert_eq!(snapshot_filled, 4);
    // The preview is 4x4 and shows exactly the four cells of the next kind.
    assert_eq!(state.preview.len(), 4);
    let preview_filled: usize = state
        .preview
        .iter()
        .map(|row| row.iter().filter(|c| **c != CellType::Empty).count())
        .sum();
    assert_eq!(preview_filled, 4);
}

/// Moves that would leave the grid fail and leave the piece in place.
#[test]
fn blocked_moves_report_failure() {
    let mut t = board_with_next(TetrominoType::O, 4, 6);
    t.set_line_remove_speed(1, 1);
    t.set_fall_speed(0, 1);
    assert_eq!(t.step(), StepResult::Nothing);
    // The O spawns at x = 0 on a four-wide board: a left move must fail.
    t.add_action(Action::MoveLeft);
    assert_eq!(t.step(), StepResult::ActionPerformed(Action::MoveLeft, false));
    t.add_action(Action::MoveRight);
    assert_eq!(t.step(), StepResult::ActionPerformed(Action::MoveRight, true));
}

#[test]
fn default_board_is_ten_by_twenty() {
    let t = Tetris::default();
    assert_eq!(t.get_field().len(), 20);
    assert_eq!(t.get_field()[0].len(), 10);
    assert!(!t.is_game_over());
}

/// A down-move processed while no piece is active fails, and the failure
/// runs the full lock machinery on nothing: the queue clears and the clear
/// delay starts.
#[test]
fn down_move_without_piece_locks_nothing() {
    let mut t = Tetris::new(10, 20);
    t.set_fall_speed(0, 1);
    // The default line-removal rate emits nothing on the first call, so no
    // piece spawns before the queued action runs.
    t.add_action(Action::MoveDown);
    t.add_action(Action::MoveLeft);
    assert_eq!(t.step(), StepResult::ActionPerformed(Action::MoveDown, false));
    // The queue was cleared and the clear delay runs: the pending MoveLeft
    // is gone and the next ten steps report nothing.
    for _ in 0..10 {
        assert_eq!(t.step(), StepResult::Nothing);
    }
}

/// The refill deliberately neither re-validates nor repositions the active
/// piece: shifting the grid up can leave the piece overlapping filled
/// cells, and it stays exactly where it was.
#[test]
fn refill_leaves_overlapping_piece_in_place() {
    let mut t = board_with_next(TetrominoType::I, 4, 6);
    t.set_line_remove_speed(1, 1);
    t.set_fall_speed(0, 1);
    assert_eq!(t.step(), StepResult::Nothing);
    // Stand the I upright in the leftmost column and lock it at the bottom.
    t.add_action(Action::RotateRight);
    assert_eq!(t.step(), StepResult::ActionPerformed(Action::RotateRight, true));
    t.add_action(Action::MoveDown);
    assert_eq!(t.step(), StepResult::ActionPerformed(Action::MoveDown, true));
    t.add_action(Action::MoveDown);
    assert_eq!(t.step(), StepResult::ActionPerformed(Action::MoveDown, true));
    t.add_action(Action::MoveDown);
    assert_eq!(t.step(), StepResult::ActionPerformed(Action::MoveDown, false));
    // Wait out the clear delay; the next piece spawns at the top left.
    for _ in 0..11 {
        t.step();
    }
    let before = *t.get_current();
    assert!(before.is_some());
    // Two refills push the locked column into the spawn area: every kind
    // occupies the top-left corner cells, so the piece now overlaps.
    for _ in 0..2 {
        t.add_action(Action::BottomRefill);
        assert_eq!(t.step(), StepResult::ActionPerformed(Action::BottomRefill, true));
    }
    assert_eq!(*t.get_current(), before);
    assert!(before.unwrap().intersects(t.get_field()));
}
