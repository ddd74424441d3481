use tetris_core::Action;
use tetris_core::CellType;
use tetris_core::PlayerSide;
use tetris_core::TetrisPair;

fn preview_shows(preview: &Vec<Vec<CellType>>, kind: CellType) -> bool {
    preview[0][0] == kind && preview[0][1] == kind && preview[0][2] == kind && preview[0][3] == kind
}

/// A fresh pair whose two boards will both spawn a horizontal I first.
fn pair_with_i_on_both(cols: usize, rows: usize) -> TetrisPair {
    loop {
        let p = TetrisPair::new(cols, rows);
        let state = p.get_player_game_state(PlayerSide::A);
        if preview_shows(&state.player.preview, CellType::I)
            && preview_shows(&state.opponent.preview, CellType::I)
        {
            return p;
        }
    }
}

/// Rate-matched divergence: three calls for side A yield 1, 2, 3; the first
/// call for side B completes the window, fires the tick, and resets the
/// divergence to 0.
#[test]
fn rate_matched_divergence_counts_and_resets() {
    let mut p = TetrisPair::new(10, 20);
    assert_eq!(p.step_player(PlayerSide::A), 1);
    assert_eq!(p.step_player(PlayerSide::A), 2);
    assert_eq!(p.step_player(PlayerSide::A), 3);
    assert_eq!(p.step_player(PlayerSide::B), 0);
    // The flags cleared together: one further single-sided call diverges
    // again rather than firing at once.
    assert_eq!(p.step_player(PlayerSide::B), 1);
    assert_eq!(p.step_player(PlayerSide::A), 0);
}

#[test]
fn fresh_pair_is_running() {
    let p = TetrisPair::new(10, 20);
    assert!(!p.is_game_over());
    let state = p.get_player_game_state(PlayerSide::A);
    assert!(!state.player.game_over);
    assert!(!state.opponent.game_over);
    assert_eq!(state.player.field.len(), 20);
    assert_eq!(state.player.field[0].len(), 10);
}

/// The pair snapshot is taken from the asking player's point of view: the
/// two sides see mirrored states.
#[test]
fn pair_state_swaps_sides() {
    let mut p = pair_with_i_on_both(4, 6);
    p.set_fall_speed(0, 1);
    p.set_line_remove_speed(1, 1);
    p.step();
    // Only side A turns its piece upright: the two boards now differ.
    p.add_player_action(PlayerSide::A, Action::RotateRight);
    p.step();
    let from_a = p.get_player_game_state(PlayerSide::A);
    let from_b = p.get_player_game_state(PlayerSide::B);
    assert_eq!(from_a.player.field, from_b.opponent.field);
    assert_eq!(from_a.opponent.field, from_b.player.field);
    assert_ne!(from_a.player.field, from_a.opponent.field);
}

/// The cross-board attack: the tick on which board A's removed line is
/// reported enqueues exactly one bottom refill on board B, and B's very
/// next step applies it, shifting B's whole grid up one row and discarding
/// the original top row.
#[test]
fn refill_lands_on_the_other_board() {
    let mut p = pair_with_i_on_both(4, 6);
    p.set_fall_speed(0, 1);
    p.set_line_remove_speed(1, 1);
    // Tick 1: both boards spawn their I piece at the top left.
    p.step();
    // Side A drops its horizontal I straight down: it will fill the bottom
    // row. Side B first turns its I upright, then drops it: a vertical I
    // cannot fill a row, so it stays as a mark in B's grid.
    for _ in 0..6 {
        p.add_player_action(PlayerSide::A, Action::MoveDown);
    }
    p.add_player_action(PlayerSide::B, Action::RotateRight);
    for _ in 0..3 {
        p.add_player_action(PlayerSide::B, Action::MoveDown);
    }
    // Ticks 2..8: both queues drain; A locks on the 6th down-move (tick 7),
    // B on its 3rd (tick 5). Both sit out their clear delays; B spawns its
    // next piece again on tick 16. On tick 18 A's delay is over and its
    // blasted row is removed, which enqueues the attack on B.
    for _ in 0..17 {
        p.step();
    }
    let b_before = p.get_player_game_state(PlayerSide::B).player.field;
    // B's mark must still be there: a vertical I in the leftmost column,
    // rows 2 to 5. (B's newly spawned piece floats in rows 0 and 1, so the
    // snapshot rows from 2 downward show the bare grid.)
    for y in 2..6 {
        assert_eq!(b_before[y][0], CellType::I);
    }
    // A's board is cleared by the removal; A has no active piece right now.
    let a_after = p.get_player_game_state(PlayerSide::A).player.field;
    assert!(a_after.iter().all(|row| row.iter().all(|c| *c == CellType::Empty)));
    // Tick 19: B executes the refill. Every row moves up one; the original
    // top row is discarded; the new bottom row holds no blast marker. B's
    // floating piece stays where it was, so rows from 2 downward again show
    // the bare grid.
    p.step();
    let b_after = p.get_player_game_state(PlayerSide::B).player.field;
    for y in 2..5 {
        assert_eq!(b_after[y], b_before[y + 1], "row {} must move up", y);
    }
    for x in 0..4 {
        assert_ne!(b_after[5][x], CellType::Blasted);
    }
    // The shifted mark: the vertical I now ends one row higher.
    assert_eq!(b_after[2][0], CellType::I);
    assert_eq!(b_after[3][0], CellType::I);
    assert_eq!(b_after[4][0], CellType::I);
}

/// Speed configuration mirrors across both boards: with gravity 1 per call
/// on both, the two pieces fall in step.
#[test]
fn speeds_apply_to_both_boards() {
    let mut p = pair_with_i_on_both(6, 8);
    p.set_line_remove_speed(1, 1);
    p.set_fall_speed(1, 1);
    // The first tick spawns on both boards, and gravity at one line per
    // call already moves both pieces down one row within the same tick.
    p.step();
    let state = p.get_player_game_state(PlayerSide::A);
    // Both pieces have been burned into neither grid yet; both snapshots
    // show them one row below the top.
    let row_of_piece = |field: &Vec<Vec<CellType>>| -> usize {
        for (y, row) in field.iter().enumerate() {
            if row.iter().any(|c| *c != CellType::Empty) {
                return y;
            }
        }
        usize::MAX
    };
    assert_eq!(row_of_piece(&state.player.field), 1);
    assert_eq!(row_of_piece(&state.opponent.field), 1);
}
