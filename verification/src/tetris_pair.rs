//! The pairing layer: two independently simulated boards, mirrored
//! configuration, two stepping protocols (lock-step and rate-matched), and
//! the cross-board attack: a line removed on one board enqueues a bottom
//! refill on the other.

use vstd::prelude::*;

use crate::tetris::Action;
use crate::tetris::StepResult;
use crate::tetris::Tetris;
use crate::tetris::TetrisGameState;

verus! {

/// Which of the two paired boards a call speaks for.
#[derive(Debug, PartialEq, Eq, Hash, Copy, Clone, Structural)]
pub enum PlayerSide {
    A,
    B,
}

/// A snapshot of both boards, from one player's point of view.
pub struct TetrisPairState {
    pub player: TetrisGameState,
    pub opponent: TetrisGameState,
}

/// Two synchronized boards. A lock-step tick advances both at once; the
/// rate-matched protocol defers a tick until both sides have asked for one,
/// so the pair runs at the slower side's pace.
pub struct TetrisPair {
    pub(crate) tetris_a: Tetris,
    pub(crate) tetris_b: Tetris,
    pub(crate) step_a: bool,
    pub(crate) step_b: bool,
    pub(crate) step_divergence: usize,
}

/// The number of pending cross-board attacks in a queue.
pub open spec fn count_refills(q: Seq<Action>) -> int
    decreases q.len(),
{
    if q.len() == 0 {
        0
    } else {
        (if q[0] == Action::BottomRefill {
            1int
        } else {
            0int
        }) + count_refills(q.subrange(1, q.len() as int))
    }
}

/// Appending a non-attack action leaves the attack count alone; appending
/// an attack raises it by one.
proof fn lemma_count_refills_push(q: Seq<Action>, a: Action)
    ensures
        count_refills(q.push(a)) == count_refills(q) + if a == Action::BottomRefill {
            1int
        } else {
            0int
        },
    decreases q.len(),
{
    if q.len() == 0 {
        assert(q.push(a).subrange(1, 1) =~= Seq::<Action>::empty());
        assert(count_refills(Seq::<Action>::empty()) == 0);
        assert(q.push(a)[0] == a);
        assert(count_refills(q.push(a)) == (if a == Action::BottomRefill {
            1int
        } else {
            0int
        }) + count_refills(q.push(a).subrange(1, 1)));
    } else {
        assert(q.push(a).subrange(1, q.len() as int + 1) =~= q.subrange(1, q.len() as int).push(a));
        lemma_count_refills_push(q.subrange(1, q.len() as int), a);
        assert(count_refills(q.push(a)) == (if q[0] == Action::BottomRefill {
            1int
        } else {
            0int
        }) + count_refills(q.push(a).subrange(1, q.len() as int + 1)));
        assert(count_refills(q) == (if q[0] == Action::BottomRefill {
            1int
        } else {
            0int
        }) + count_refills(q.subrange(1, q.len() as int)));
    }
}

/// Enqueuing any number of synthetic down-moves leaves the attack count
/// alone.
proof fn lemma_count_refills_downs(q: Seq<Action>, k: nat)
    ensures
        count_refills(q + Seq::new(k, |i: int| Action::MoveDown)) == count_refills(q),
    decreases k,
{
    if k == 0 {
        assert(q + Seq::new(0, |i: int| Action::MoveDown) =~= q);
    } else {
        lemma_count_refills_downs(q, (k - 1) as nat);
        assert(q + Seq::new(k, |i: int| Action::MoveDown) =~= (q + Seq::new(
            (k - 1) as nat,
            |i: int| Action::MoveDown,
        )).push(Action::MoveDown));
        lemma_count_refills_push(q + Seq::new((k - 1) as nat, |i: int| Action::MoveDown), Action::MoveDown);
    }
}

/// Dropping the front of a queue never raises the attack count.
proof fn lemma_count_refills_tail(q: Seq<Action>)
    requires
        q.len() > 0,
    ensures
        count_refills(q.subrange(1, q.len() as int)) <= count_refills(q),
{
}

/// One board `step` never enqueues an attack on its own board: the attack
/// count of its queue never grows.
pub proof fn lemma_step_adds_no_refill(pre: Tetris, post: Tetris, r: StepResult)
    requires
        Tetris::step_spec(pre, post, r),
    ensures
        count_refills(post.action_queue()) <= count_refills(pre.action_queue()),
{
    if pre.spec_game_over() {
    } else if pre.spec_delay() is Some && pre.spec_delay()->0 > 0 {
    } else {
        let pre1 = Tetris { line_remove_delay: Option::None, ..pre };
        let ticks = pre1.spec_line_remove_speed().spec_emit();
        let pre2 = pre1.with_line_remove_speed(pre1.spec_line_remove_speed().spec_stepped());
        if ticks > 0 && pre1.spec_current() is None {
            if crate::tetris::has_blasted(pre1.grid(), pre1.spec_rows()) {
            } else if crate::shape::piece_intersects(
                crate::tetris::spawn_piece(pre1.spec_cols(), pre1.spec_next()),
                pre1.grid(),
                pre1.spec_cols(),
                pre1.spec_rows(),
            ) {
            } else {
                let mid = choose|mid: Tetris|
                    #[trigger] Tetris::spawned_spec(pre2, mid) && Tetris::gravity_spec(
                        mid,
                        post,
                        r,
                    );
                lemma_gravity_adds_no_refill(mid, post, r);
            }
        } else {
            lemma_gravity_adds_no_refill(pre2, post, r);
        }
    }
}

/// The gravity and action phase never raises the attack count of the
/// board's own queue.
proof fn lemma_gravity_adds_no_refill(pre: Tetris, post: Tetris, r: StepResult)
    requires
        Tetris::gravity_spec(pre, post, r),
    ensures
        count_refills(post.action_queue()) <= count_refills(pre.action_queue()),
{
    let greg = if pre.spec_drop() {
        pre.spec_drop_speed()
    } else {
        pre.spec_fall_speed()
    };
    let k = greg.spec_emit();
    let pre3 = if pre.spec_drop() {
        pre.with_drop_speed(greg.spec_stepped())
    } else {
        pre.with_fall_speed(greg.spec_stepped())
    };
    let queue = pre3.action_queue() + Seq::new(k as nat, |i: int| Action::MoveDown);
    lemma_count_refills_downs(pre3.action_queue(), k as nat);
    lemma_count_refills_nonneg(pre.action_queue());
    if queue.len() == 0 {
    } else {
        lemma_count_refills_tail(queue);
        let rest = queue.subrange(1, queue.len() as int);
        lemma_count_refills_nonneg(rest);
        if queue[0] == Action::MoveDown && !(pre3.spec_current() is Some && !crate::shape::piece_intersects(
            crate::tetris::moved_piece(pre3.spec_current()->0, 0, 1, crate::shape::Rotation::R0),
            pre3.grid(),
            pre3.spec_cols(),
            pre3.spec_rows(),
        )) {
            assert(post.action_queue().len() == 0);
            assert(count_refills(post.action_queue()) == 0);
        }
    }
}

impl TetrisPair {
    /// Both boards are well formed.
    pub open(crate) spec fn wf(self) -> bool {
        self.tetris_a.wf() && self.tetris_b.wf()
    }

    pub open(crate) spec fn board_a(self) -> Tetris {
        self.tetris_a
    }

    pub open(crate) spec fn board_b(self) -> Tetris {
        self.tetris_b
    }

    pub open(crate) spec fn spec_step_a(self) -> bool {
        self.step_a
    }

    pub open(crate) spec fn spec_step_b(self) -> bool {
        self.step_b
    }

    pub open(crate) spec fn spec_divergence(self) -> int {
        self.step_divergence as int
    }

    /// The board that `player` controls.
    pub open(crate) spec fn board_of(self, player: PlayerSide) -> Tetris {
        match player {
            PlayerSide::A => self.tetris_a,
            PlayerSide::B => self.tetris_b,
        }
    }

    /// `b2` is `b1` with one attack enqueued at the back.
    pub open(crate) spec fn attacked(b1: Tetris, b2: Tetris) -> bool {
        &&& b2.action_queue() == b1.action_queue().push(Action::BottomRefill)
        &&& Tetris::same_except_actions(b1, b2)
    }

    /// One lock-step tick: both boards step once from their old states, and
    /// a `LineRemoved` report on either board enqueues exactly one attack
    /// on the other; nothing else couples them.
    pub open(crate) spec fn pair_step_spec(pre: TetrisPair, post: TetrisPair) -> bool {
        exists|ra: StepResult, rb: StepResult, a1: Tetris, b1: Tetris|
            {
                &&& #[trigger] Tetris::step_spec(pre.board_a(), a1, ra)
                &&& #[trigger] Tetris::step_spec(pre.board_b(), b1, rb)
                &&& if rb == StepResult::LineRemoved {
                    TetrisPair::attacked(a1, post.board_a())
                } else {
                    post.board_a() == a1
                }
                &&& if ra == StepResult::LineRemoved {
                    TetrisPair::attacked(b1, post.board_b())
                } else {
                    post.board_b() == b1
                }
            }
    }

    /// A fresh pair: two fresh boards of the same size, neither side
    /// waiting, and no divergence.
    pub fn new(width: usize, height: usize) -> (p: TetrisPair)
        requires
            1 <= width,
            1 <= height,
            width + 4 <= isize::MAX,
            height + 4 <= isize::MAX,
        ensures
            p.wf(),
            p.board_a().spec_cols() == width,
            p.board_a().spec_rows() == height,
            p.board_b().spec_cols() == width,
            p.board_b().spec_rows() == height,
            !p.board_a().spec_game_over(),
            !p.board_b().spec_game_over(),
            p.board_a().action_queue().len() == 0,
            p.board_b().action_queue().len() == 0,
            !p.spec_step_a(),
            !p.spec_step_b(),
            p.spec_divergence() == 0,
    {
        TetrisPair {
            tetris_a: Tetris::new(width, height),
            tetris_b: Tetris::new(width, height),
            step_a: false,
            step_b: false,
            step_divergence: 0,
        }
    }

    /// Mirror the fall rate onto both boards.
    pub fn set_fall_speed(&mut self, lines: usize, steps: usize)
        requires
            0 < steps,
            lines + steps <= usize::MAX,
        ensures
            final(self).board_a() == old(self).board_a().with_fall_speed(
                crate::frequency_regulator::FrequencyRegulator::new_spec(lines, steps),
            ),
            final(self).board_b() == old(self).board_b().with_fall_speed(
                crate::frequency_regulator::FrequencyRegulator::new_spec(lines, steps),
            ),
            TetrisPair::same_except_boards(*old(self), *final(self)),
    {
        self.tetris_a.set_fall_speed(lines, steps);
        self.tetris_b.set_fall_speed(lines, steps);
    }

    /// Mirror the drop rate onto both boards.
    pub fn set_drop_speed(&mut self, lines: usize, steps: usize)
        requires
            0 < steps,
            lines + steps <= usize::MAX,
        ensures
            final(self).board_a() == old(self).board_a().with_drop_speed(
                crate::frequency_regulator::FrequencyRegulator::new_spec(lines, steps),
            ),
            final(self).board_b() == old(self).board_b().with_drop_speed(
                crate::frequency_regulator::FrequencyRegulator::new_spec(lines, steps),
            ),
            TetrisPair::same_except_boards(*old(self), *final(self)),
    {
        self.tetris_a.set_drop_speed(lines, steps);
        self.tetris_b.set_drop_speed(lines, steps);
    }

    /// Mirror the line-removal rate onto both boards.
    pub fn set_line_remove_speed(&mut self, lines: usize, steps: usize)
        requires
            0 < steps,
            lines + steps <= usize::MAX,
        ensures
            final(self).board_a() == old(self).board_a().with_line_remove_speed(
                crate::frequency_regulator::FrequencyRegulator::new_spec(lines, steps),
            ),
            final(self).board_b() == old(self).board_b().with_line_remove_speed(
                crate::frequency_regulator::FrequencyRegulator::new_spec(lines, steps),
            ),
            TetrisPair::same_except_boards(*old(self), *final(self)),
    {
        self.tetris_a.set_line_remove_speed(lines, steps);
        self.tetris_b.set_line_remove_speed(lines, steps);
    }

    /// `post` differs from `pre` at most in the two boards.
    pub open(crate) spec fn same_except_boards(pre: TetrisPair, post: TetrisPair) -> bool {
        post == (TetrisPair { tetris_a: post.tetris_a, tetris_b: post.tetris_b, ..pre })
    }

    /// One lock-step tick: step both boards, cross-enqueue an attack for
    /// each `LineRemoved` report, and clear both readiness flags.
    pub fn step(&mut self)
        requires
            old(self).wf(),
        ensures
            final(self).wf(),
            TetrisPair::pair_step_spec(*old(self), *final(self)),
            !final(self).spec_step_a(),
            !final(self).spec_step_b(),
            final(self).spec_divergence() == old(self).spec_divergence(),
    {
        self.step_a = false;
        self.step_b = false;
        let step_result_a = self.tetris_a.step();
        let ghost a1 = self.tetris_a;
        let step_result_b = self.tetris_b.step();
        let ghost b1 = self.tetris_b;
        if step_result_a == StepResult::LineRemoved {
            self.tetris_b.add_action(Action::BottomRefill);
        }
        if step_result_b == StepResult::LineRemoved {
            self.tetris_a.add_action(Action::BottomRefill);
        }
        proof {
            assert(Tetris::step_spec(old(self).board_a(), a1, step_result_a));
            assert(Tetris::step_spec(old(self).board_b(), b1, step_result_b));
        }
    }

    /// Rate-matched advance on behalf of one side: record that this side is
    /// ready; when both sides are, fire one lock-step tick and reset the
    /// divergence counter to zero, else count this call into the divergence
    /// and return it. Readiness flags only ever clear together.
    pub fn step_player(&mut self, player: PlayerSide) -> (divergence: usize)
        requires
            old(self).wf(),
            old(self).spec_divergence() < usize::MAX,
        ensures
            final(self).wf(),
            ({
                let ready_a = old(self).spec_step_a() || player == PlayerSide::A;
                let ready_b = old(self).spec_step_b() || player == PlayerSide::B;
                if ready_a && ready_b {
                    &&& divergence == 0
                    &&& final(self).spec_divergence() == 0
                    &&& !final(self).spec_step_a()
                    &&& !final(self).spec_step_b()
                    &&& TetrisPair::pair_step_spec(*old(self), *final(self))
                } else {
                    &&& divergence == old(self).spec_divergence() + 1
                    &&& final(self).spec_divergence() == divergence
                    &&& final(self).spec_step_a() == ready_a
                    &&& final(self).spec_step_b() == ready_b
                    &&& final(self).board_a() == old(self).board_a()
                    &&& final(self).board_b() == old(self).board_b()
                }
            }),
    {
        match player {
            PlayerSide::A => self.step_a = true,
            PlayerSide::B => self.step_b = true,
        }
        if self.step_a && self.step_b {
            self.step();
            self.step_divergence = 0;
        } else {
            self.step_divergence = self.step_divergence + 1;
        }
        self.step_divergence
    }

    /// Enqueue one action on the board that `player` controls.
    pub fn add_player_action(&mut self, player: PlayerSide, action: Action)
        ensures
            final(self).board_of(player).action_queue() == old(self).board_of(
                player,
            ).action_queue().push(action),
            Tetris::same_except_actions(old(self).board_of(player), final(self).board_of(player)),
            final(self).board_of(other_side(player)) == old(self).board_of(other_side(player)),
            TetrisPair::same_except_boards(*old(self), *final(self)),
    {
        match player {
            PlayerSide::A => self.tetris_a.add_action(action),
            PlayerSide::B => self.tetris_b.add_action(action),
        }
    }

    /// Whether either board has reached game over.
    pub fn is_game_over(&self) -> (b: bool)
        ensures
            b == (self.board_a().spec_game_over() || self.board_b().spec_game_over()),
    {
        self.tetris_a.is_game_over() || self.tetris_b.is_game_over()
    }

    /// Snapshots of both boards, the given player's own board first.
    pub fn get_player_game_state(&self, player: PlayerSide) -> (s: TetrisPairState)
        requires
            self.wf(),
        ensures
            Tetris::snapshot_matches(self.board_of(player), s.player),
            Tetris::snapshot_matches(self.board_of(other_side(player)), s.opponent),
    {
        match player {
            PlayerSide::A => TetrisPairState {
                player: self.tetris_a.get_game_state(),
                opponent: self.tetris_b.get_game_state(),
            },
            PlayerSide::B => TetrisPairState {
                player: self.tetris_b.get_game_state(),
                opponent: self.tetris_a.get_game_state(),
            },
        }
    }
}

impl Default for TetrisPair {
    /// A pair of default boards, neither side waiting and no divergence.
    fn default() -> (p: TetrisPair)
        ensures
            p.wf(),
            !p.spec_step_a(),
            !p.spec_step_b(),
            p.spec_divergence() == 0,
            !p.board_a().spec_game_over(),
            !p.board_b().spec_game_over(),
    {
        TetrisPair {
            tetris_a: Tetris::default(),
            tetris_b: Tetris::default(),
            step_a: false,
            step_b: false,
            step_divergence: 0,
        }
    }
}

/// The opponent of a side.
pub open spec fn other_side(player: PlayerSide) -> PlayerSide {
    match player {
        PlayerSide::A => PlayerSide::B,
        PlayerSide::B => PlayerSide::A,
    }
}

/// The refill side effect of a lock-step tick: when board A reports a
/// removed line during a tick and board B's queue held no pending attack,
/// B's queue holds exactly one attack immediately after the tick (and
/// symmetrically, with the sides swapped, by the same argument on the
/// other conjunct of the pair relation).
pub proof fn lemma_refill_side_effect(
    pre: TetrisPair,
    post: TetrisPair,
    ra: StepResult,
    rb: StepResult,
    a1: Tetris,
    b1: Tetris,
)
    requires
        Tetris::step_spec(pre.board_a(), a1, ra),
        Tetris::step_spec(pre.board_b(), b1, rb),
        if rb == StepResult::LineRemoved {
            TetrisPair::attacked(a1, post.board_a())
        } else {
            post.board_a() == a1
        },
        if ra == StepResult::LineRemoved {
            TetrisPair::attacked(b1, post.board_b())
        } else {
            post.board_b() == b1
        },
        ra == StepResult::LineRemoved,
        count_refills(pre.board_b().action_queue()) == 0,
    ensures
        count_refills(post.board_b().action_queue()) == 1,
{
    lemma_step_adds_no_refill(pre.board_b(), b1, rb);
    lemma_count_refills_nonneg(b1.action_queue());
    lemma_count_refills_push(b1.action_queue(), Action::BottomRefill);
}

/// An attack count is never negative.
proof fn lemma_count_refills_nonneg(q: Seq<Action>)
    ensures
        count_refills(q) >= 0,
    decreases q.len(),
{
    if q.len() > 0 {
        lemma_count_refills_nonneg(q.subrange(1, q.len() as int));
    }
}

} // verus!
