//! Converts a target rate of `numerator` ticks per `denominator` calls into a
//! per-call integer tick count, by accumulating-remainder (Bresenham-style)
//! error spreading: the long-run average rate is exactly
//! `numerator / denominator`, with no drift over any window of `denominator`
//! consecutive calls.

use vstd::prelude::*;

verus! {

/// Emits an integer number of ticks on each call of [`FrequencyRegulator::step`],
/// such that any `denominator` consecutive calls emit `numerator` ticks in total.
///
/// A zero `denominator` is rejected at configuration time: `new` requires a
/// positive denominator, so a regulator with a zero divisor can never exist.
#[derive(Debug, Clone, Copy, PartialEq, Eq, Hash)]
pub struct FrequencyRegulator {
    pub(crate) numerator: usize,
    pub(crate) denominator: usize,
    pub(crate) remainder: usize,
}

impl FrequencyRegulator {
    /// Well-formedness: the divisor is positive, the running remainder stays
    /// below it, and one more accumulation cannot overflow a `usize`.
    pub open(crate) spec fn wf(self) -> bool {
        &&& 0 < self.denominator
        &&& self.remainder < self.denominator
        &&& self.numerator + self.denominator <= usize::MAX
    }

    pub open(crate) spec fn spec_numerator(self) -> int {
        self.numerator as int
    }

    pub open(crate) spec fn spec_denominator(self) -> int {
        self.denominator as int
    }

    pub open(crate) spec fn spec_remainder(self) -> int {
        self.remainder as int
    }

    /// The tick count that the next `step` call will emit.
    pub open(crate) spec fn spec_emit(self) -> int {
        (self.remainder + self.numerator) / (self.denominator as int)
    }

    /// The regulator state after the next `step` call.
    pub open(crate) spec fn spec_stepped(self) -> FrequencyRegulator {
        FrequencyRegulator {
            remainder: ((self.remainder + self.numerator) % (self.denominator as int)) as usize,
            ..self
        }
    }

    /// The regulator that `new` constructs: remainder zero.
    pub open(crate) spec fn new_spec(numerator: usize, denominator: usize) -> FrequencyRegulator {
        FrequencyRegulator { numerator, denominator, remainder: 0 }
    }

    pub fn new(numerator: usize, denominator: usize) -> (r: FrequencyRegulator)
        requires
            0 < denominator,
            numerator + denominator <= usize::MAX,
        ensures
            r.wf(),
            r.spec_numerator() == numerator,
            r.spec_denominator() == denominator,
            r.spec_remainder() == 0,
            r == Self::new_spec(numerator, denominator),
    {
        FrequencyRegulator { numerator, denominator, remainder: 0 }
    }

    /// Accumulate the numerator into the running remainder and emit the whole
    /// ticks gathered so far: `remainder += numerator; emit remainder / denominator;
    /// remainder %= denominator`.
    pub fn step(&mut self) -> (ticks: usize)
        requires
            old(self).wf(),
        ensures
            final(self).wf(),
            ticks == old(self).spec_emit(),
            *final(self) == old(self).spec_stepped(),
    {
        self.remainder = self.remainder + self.numerator;
        let ticks = self.remainder / self.denominator;
        self.remainder = self.remainder % self.denominator;
        ticks
    }
}

/// The remainder after `k` further `step` calls from state `r`.
pub open(crate) spec fn remainder_after(r: FrequencyRegulator, k: nat) -> FrequencyRegulator
    decreases k,
{
    if k == 0 {
        r
    } else {
        remainder_after(r, (k - 1) as nat).spec_stepped()
    }
}

/// The total tick count emitted by `k` further `step` calls from state `r`.
pub open(crate) spec fn emitted_after(r: FrequencyRegulator, k: nat) -> int
    decreases k,
{
    if k == 0 {
        0
    } else {
        emitted_after(r, (k - 1) as nat) + remainder_after(r, (k - 1) as nat).spec_emit()
    }
}

/// Running a well-formed regulator preserves well-formedness and the rate
/// configuration, and the emitted total satisfies the fundamental accounting
/// identity: `denominator * emitted + remainder_now == remainder_0 + k * numerator`.
proof fn lemma_accounting(r: FrequencyRegulator, k: nat)
    requires
        r.wf(),
    ensures
        remainder_after(r, k).wf(),
        remainder_after(r, k).spec_numerator() == r.spec_numerator(),
        remainder_after(r, k).spec_denominator() == r.spec_denominator(),
        r.spec_denominator() * emitted_after(r, k) + remainder_after(r, k).spec_remainder()
            == r.spec_remainder() + k * r.spec_numerator(),
    decreases k,
{
    if k > 0 {
        let prev = remainder_after(r, (k - 1) as nat);
        lemma_accounting(r, (k - 1) as nat);
        vstd::arithmetic::div_mod::lemma_fundamental_div_mod(
            prev.spec_remainder() + prev.spec_numerator(),
            r.spec_denominator(),
        );
        vstd::arithmetic::div_mod::lemma_mod_division_less_than_divisor(
            prev.spec_remainder() + prev.spec_numerator(),
            r.spec_denominator(),
        );
        assert(r.spec_denominator() * emitted_after(r, k) + remainder_after(r, k).spec_remainder()
            == r.spec_remainder() + k * r.spec_numerator()) by (nonlinear_arith)
            requires
                emitted_after(r, k) == emitted_after(r, (k - 1) as nat) + prev.spec_emit(),
                prev.spec_remainder() + prev.spec_numerator() == r.spec_denominator()
                    * prev.spec_emit() + remainder_after(r, k).spec_remainder(),
                r.spec_denominator() * emitted_after(r, (k - 1) as nat) + prev.spec_remainder()
                    == r.spec_remainder() + (k - 1) * r.spec_numerator(),
                prev.spec_numerator() == r.spec_numerator(),
        ;
    }
}

/// Over any window of `denominator` consecutive `step` calls, a well-formed
/// regulator emits exactly `numerator` ticks in total, whatever remainder it
/// starts the window with: the long-run rate is exact, with no drift.
pub proof fn lemma_exact_rate_over_window(r: FrequencyRegulator)
    requires
        r.wf(),
    ensures
        emitted_after(r, r.spec_denominator() as nat) == r.spec_numerator(),
{
    let den = r.spec_denominator();
    let k = den as nat;
    lemma_accounting(r, k);
    assert(emitted_after(r, k) == r.spec_numerator()) by (nonlinear_arith)
        requires
            den * emitted_after(r, k) + remainder_after(r, k).spec_remainder() == r.spec_remainder()
                + k * r.spec_numerator(),
            0 <= r.spec_remainder() < den,
            0 <= remainder_after(r, k).spec_remainder() < den,
            k == den,
            0 < den,
    ;
}

/// When the configured rate is one tick per call (`numerator == denominator`),
/// every call emits exactly one tick.
pub proof fn lemma_unit_rate_every_call(r: FrequencyRegulator)
    requires
        r.wf(),
        r.spec_numerator() == r.spec_denominator(),
    ensures
        r.spec_emit() == 1,
{
    vstd::arithmetic::div_mod::lemma_fundamental_div_mod_converse(
        r.spec_remainder() + r.spec_numerator(),
        r.spec_denominator(),
        1,
        r.spec_remainder(),
    );
}

/// When the configured rate is zero, every call emits zero ticks.
pub proof fn lemma_zero_rate_every_call(r: FrequencyRegulator)
    requires
        r.wf(),
        r.spec_numerator() == 0,
    ensures
        r.spec_emit() == 0,
{
    vstd::arithmetic::div_mod::lemma_basic_div(r.spec_remainder(), r.spec_denominator());
}

} // verus!
