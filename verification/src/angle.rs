//! Angles in radians as IEEE 754 single-precision bit patterns, their order,
//! and the rule that keeps a heading within one turn.

use vstd::prelude::*;

verus! {

/// Bit pattern of positive zero.
pub const ZERO_BITS: u32 = 0x0000_0000;

/// Bit pattern of the single-precision value nearest to two pi.
pub const FULL_TURN_BITS: u32 = 0x40C9_0FDB;

/// The lowest bit pattern with the sign bit set (negative zero).
pub const SIGN_BIT: u32 = 0x8000_0000;

/// Bit pattern of positive infinity; a larger magnitude is not a number.
pub const INFINITY_BITS: u32 = 0x7F80_0000;

/// An angle in radians: a single-precision value, held by its bit pattern.
#[derive(Clone, Copy, Debug, PartialEq, Eq, Structural)]
pub struct Radians {
    pub bits: u32,
}

impl Radians {
    /// Whether the sign bit is set.
    pub open spec fn sign(self) -> bool {
        self.bits >= SIGN_BIT
    }

    /// The bit pattern without its sign bit.
    pub open spec fn magnitude(self) -> int {
        if self.sign() {
            self.bits - SIGN_BIT
        } else {
            self.bits as int
        }
    }

    /// Whether the pattern encodes no number (NaN).
    pub open spec fn is_nan(self) -> bool {
        self.magnitude() > INFINITY_BITS
    }

    /// An integer that orders the numbers as their values do: of two
    /// patterns that are numbers, the one of lower rank has the smaller
    /// value, and equal ranks mean equal values. Both zeros have rank 0.
    pub open spec fn rank(self) -> int {
        if self.sign() {
            -self.magnitude()
        } else {
            self.magnitude()
        }
    }

    /// Whether the value lies within one turn: a number from zero to the
    /// full turn, both included.
    pub open spec fn within_turn(self) -> bool {
        !self.is_nan() && 0 <= self.rank() <= FULL_TURN_BITS
    }

    /// The angle zero.
    pub open spec fn spec_zero() -> Radians {
        Radians { bits: ZERO_BITS }
    }

    /// One full turn.
    pub open spec fn spec_full_turn() -> Radians {
        Radians { bits: FULL_TURN_BITS }
    }

    /// `self > bound` as single precision compares: false where either is
    /// not a number.
    pub open spec fn spec_exceeds(self, bound: Radians) -> bool {
        !self.is_nan() && !bound.is_nan() && self.rank() > bound.rank()
    }

    /// `self < bound` as single precision compares: false where either is
    /// not a number.
    pub open spec fn spec_falls_below(self, bound: Radians) -> bool {
        !self.is_nan() && !bound.is_nan() && self.rank() < bound.rank()
    }

    /// The heading after a turn towards larger angles came to `sum`: past
    /// the full turn it starts again at exactly zero, else it is `sum`.
    pub open spec fn spec_settle_ahead(sum: Radians) -> Radians {
        if sum.exceeds(Radians::full_turn()) {
            Radians::zero()
        } else {
            sum
        }
    }

    /// The heading after a turn towards smaller angles came to `diff`:
    /// below zero it starts again at exactly the full turn, else it is
    /// `diff`.
    pub open spec fn spec_settle_behind(diff: Radians) -> Radians {
        if diff.falls_below(Radians::zero()) {
            Radians::full_turn()
        } else {
            diff
        }
    }

    /// The angle zero.
    #[verifier::when_used_as_spec(spec_zero)]
    pub fn zero() -> (r: Radians)
        ensures
            r == Radians::spec_zero(),
    {
        Radians { bits: ZERO_BITS }
    }

    /// One full turn: the single-precision value of two pi.
    #[verifier::when_used_as_spec(spec_full_turn)]
    pub fn full_turn() -> (r: Radians)
        ensures
            r == Radians::spec_full_turn(),
    {
        Radians { bits: FULL_TURN_BITS }
    }

    /// Whether the pattern is no number, and its rank.
    fn key(self) -> (k: (bool, i64))
        ensures
            k.0 == self.is_nan(),
            k.1 == self.rank(),
    {
        let negative = self.bits >= SIGN_BIT;
        let magnitude: u32 = if negative {
            self.bits - SIGN_BIT
        } else {
            self.bits
        };
        let rank: i64 = if negative {
            -(magnitude as i64)
        } else {
            magnitude as i64
        };
        (magnitude > INFINITY_BITS, rank)
    }

    /// Whether `self > bound`.
    #[verifier::when_used_as_spec(spec_exceeds)]
    pub fn exceeds(self, bound: Radians) -> (r: bool)
        ensures
            r == self.spec_exceeds(bound),
    {
        let a = self.key();
        let b = bound.key();
        !a.0 && !b.0 && a.1 > b.1
    }

    /// Whether `self < bound`.
    #[verifier::when_used_as_spec(spec_falls_below)]
    pub fn falls_below(self, bound: Radians) -> (r: bool)
        ensures
            r == self.spec_falls_below(bound),
    {
        let a = self.key();
        let b = bound.key();
        !a.0 && !b.0 && a.1 < b.1
    }

    /// Settles what a turn towards larger angles came to.
    #[verifier::when_used_as_spec(spec_settle_ahead)]
    pub fn settle_ahead(sum: Radians) -> (r: Radians)
        ensures
            r == Radians::spec_settle_ahead(sum),
    {
        if sum.exceeds(Radians::full_turn()) {
            Radians::zero()
        } else {
            sum
        }
    }

    /// Settles what a turn towards smaller angles came to.
    #[verifier::when_used_as_spec(spec_settle_behind)]
    pub fn settle_behind(diff: Radians) -> (r: Radians)
        ensures
            r == Radians::spec_settle_behind(diff),
    {
        if diff.falls_below(Radians::zero()) {
            Radians::full_turn()
        } else {
            diff
        }
    }
}

/// Whether `headings` is a run of turns towards larger angles: turn `i`
/// starts at `headings[i]`, the addition gives `sums[i]`, which is larger,
/// and the turn ends at `sums[i]` settled.
pub open spec fn is_climb(headings: Seq<Radians>, sums: Seq<Radians>) -> bool {
    &&& headings.len() == sums.len() + 1
    &&& forall|i: int|
        0 <= i < sums.len() ==> (#[trigger] sums[i]).exceeds(headings[i]) && headings[i + 1]
            == Radians::settle_ahead(sums[i])
}

/// Whether `headings` is a run of turns towards smaller angles: turn `i`
/// starts at `headings[i]`, the subtraction gives `diffs[i]`, which is
/// smaller, and the turn ends at `diffs[i]` settled.
pub open spec fn is_descent(headings: Seq<Radians>, diffs: Seq<Radians>) -> bool {
    &&& headings.len() == diffs.len() + 1
    &&& forall|i: int|
        0 <= i < diffs.len() ==> (#[trigger] diffs[i]).falls_below(headings[i]) && headings[i + 1]
            == Radians::settle_behind(diffs[i])
}

/// Whatever a turn towards larger angles came to, the settled heading is
/// not past the full turn; where the sum is a number and not below zero,
/// the settled heading lies within one turn.
pub proof fn lemma_settle_ahead_bounds(sum: Radians)
    ensures
        !Radians::settle_ahead(sum).exceeds(Radians::full_turn()),
        !sum.is_nan() && !sum.falls_below(Radians::zero()) ==> Radians::settle_ahead(
            sum,
        ).within_turn(),
{
}

/// Whatever a turn towards smaller angles came to, the settled heading is
/// not below zero; where the difference is a number and not past the full
/// turn, the settled heading lies within one turn.
pub proof fn lemma_settle_behind_bounds(diff: Radians)
    ensures
        !Radians::settle_behind(diff).falls_below(Radians::zero()),
        !diff.is_nan() && !diff.exceeds(Radians::full_turn()) ==> Radians::settle_behind(
            diff,
        ).within_turn(),
{
}

/// In a run of turns towards larger angles that starts within one turn,
/// every heading stays within one turn.
proof fn lemma_climb_stays(headings: Seq<Radians>, sums: Seq<Radians>, k: int)
    requires
        is_climb(headings, sums),
        headings[0].within_turn(),
        0 <= k <= sums.len(),
    ensures
        headings[k].within_turn(),
    decreases k,
{
    if k > 0 {
        lemma_climb_stays(headings, sums, k - 1);
        assert(sums[k - 1].exceeds(headings[k - 1]));
        lemma_settle_ahead_bounds(sums[k - 1]);
    }
}

/// In a run of turns towards smaller angles that starts within one turn,
/// every heading stays within one turn.
proof fn lemma_descent_stays(headings: Seq<Radians>, diffs: Seq<Radians>, k: int)
    requires
        is_descent(headings, diffs),
        headings[0].within_turn(),
        0 <= k <= diffs.len(),
    ensures
        headings[k].within_turn(),
    decreases k,
{
    if k > 0 {
        lemma_descent_stays(headings, diffs, k - 1);
        assert(diffs[k - 1].falls_below(headings[k - 1]));
        lemma_settle_behind_bounds(diffs[k - 1]);
    }
}

/// What one turn towards larger angles does, from `before` over `sum` to
/// `after`: past the full turn the heading is exactly zero, else it is the
/// sum and strictly larger than before; either way it lies within one turn.
pub open spec fn climbed(before: Radians, sum: Radians, after: Radians) -> bool {
    &&& after.within_turn()
    &&& sum.exceeds(Radians::full_turn()) ==> after == Radians::zero()
    &&& !sum.exceeds(Radians::full_turn()) ==> after == sum && after.exceeds(before)
}

/// What one turn towards smaller angles does, from `before` over `diff` to
/// `after`: below zero the heading is exactly the full turn, else it is the
/// difference and strictly smaller than before; either way it lies within
/// one turn.
pub open spec fn descended(before: Radians, diff: Radians, after: Radians) -> bool {
    &&& after.within_turn()
    &&& diff.falls_below(Radians::zero()) ==> after == Radians::full_turn()
    &&& !diff.falls_below(Radians::zero()) ==> after == diff && after.falls_below(before)
}

/// Turning towards larger angles, over and over, from a heading within one
/// turn: the heading grows by what the addition gives until the sum is past
/// the full turn, where it starts again at exactly zero.
pub proof fn lemma_climb(headings: Seq<Radians>, sums: Seq<Radians>)
    requires
        is_climb(headings, sums),
        headings[0].within_turn(),
    ensures
        forall|i: int|
            #![trigger sums[i]]
            0 <= i < sums.len() ==> climbed(headings[i], sums[i], headings[i + 1]),
{
    assert forall|i: int| #![trigger sums[i]] 0 <= i < sums.len() implies climbed(
        headings[i],
        sums[i],
        headings[i + 1],
    ) by {
        lemma_climb_stays(headings, sums, i + 1);
    }
}

/// Turning towards smaller angles, over and over, from a heading within one
/// turn: the heading shrinks by what the subtraction takes until the
/// difference is below zero, where it starts again at exactly the full
/// turn.
pub proof fn lemma_descent(headings: Seq<Radians>, diffs: Seq<Radians>)
    requires
        is_descent(headings, diffs),
        headings[0].within_turn(),
    ensures
        forall|i: int|
            #![trigger diffs[i]]
            0 <= i < diffs.len() ==> descended(headings[i], diffs[i], headings[i + 1]),
{
    assert forall|i: int| #![trigger diffs[i]] 0 <= i < diffs.len() implies descended(
        headings[i],
        diffs[i],
        headings[i + 1],
    ) by {
        lemma_descent_stays(headings, diffs, i + 1);
    }
}

} // verus!
