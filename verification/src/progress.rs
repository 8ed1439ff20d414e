//! Score and tier accounting for the per-message XP handler.
//!
//! A user's score grows with every qualifying inbound message and never
//! shrinks; the tier is always the score divided by a fixed number of points,
//! rounded down. Scores are kept in integer milli-points (one point is 1000
//! milli-points), so the accounting here is exact. The host computes the
//! logarithmic damping divisor (a floating-point quantity) and hands it in as
//! milli-units; everything after that point is fixed here.

use vstd::prelude::*;
use vstd::string::StringExecFns;

use crate::textutil::{decimal_digits, decimal_string, starts_with_spec, str_starts_with};

verus! {

/// The platform's inline mention of a user.
pub fn mention(user_id: u64) -> (r: String)
    ensures
        r@ == "<@"@ + decimal_digits(user_id as int) + ">"@,
{
    let mut r = String::from_str("<@");
    let digits = decimal_string(user_id);
    r.append(digits.as_str());
    r.append(">");
    r
}

/// The congratulation line a tier-up notification carries.
pub fn congrats_line(user_id: u64, tier: u64) -> (r: String)
    ensures
        r@ == "congrats "@ + "<@"@ + decimal_digits(user_id as int) + ">"@
            + "! you've levelled up to "@ + decimal_digits(tier as int) + "!"@,
{
    let mut r = String::from_str("congrats ");
    let who = mention(user_id);
    r.append(who.as_str());
    r.append("! you've levelled up to ");
    let level = decimal_string(tier);
    r.append(level.as_str());
    r.append("!");
    proof {
        assert(r@ =~= "congrats "@ + "<@"@ + decimal_digits(user_id as int) + ">"@
            + "! you've levelled up to "@ + decimal_digits(tier as int) + "!"@);
    }
    r
}

/// A message earns score exactly when it is from a person, not an
/// automated sender, and is not a command (does not open with the
/// configured command prefix).
pub fn message_qualifies(author_is_bot: bool, content: &str, prefix: &str) -> (r: bool)
    ensures
        r == (!author_is_bot && !starts_with_spec(content@, prefix@)),
{
    !author_is_bot && !str_starts_with(content, prefix)
}

/// Milli-points per point of score.
pub const MILLI_PER_POINT: u64 = 1000;

/// Points per tier: the tier is the score divided by this, rounded down.
pub const POINTS_PER_TIER: u64 = 100;

/// Milli-points per tier.
pub const MILLI_PER_TIER: u64 = 100_000;

/// The tier a score entitles its holder to.
pub open spec fn tier_of(score_milli: u64) -> int {
    score_milli as int / (MILLI_PER_TIER as int)
}

/// The exact milli-point gain for a message: the message length divided by
/// the chars-per-point constant, damped by the divisor, rounded down at
/// milli-point precision.
pub open spec fn gain_milli_spec(len: int, chars_for_level: int, divisor_milli: int) -> int {
    len * 1_000_000 / (chars_for_level * divisor_milli)
}

/// A user's durable score record. `tier` is derived state: it always equals
/// `tier_of(score_milli)`.
pub struct UserProgress {
    pub user_id: i64,
    pub score_milli: u64,
    pub tier: u64,
}

impl UserProgress {
    pub open spec fn wf(self) -> bool {
        self.tier == tier_of(self.score_milli)
    }

    /// A fresh record for a user who has never sent a qualifying message.
    pub fn new(user_id: i64) -> (r: UserProgress)
        ensures
            r.wf(),
            r.user_id == user_id,
            r.score_milli == 0,
            r.tier == 0,
    {
        UserProgress { user_id, score_milli: 0, tier: 0 }
    }

    /// Credit one message's gain: the score grows by exactly `gain_milli`,
    /// the tier is recomputed, and the result says whether a tier boundary
    /// was crossed — the signal for the one congratulatory notification.
    pub fn apply_gain(&mut self, gain_milli: u64) -> (tier_up: bool)
        requires
            old(self).wf(),
            old(self).score_milli + gain_milli <= u64::MAX,
        ensures
            final(self).wf(),
            final(self).user_id == old(self).user_id,
            final(self).score_milli == old(self).score_milli + gain_milli,
            final(self).tier == tier_of(final(self).score_milli),
            final(self).score_milli >= old(self).score_milli,
            final(self).tier >= old(self).tier,
            tier_up <==> final(self).tier > old(self).tier,
    {
        self.score_milli = self.score_milli + gain_milli;
        let new_tier = self.score_milli / MILLI_PER_TIER;
        proof {
            lemma_tier_monotone(old(self).score_milli, self.score_milli);
        }
        if new_tier > self.tier {
            self.tier = new_tier;
            true
        } else {
            false
        }
    }
}

/// A larger score never maps to a smaller tier.
proof fn lemma_tier_monotone(a: u64, b: u64)
    requires
        a <= b,
    ensures
        tier_of(a) <= tier_of(b),
{
    assert(a as int / (MILLI_PER_TIER as int) <= b as int / (MILLI_PER_TIER as int))
        by (nonlinear_arith)
        requires a <= b;
}

/// The milli-point gain for one message of `len` characters, with the
/// configured chars-per-point constant and the damping divisor already in
/// milli-units (1000 means no damping). Rounds down.
pub fn message_gain_milli(len: usize, chars_for_level: u64, divisor_milli: u64) -> (r: u64)
    requires
        chars_for_level >= 1,
        divisor_milli >= MILLI_PER_POINT,
        len as int * 1000 <= u64::MAX as int,
    ensures
        r == gain_milli_spec(len as int, chars_for_level as int, divisor_milli as int),
        r <= len as int * 1000,
{
    proof {
        assert(chars_for_level as int * divisor_milli as int <= u128::MAX as int
            && chars_for_level as int * divisor_milli as int >= 1000) by (nonlinear_arith)
            requires 1 <= chars_for_level <= u64::MAX, 1000 <= divisor_milli <= u64::MAX;
    }
    let num: u128 = (len as u128) * 1_000_000;
    let den: u128 = (chars_for_level as u128) * (divisor_milli as u128);
    let q: u128 = num / den;
    proof {
        lemma_gain_bounded(len as int, chars_for_level as int, divisor_milli as int);
    }
    q as u64
}

/// The gain can never exceed a thousand milli-points per character, so it
/// fits comfortably in 64 bits whenever the length does.
proof fn lemma_gain_bounded(len: int, chars_for_level: int, divisor_milli: int)
    requires
        len >= 0,
        chars_for_level >= 1,
        divisor_milli >= 1000,
    ensures
        0 <= gain_milli_spec(len, chars_for_level, divisor_milli) <= len * 1000,
{
    assert(0 <= len * 1_000_000 / (chars_for_level * divisor_milli) <= len * 1000)
        by (nonlinear_arith)
        requires len >= 0, chars_for_level >= 1, divisor_milli >= 1000;
}

/// The total of a batch of per-message gains.
pub open spec fn sum_gains(gains: Seq<u64>) -> int
    decreases gains.len(),
{
    if gains.len() == 0 {
        0
    } else {
        sum_gains(gains.drop_last()) + gains.last()
    }
}

proof fn lemma_sum_gains_take(gains: Seq<u64>, i: int)
    requires
        0 <= i < gains.len(),
    ensures
        sum_gains(gains.take(i + 1)) == sum_gains(gains.take(i)) + gains[i],
{
    assert(gains.take(i + 1).drop_last() =~= gains.take(i));
    assert(gains.take(i + 1).last() == gains[i]);
}

/// How many of the gains, landing one after another on `start_milli`, cross
/// a tier boundary as they land.
pub open spec fn crossing_count(start_milli: int, gains: Seq<u64>) -> int
    decreases gains.len(),
{
    if gains.len() == 0 {
        0
    } else {
        let before = start_milli + sum_gains(gains.drop_last());
        let after = before + gains.last();
        crossing_count(start_milli, gains.drop_last()) + if after / (MILLI_PER_TIER as int)
            > before / (MILLI_PER_TIER as int) {
            1int
        } else {
            0int
        }
    }
}

proof fn lemma_crossing_count_take(start_milli: int, gains: Seq<u64>, i: int)
    requires
        0 <= i < gains.len(),
    ensures
        crossing_count(start_milli, gains.take(i + 1)) == crossing_count(
            start_milli,
            gains.take(i),
        ) + ({
            let before = start_milli + sum_gains(gains.take(i));
            let after = before + gains[i];
            if after / (MILLI_PER_TIER as int) > before / (MILLI_PER_TIER as int) {
                1int
            } else {
                0int
            }
        }),
{
    assert(gains.take(i + 1).drop_last() =~= gains.take(i));
    assert(gains.take(i + 1).last() == gains[i]);
}

impl UserProgress {
    /// Credit a whole batch of messages, each exactly once: the final score
    /// is the starting score plus the sum of the gains — no message is ever
    /// counted twice — the tier tracks the score throughout, and one tier-up
    /// is reported for exactly the messages that cross a boundary, at the
    /// crossing and nowhere else.
    pub fn apply_gains(&mut self, gains: &Vec<u64>) -> (tier_ups: usize)
        requires
            old(self).wf(),
            old(self).score_milli + sum_gains(gains@) <= u64::MAX,
        ensures
            final(self).wf(),
            final(self).user_id == old(self).user_id,
            final(self).score_milli == old(self).score_milli + sum_gains(gains@),
            final(self).tier == tier_of(final(self).score_milli),
            tier_ups == crossing_count(old(self).score_milli as int, gains@),
            tier_ups <= gains@.len(),
    {
        let ghost all = gains@;
        let mut i: usize = 0;
        let mut ups: usize = 0;
        proof {
            assert(all.take(0) =~= Seq::<u64>::empty());
        }
        while i < gains.len()
            invariant
                0 <= i <= gains@.len(),
                gains@ == all,
                ups <= i,
                self.wf(),
                self.user_id == old(self).user_id,
                self.score_milli == old(self).score_milli + sum_gains(all.take(i as int)),
                ups == crossing_count(old(self).score_milli as int, all.take(i as int)),
                old(self).score_milli + sum_gains(all) <= u64::MAX,
            decreases gains@.len() - i,
        {
            proof {
                lemma_sum_gains_take(all, i as int);
                lemma_sum_prefix_bounded(all, i as int + 1);
                lemma_crossing_count_take(old(self).score_milli as int, all, i as int);
            }
            let up = self.apply_gain(gains[i]);
            if up {
                ups = ups + 1;
            }
            i = i + 1;
        }
        proof {
            assert(all.take(gains@.len() as int) =~= all);
        }
        ups
    }
}

/// Every prefix sum is at most the whole sum.
proof fn lemma_sum_prefix_bounded(gains: Seq<u64>, i: int)
    requires
        0 <= i <= gains.len(),
    ensures
        sum_gains(gains.take(i)) <= sum_gains(gains),
    decreases gains.len() - i,
{
    if i < gains.len() {
        lemma_sum_gains_take(gains, i);
        lemma_sum_prefix_bounded(gains, i + 1);
    } else {
        assert(gains.take(i) =~= gains);
    }
}

} // verus!
