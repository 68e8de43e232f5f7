//! Move selection for the automated player.
//!
//! The easy strategy maps one draw from the caller's random source into the
//! legal range `[1, cap]`. The hard strategy plays the closed-form optimal
//! move of the subtraction game: leave the opponent on a pile congruent to 1
//! modulo `cap + 1`. From a cold position — one where no legal move reaches
//! such a pile — the raw formula yields 0, and the applied move falls back to
//! removing a single pebble.

use vstd::prelude::*;
use vstd::arithmetic::div_mod::{
    lemma_fundamental_div_mod, lemma_mod_decreases, lemma_mod_division_less_than_divisor,
    lemma_mod_multiples_vanish, lemma_small_mod,
};

verus! {

/// The easy move: a raw 32-bit draw mapped into `[1, max_per_turn]`.
pub open spec fn spec_choose_easy(max_per_turn: int, rand: int) -> int {
    rand % max_per_turn + 1
}

/// The raw closed-form hard move: the distance from `remaining` down to the
/// largest value not above it that is congruent to 1 modulo
/// `max_per_turn + 1`. From a cold position this is 0.
pub open spec fn spec_winning_strategy(remaining: int, max_per_turn: int) -> int {
    (remaining - 1) % (max_per_turn + 1)
}

/// The hard move as applied: the raw closed-form move, or one pebble from a
/// cold position.
pub open spec fn spec_choose_hard(remaining: int, max_per_turn: int) -> int {
    if spec_winning_strategy(remaining, max_per_turn) == 0 {
        1
    } else {
        spec_winning_strategy(remaining, max_per_turn)
    }
}

/// Removing `v` pebbles from a pile of `remaining` lands the opponent on a
/// losing position: the pile left behind is congruent to 1 modulo
/// `max_per_turn + 1`.
pub open spec fn leaves_losing_position(remaining: int, max_per_turn: int, v: int) -> bool {
    (remaining - v - 1) % (max_per_turn + 1) == 0
}

/// The easy move: one uniformly drawn integer mapped into the legal range.
pub fn choose_easy(max_per_turn: u32, rand: u32) -> (r: u32)
    requires
        1 <= max_per_turn,
    ensures
        r == spec_choose_easy(max_per_turn as int, rand as int),
        1 <= r <= max_per_turn,
{
    proof {
        lemma_mod_division_less_than_divisor(rand as int, max_per_turn as int);
    }
    rand % max_per_turn + 1
}

/// The raw hard move, as the closed-form formula gives it: with
/// `m = max_pebbles_per_turn + 1`, step down to the largest
/// `target <= pebbles_remaining` congruent to 1 modulo `m` and return
/// `pebbles_remaining - target`. From a cold position this is 0, which is not
/// itself a legal move; `choose_hard` applies the fallback.
pub fn winning_strategy(pebbles_remaining: u32, max_pebbles_per_turn: u32) -> (r: u32)
    requires
        1 <= pebbles_remaining,
        1 <= max_pebbles_per_turn,
    ensures
        r == spec_winning_strategy(pebbles_remaining as int, max_pebbles_per_turn as int),
        r <= max_pebbles_per_turn,
        r < pebbles_remaining,
{
    let m: u64 = max_pebbles_per_turn as u64 + 1;
    let a: u64 = pebbles_remaining as u64 - 1;
    proof {
        lemma_mod_division_less_than_divisor(a as int, m as int);
        lemma_mod_decreases(a as nat, m as nat);
    }
    (a % m) as u32
}

/// The hard move actually applied: the raw closed-form move, clamped into the
/// legal range by the one-pebble fallback from a cold position.
pub fn choose_hard(pebbles_remaining: u32, max_pebbles_per_turn: u32) -> (r: u32)
    requires
        1 <= pebbles_remaining,
        1 <= max_pebbles_per_turn,
    ensures
        r == spec_choose_hard(pebbles_remaining as int, max_pebbles_per_turn as int),
        1 <= r <= max_pebbles_per_turn,
        r <= pebbles_remaining,
{
    let raw: u32 = winning_strategy(pebbles_remaining, max_pebbles_per_turn);
    if raw == 0 {
        1
    } else {
        raw
    }
}

/// Hard-strategy optimality: the applied hard move is always legal — at least
/// one pebble, at most the cap, never more than the pile — and whenever any
/// legal move lands the opponent on a losing position, the chosen move does.
pub proof fn lemma_hard_strategy_optimal(remaining: int, max_per_turn: int)
    requires
        1 <= remaining,
        1 <= max_per_turn,
    ensures
        1 <= spec_choose_hard(remaining, max_per_turn) <= max_per_turn,
        spec_choose_hard(remaining, max_per_turn) <= remaining,
        (exists|v: int|
            1 <= v <= max_per_turn && #[trigger] leaves_losing_position(remaining, max_per_turn, v))
            ==> leaves_losing_position(
                remaining,
                max_per_turn,
                spec_choose_hard(remaining, max_per_turn),
            ),
{
    let m: int = max_per_turn + 1;
    let a: int = remaining - 1;
    lemma_fundamental_div_mod(a, m);
    lemma_mod_division_less_than_divisor(a, m);
    let raw: int = a % m;
    if raw != 0 {
        // remaining - raw - 1 == m * (a / m), a multiple of m
        lemma_mod_multiples_vanish(a / m, 0, m);
        lemma_small_mod(0, m as nat);
        assert(leaves_losing_position(remaining, max_per_turn, raw));
    } else {
        // Cold position: the pile is itself congruent to 1 modulo m, so no
        // removal of 1..=max_per_turn pebbles reaches another such pile.
        assert forall|v: int| 1 <= v <= max_per_turn implies !leaves_losing_position(
            remaining,
            max_per_turn,
            v,
        ) by {
            // remaining - v - 1 == m * (a / m) - v, and -v is congruent to
            // m - v, which lies strictly between 0 and m.
            lemma_mod_multiples_vanish(a / m, -v, m);
            lemma_mod_multiples_vanish(-1, m - v, m);
            lemma_small_mod((m - v) as nat, m as nat);
        }
    }
}

} // verus!
