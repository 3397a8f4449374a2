//! Properties of the backoff state machine that span several calls.
//!
//! Each successful `Backoff::next_backoff` moves the view from `s` to
//! `s.advanced()`; a refused one leaves it as it was. `advanced_by` runs the
//! successful step `n` times, which is what `n` accepted calls in a row do
//! whatever random values they are given.

use vstd::prelude::*;

use crate::backoff::{BackoffState, RETRY_FOREVER};
use vstd::arithmetic::div_mod::{lemma_mod_multiples_vanish, lemma_small_mod};

verus! {

/// The state after `n` successful calls in a row.
pub open spec fn advanced_by(s: BackoffState, n: nat) -> BackoffState
    decreases n,
{
    if n == 0 {
        s
    } else {
        advanced_by(s, (n - 1) as nat).advanced()
    }
}

/// The jitter range is inclusive: every delay lies in `0..=next_jitter_max`,
/// and each value of that range, the maximum itself included, is the delay
/// handed out for some random value (the value itself).
pub proof fn jitter_range_is_inclusive(s: BackoffState, random: u32, d: u32)
    requires
        d <= s.next_jitter_max,
    ensures
        0 <= s.jitter(random) <= s.next_jitter_max,
        s.jitter(d) == d,
        s.jitter(s.next_jitter_max as u32) == s.next_jitter_max,
{
    lemma_small_mod(d as nat, s.next_jitter_max as nat + 1);
    lemma_small_mod(s.next_jitter_max as nat, s.next_jitter_max as nat + 1);
}

/// A successful call moves neither the ceiling nor the attempt limit, and
/// leaves the jitter maximum at or below the ceiling.
pub proof fn advance_keeps_the_limits(s: BackoffState)
    ensures
        s.advanced().max_backoff_delay == s.max_backoff_delay,
        s.advanced().max_retry_attempts == s.max_retry_attempts,
        s.advanced().next_jitter_max <= s.max_backoff_delay,
{
}

/// The doubling test uses integer division: the jitter maximum doubles
/// exactly when it is below `max_backoff_delay / 2` rounded down, and
/// otherwise becomes the ceiling itself, not twice the old value.
pub proof fn doubling_uses_integer_division(s: BackoffState)
    ensures
        s.next_jitter_max < s.max_backoff_delay / 2 ==> s.advanced().next_jitter_max == 2
            * s.next_jitter_max,
        s.next_jitter_max >= s.max_backoff_delay / 2 ==> s.advanced().next_jitter_max
            == s.max_backoff_delay,
{
}

/// While the jitter maximum is at or below the ceiling it never decreases,
/// and once it has reached the ceiling it stays there.
pub proof fn jitter_max_climbs_to_the_ceiling(s: BackoffState)
    requires
        s.next_jitter_max <= s.max_backoff_delay,
    ensures
        s.next_jitter_max <= s.advanced().next_jitter_max <= s.max_backoff_delay,
        s.next_jitter_max == s.max_backoff_delay ==> s.advanced().next_jitter_max
            == s.max_backoff_delay,
{
}

/// After any number of successful calls the ceiling and the attempt limit are
/// those the context was made with.
pub proof fn limits_never_change(s: BackoffState, n: nat)
    ensures
        advanced_by(s, n).max_backoff_delay == s.max_backoff_delay,
        advanced_by(s, n).max_retry_attempts == s.max_retry_attempts,
    decreases n,
{
    if n > 0 {
        limits_never_change(s, (n - 1) as nat);
    }
}

/// A context made with [`RETRY_FOREVER`] is never exhausted, however many
/// calls it has answered.
pub proof fn retry_forever_never_exhausts(base: u16, max: u16, n: nat)
    ensures
        !advanced_by(BackoffState::initial(base, max, RETRY_FOREVER), n).exhausted(),
{
    limits_never_change(BackoffState::initial(base, max, RETRY_FOREVER), n);
}

/// Each successful call counts one attempt: after `n` of them, with `n` at
/// most `u32::MAX`, a fresh context has done exactly `n` attempts.
pub proof fn attempts_count_successes(base: u16, max: u16, attempts: u32, n: nat)
    requires
        n <= u32::MAX,
    ensures
        advanced_by(BackoffState::initial(base, max, attempts), n).attempts_done == n,
    decreases n,
{
    if n > 0 {
        attempts_count_successes(base, max, attempts, (n - 1) as nat);
    }
}

/// A fresh context with a limit other than [`RETRY_FOREVER`] accepts exactly
/// `attempts` calls: it is not exhausted after fewer successes, and it is
/// exhausted after that many.
pub proof fn exactly_attempts_calls_succeed(base: u16, max: u16, attempts: u32, n: nat)
    requires
        attempts != RETRY_FOREVER,
        n <= attempts,
    ensures
        advanced_by(BackoffState::initial(base, max, attempts), n).exhausted() <==> n
            == attempts,
{
    attempts_count_successes(base, max, attempts, n);
    limits_never_change(BackoffState::initial(base, max, attempts), n);
}


/// A fresh context holds exactly what it was made with: the first jitter
/// maximum is `base`, the ceiling is `max`, the limit is `attempts`, and no
/// attempt is done yet.
pub proof fn a_fresh_context_holds_its_parameters(base: u16, max: u16, attempts: u32)
    ensures
        BackoffState::initial(base, max, attempts).next_jitter_max == base,
        BackoffState::initial(base, max, attempts).max_backoff_delay == max,
        BackoffState::initial(base, max, attempts).max_retry_attempts == attempts,
        BackoffState::initial(base, max, attempts).attempts_done == 0,
        BackoffState::initial(base, max, attempts).jitter(base as u32) == base,
{
    lemma_small_mod(base as nat, base as nat + 1);
}

/// The delay is the whole random value reduced modulo the inclusive span
/// `next_jitter_max + 1`: random values that differ by a multiple of the span
/// give the same delay, and within one span the delay is the value itself.
/// Together these fix the delay for every `u32`, high bits included.
pub proof fn jitter_is_random_modulo_the_span(s: BackoffState, random: u32, k: nat)
    requires
        random as int + k * (s.next_jitter_max as int + 1) <= u32::MAX,
    ensures
        s.jitter(random) == random as int % (s.next_jitter_max as int + 1),
        s.jitter((random as int + k * (s.next_jitter_max as int + 1)) as u32) == s.jitter(random),
        random <= s.next_jitter_max ==> s.jitter(random) == random,
        s.jitter(random) + (s.next_jitter_max as int + 1) * (random as int / (
        s.next_jitter_max as int + 1)) == random,
{
    let m = s.next_jitter_max as int + 1;
    lemma_mod_multiples_vanish(k as int, random as int, m);
    assert(m * k + random == random + k * m) by (nonlinear_arith);
    if random <= s.next_jitter_max {
        lemma_small_mod(random as nat, m as nat);
    }
    vstd::arithmetic::div_mod::lemma_fundamental_div_mod(random as int, m);
}

/// Whether a context is exhausted depends only on its counts: it is when a
/// finite limit (anything but `u32::MAX`) has been reached.
pub proof fn exhausted_means_the_limit_is_reached(s: BackoffState)
    ensures
        RETRY_FOREVER == u32::MAX,
        s.exhausted() <==> (s.max_retry_attempts != u32::MAX && s.attempts_done
            >= s.max_retry_attempts),
{
}

/// A successful call counts exactly one more attempt, saturating at
/// `u32::MAX`, and its resulting state does not depend on the random value.
pub proof fn a_success_counts_one_attempt(s: BackoffState)
    ensures
        s.attempts_done < u32::MAX ==> s.advanced().attempts_done == s.attempts_done + 1,
        s.attempts_done == u32::MAX ==> s.advanced().attempts_done == u32::MAX,
{
}

} // verus!
