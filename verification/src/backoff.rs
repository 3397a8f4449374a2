//! The backoff context and its one operation.

use vstd::prelude::*;

use rusty_rtos_core::error::Error;

verus! {

/// Retry without limit: a context made with this many attempts never
/// exhausts.
pub const RETRY_FOREVER: u32 = u32::MAX;

/// The mathematical view of a [`Backoff`] context: its four fields, at their
/// own widths, since the widths decide where the arithmetic saturates.
pub struct BackoffState {
    /// The top of the (inclusive) range the next delay is drawn from.
    pub next_jitter_max: u16,
    /// The ceiling the jitter maximum climbs to.
    pub max_backoff_delay: u16,
    /// How many delays have been handed out.
    pub attempts_done: u32,
    /// How many delays may be handed out, or [`RETRY_FOREVER`].
    pub max_retry_attempts: u32,
}

impl BackoffState {
    /// The state that `Backoff::new(base, max, attempts)` starts in.
    pub open spec fn initial(base: u16, max: u16, attempts: u32) -> BackoffState {
        BackoffState {
            next_jitter_max: base,
            max_backoff_delay: max,
            attempts_done: 0,
            max_retry_attempts: attempts,
        }
    }

    /// Whether the next call is refused: the attempts are used up and the
    /// context was not made to retry forever.
    pub open spec fn exhausted(self) -> bool {
        self.max_retry_attempts != RETRY_FOREVER && self.attempts_done >= self.max_retry_attempts
    }

    /// The delay handed out for `random`: drawn from `0..=next_jitter_max`,
    /// the maximum itself included.
    pub open spec fn jitter(self, random: u32) -> int {
        random as int % (self.next_jitter_max as int + 1)
    }

    /// The jitter maximum after a successful call: doubled while it is below
    /// half the ceiling (by integer division), else the ceiling exactly.
    pub open spec fn next_jitter_max_after(self) -> u16 {
        if (self.next_jitter_max as int) < (self.max_backoff_delay as int) / 2 {
            (2 * self.next_jitter_max) as u16
        } else {
            self.max_backoff_delay
        }
    }

    /// The attempt count after a successful call: one more, saturating at
    /// `u32::MAX`.
    pub open spec fn attempts_done_after(self) -> u32 {
        if self.attempts_done == u32::MAX {
            self.attempts_done
        } else {
            (self.attempts_done + 1) as u32
        }
    }

    /// The state after a successful call. It does not depend on the random
    /// value.
    pub open spec fn advanced(self) -> BackoffState {
        BackoffState {
            next_jitter_max: self.next_jitter_max_after(),
            max_backoff_delay: self.max_backoff_delay,
            attempts_done: self.attempts_done_after(),
            max_retry_attempts: self.max_retry_attempts,
        }
    }
}

/// A backoff context: where the jitter maximum stands, where it may climb to,
/// and how many attempts are done and allowed.
#[derive(Debug, Clone, Copy, PartialEq, Eq, Structural)]
pub struct Backoff {
    next_jitter_max: u16,
    max_backoff_delay: u16,
    attempts_done: u32,
    max_retry_attempts: u32,
}

impl View for Backoff {
    type V = BackoffState;

    closed spec fn view(&self) -> BackoffState {
        BackoffState {
            next_jitter_max: self.next_jitter_max,
            max_backoff_delay: self.max_backoff_delay,
            attempts_done: self.attempts_done,
            max_retry_attempts: self.max_retry_attempts,
        }
    }
}

impl Backoff {
    /// A fresh context: `base` is the first jitter maximum, `max` the ceiling
    /// it climbs to, and `attempts` how many delays are handed out before
    /// exhaustion, or [`RETRY_FOREVER`].
    pub fn new(base: u16, max: u16, attempts: u32) -> (b: Self)
        ensures
            b@ == BackoffState::initial(base, max, attempts),
            b@.next_jitter_max == base,
            b@.max_backoff_delay == max,
            b@.attempts_done == 0,
            b@.max_retry_attempts == attempts,
    {
        Backoff {
            next_jitter_max: base,
            max_backoff_delay: max,
            attempts_done: 0,
            max_retry_attempts: attempts,
        }
    }

    /// The next delay, drawn with the caller's `random` value.
    ///
    /// When the attempts are used up the answer is `Err(Error::Timeout)` and
    /// the context is left untouched, so asking again answers the same way.
    /// Otherwise the delay is `random % (next_jitter_max + 1)`, the attempt
    /// count moves by one and the jitter maximum doubles or clamps to the
    /// ceiling.
    pub fn next_backoff(&mut self, random: u32) -> (r: Result<u16, Error>)
        ensures
            r is Ok <==> !old(self)@.exhausted(),
            old(self)@.exhausted() ==> r == Err::<u16, Error>(Error::Timeout) && final(self)@
                == old(self)@,
            r matches Ok(delay) ==> delay as int == old(self)@.jitter(random) && final(self)@
                == old(self)@.advanced(),
            r matches Ok(delay) ==> delay as int == random as int % (old(
                self,
            )@.next_jitter_max as int + 1),
    {
        if self.max_retry_attempts != RETRY_FOREVER && self.attempts_done
            >= self.max_retry_attempts {
            return Err(Error::Timeout);
        }
        let span: u32 = u32::from(self.next_jitter_max).saturating_add(1);
        let delay: u32 = random.checked_rem(span).unwrap_or(0);

        self.attempts_done = self.attempts_done.saturating_add(1);

        if self.next_jitter_max < self.max_backoff_delay / 2 {
            self.next_jitter_max = self.next_jitter_max * 2;
        } else {
            self.next_jitter_max = self.max_backoff_delay;
        }

        match u16::try_from(delay) {
            Ok(d) => Ok(d),
            Err(_) => Ok(u16::MAX),
        }
    }

    /// How many delays have been handed out.
    pub fn attempts_done(&self) -> (r: u32)
        ensures
            r == self@.attempts_done,
    {
        self.attempts_done
    }

    /// The top of the range the next delay will be drawn from.
    pub fn next_jitter_max(&self) -> (r: u16)
        ensures
            r == self@.next_jitter_max,
    {
        self.next_jitter_max
    }

    /// The ceiling the jitter maximum climbs to.
    pub fn max_backoff_delay(&self) -> (r: u16)
        ensures
            r == self@.max_backoff_delay,
    {
        self.max_backoff_delay
    }

    /// How many delays may be handed out, or [`RETRY_FOREVER`].
    pub fn max_retry_attempts(&self) -> (r: u32)
        ensures
            r == self@.max_retry_attempts,
    {
        self.max_retry_attempts
    }

    /// Whether the next call would be refused.
    pub fn exhausted(&self) -> (r: bool)
        ensures
            r == self@.exhausted(),
    {
        self.max_retry_attempts != RETRY_FOREVER && self.attempts_done >= self.max_retry_attempts
    }
}

} // verus!
