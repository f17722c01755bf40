use crate::util::utils::get_timestamp_millis;
use vstd::prelude::*;

verus! {

/// A key counts as exhausted once its remaining quota is at or below this.
pub const RATE_LIMIT_THRESHOLD: i64 = 1;

/// End of the quota window, in milliseconds: the moment of recording plus
/// the reset countdown.
pub open spec fn window_end(reset_seconds: int, observed_at: int) -> int {
    observed_at + reset_seconds * 1000
}

/// Whether a key whose last response reported `remaining` requests and
/// `reset_seconds` until reset, recorded at `observed_at`, is limited at `now`.
pub open spec fn limited(remaining: int, reset_seconds: int, observed_at: int, now: int) -> bool {
    &&& remaining <= RATE_LIMIT_THRESHOLD
    &&& reset_seconds > 0
    &&& window_end(reset_seconds, observed_at) > now
}

/// Whole seconds from `now` until the quota window ends; zero once it has.
pub open spec fn seconds_until_reset(reset_seconds: int, observed_at: int, now: int) -> int {
    if window_end(reset_seconds, observed_at) > now {
        (window_end(reset_seconds, observed_at) - now) / 1000
    } else {
        0
    }
}

/// What `seconds_until_reset` becomes in a signed 64-bit result: itself, or
/// the largest such number where it does not fit.
pub open spec fn capped_seconds_until_reset(reset_seconds: int, observed_at: int, now: int) -> int {
    if seconds_until_reset(reset_seconds, observed_at, now) <= i64::MAX {
        seconds_until_reset(reset_seconds, observed_at, now)
    } else {
        i64::MAX as int
    }
}

/// A key at or below the threshold with a positive countdown is limited at
/// every moment before its window ends. No key is limited once the window
/// has ended, and none whose countdown is zero.
pub proof fn lemma_limited_exactly_inside_window(
    remaining: int,
    reset_seconds: int,
    observed_at: int,
    now: int,
)
    ensures
        remaining <= RATE_LIMIT_THRESHOLD && reset_seconds > 0 && now < window_end(
            reset_seconds,
            observed_at,
        ) ==> limited(remaining, reset_seconds, observed_at, now),
        now >= window_end(reset_seconds, observed_at) ==> !limited(
            remaining,
            reset_seconds,
            observed_at,
            now,
        ),
        reset_seconds == 0 ==> !limited(remaining, reset_seconds, observed_at, now),
{
}

/// The time until reset is never negative and never grows as the clock
/// advances, capped or not.
pub proof fn lemma_seconds_until_reset_decreases(
    reset_seconds: int,
    observed_at: int,
    earlier: int,
    later: int,
)
    requires
        earlier <= later,
    ensures
        0 <= seconds_until_reset(reset_seconds, observed_at, later) <= seconds_until_reset(
            reset_seconds,
            observed_at,
            earlier,
        ),
        0 <= capped_seconds_until_reset(reset_seconds, observed_at, later)
            <= capped_seconds_until_reset(reset_seconds, observed_at, earlier),
{
}

/// The time until reset is zero from the window's end on, and before it
/// only within the last second of the window.
pub proof fn lemma_seconds_until_reset_zero_at_expiry(
    reset_seconds: int,
    observed_at: int,
    now: int,
)
    ensures
        now >= window_end(reset_seconds, observed_at) ==> seconds_until_reset(
            reset_seconds,
            observed_at,
            now,
        ) == 0,
        seconds_until_reset(reset_seconds, observed_at, now) == 0 <==> now + 1000 > window_end(
            reset_seconds,
            observed_at,
        ),
        capped_seconds_until_reset(reset_seconds, observed_at, now) == 0 <==> now + 1000
            > window_end(reset_seconds, observed_at),
{
}

/// An API key together with the quota state of the most recent response.
pub struct Key {
    key: String,
    remaining_limit: i64,
    time_till_reset: i64,
    time: i64,
}

impl Key {
    /// The secret that identifies the caller to the API.
    pub closed spec fn secret(&self) -> Seq<char> {
        self.key@
    }

    /// Requests left in the current window, as last reported.
    pub closed spec fn remaining(&self) -> int {
        self.remaining_limit as int
    }

    /// Seconds until the quota resets, as last reported.
    pub closed spec fn reset_seconds(&self) -> int {
        self.time_till_reset as int
    }

    /// The moment, in milliseconds, at which the quota state was last written.
    pub closed spec fn observed_at(&self) -> int {
        self.time as int
    }

    pub open spec fn limited_at(&self, now: int) -> bool {
        limited(self.remaining(), self.reset_seconds(), self.observed_at(), now)
    }

    pub open spec fn seconds_until_reset_at(&self, now: int) -> int {
        seconds_until_reset(self.reset_seconds(), self.observed_at(), now)
    }

    /// A key of which no response has been seen yet.
    pub fn new(key: String) -> (r: Key)
        ensures
            r.secret() == key@,
            r.remaining() == 0,
            r.reset_seconds() == 0,
            r.observed_at() == 0,
    {
        Key { key, remaining_limit: 0, time_till_reset: 0, time: 0 }
    }

    /// The secret, to be sent along with a request.
    pub fn secret_text(&self) -> (r: &String)
        ensures
            r@ == self.secret(),
    {
        &self.key
    }

    /// Stores the remaining quota of a response received at `now`.
    pub fn record_remaining_limit(&mut self, remaining_limit: i64, now: i64)
        ensures
            final(self).secret() == old(self).secret(),
            final(self).remaining() == remaining_limit,
            final(self).reset_seconds() == old(self).reset_seconds(),
            final(self).observed_at() == now,
    {
        self.remaining_limit = remaining_limit;
        self.time = now;
    }

    /// Stores the reset countdown of a response received at `now`.
    pub fn record_time_till_reset(&mut self, time_till_reset: i64, now: i64)
        ensures
            final(self).secret() == old(self).secret(),
            final(self).remaining() == old(self).remaining(),
            final(self).reset_seconds() == time_till_reset,
            final(self).observed_at() == now,
    {
        self.time_till_reset = time_till_reset;
        self.time = now;
    }

    /// Whether a request at `now` would run into the exhausted quota.
    pub fn is_rate_limited_at(&self, now: i64) -> (r: bool)
        ensures
            r == self.limited_at(now as int),
    {
        self.remaining_limit <= RATE_LIMIT_THRESHOLD && self.time_till_reset > 0
            && (self.time as i128) + (self.time_till_reset as i128) * 1000 > (now as i128)
    }

    /// Whole seconds from `now` until the quota resets, capped at `i64::MAX`.
    pub fn get_time_till_reset_at(&self, now: i64) -> (r: i64)
        ensures
            r == self.capped_seconds_until_reset_at(now as int),
    {
        let end: i128 = (self.time as i128) + (self.time_till_reset as i128) * 1000;
        let left: i128 = end - (now as i128);
        if left <= 0 {
            0
        } else {
            let seconds: i128 = left / 1000;
            if seconds > i64::MAX as i128 {
                i64::MAX
            } else {
                seconds as i64
            }
        }
    }

    /// Stores the remaining quota, stamped with the system clock.
    pub fn update_remaining_limit(&mut self, remaining_limit: i64)
        ensures
            final(self).secret() == old(self).secret(),
            final(self).remaining() == remaining_limit,
            final(self).reset_seconds() == old(self).reset_seconds(),
    {
        let now = get_timestamp_millis();
        self.record_remaining_limit(remaining_limit, now);
    }

    /// Stores the reset countdown, stamped with the system clock.
    pub fn update_time_till_reset(&mut self, time_till_reset: i64)
        ensures
            final(self).secret() == old(self).secret(),
            final(self).remaining() == old(self).remaining(),
            final(self).reset_seconds() == time_till_reset,
    {
        let now = get_timestamp_millis();
        self.record_time_till_reset(time_till_reset, now);
    }

    /// Whether the key is limited at the moment the system clock shows.
    pub fn is_rate_limited(&self) -> (r: bool)
        ensures
            exists|now: i64| r == self.limited_at(now as int),
    {
        let now = get_timestamp_millis();
        let r = self.is_rate_limited_at(now);
        assert(r == self.limited_at(now as int));
        r
    }

    /// Seconds until reset at the moment the system clock shows.
    pub fn get_time_till_reset(&self) -> (r: i64)
        ensures
            exists|now: i64| r == self.capped_seconds_until_reset_at(now as int),
    {
        let now = get_timestamp_millis();
        let r = self.get_time_till_reset_at(now);
        assert(r == self.capped_seconds_until_reset_at(now as int));
        r
    }

    pub open spec fn capped_seconds_until_reset_at(&self, now: int) -> int {
        capped_seconds_until_reset(self.reset_seconds(), self.observed_at(), now)
    }
}

} // verus!
