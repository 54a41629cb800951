//! The token-bucket state machine and its time-based refill rule.

use vstd::prelude::*;

verus! {

/// Nanotokens per token: rates are measured in billionths of a token per
/// second, so a rate of one hundred tokens per second is written as one
/// hundred times this constant.
pub const NANOS_PER_SECOND: u64 = 1_000_000_000;

/// A token-bucket rate limiter.
///
/// The bucket holds at most `floor(rate)` whole tokens, where `rate` is the
/// configured number of tokens granted per second. Each granted access
/// consumes one token; elapsed time refills the bucket at the configured
/// rate, truncated to whole tokens at each query.
pub struct RateLimiter {
    /// Tokens granted per second, in nanotokens (billionths of a token).
    rate_nanos: u64,
    /// Whole tokens currently in the bucket.
    accesses_left: u64,
    /// When the bucket was last refilled.
    previous_access_time: std::time::Instant,
}

/// The burst ceiling of a bucket with the given rate: the integer part of the
/// rate in tokens per second.
pub open spec fn capacity_of(rate_nanos: u64) -> int {
    rate_nanos as int / NANOS_PER_SECOND as int
}

/// Whole tokens accrued by `elapsed_nanos` nanoseconds of idleness at the
/// given rate, the fractional remainder truncated away. The divisor is one
/// quintillion, a second's worth of nanoseconds times a token's worth of
/// nanotokens.
pub open spec fn accrued_tokens(rate_nanos: u64, elapsed_nanos: u64) -> int {
    (rate_nanos as int * elapsed_nanos as int) / 1_000_000_000_000_000_000
}

/// The bucket's balance after refilling `tokens` by `elapsed_nanos`
/// nanoseconds of accrual, clamped to the burst ceiling.
pub open spec fn refilled_tokens(rate_nanos: u64, tokens: int, elapsed_nanos: u64) -> int {
    let filled = tokens + accrued_tokens(rate_nanos, elapsed_nanos);
    if filled > capacity_of(rate_nanos) {
        capacity_of(rate_nanos)
    } else {
        filled
    }
}

/// Whether a query made `elapsed_nanos` nanoseconds after the previous one,
/// on a bucket holding `tokens`, is granted.
pub open spec fn query_granted(rate_nanos: u64, tokens: int, elapsed_nanos: u64) -> bool {
    refilled_tokens(rate_nanos, tokens, elapsed_nanos) > 0
}

/// The bucket's balance after such a query: the refilled balance, less the
/// one token a grant consumes.
pub open spec fn tokens_after_query(rate_nanos: u64, tokens: int, elapsed_nanos: u64) -> int {
    if query_granted(rate_nanos, tokens, elapsed_nanos) {
        refilled_tokens(rate_nanos, tokens, elapsed_nanos) - 1
    } else {
        refilled_tokens(rate_nanos, tokens, elapsed_nanos)
    }
}

/// The full outcome of one query: the balance it leaves and the decision it
/// returns.
pub open spec fn query_outcome(rate_nanos: u64, tokens: int, elapsed_nanos: u64) -> (int, bool) {
    (
        tokens_after_query(rate_nanos, tokens, elapsed_nanos),
        query_granted(rate_nanos, tokens, elapsed_nanos),
    )
}

impl RateLimiter {
    /// The configured rate, in nanotokens per second.
    pub closed spec fn rate(self) -> u64 {
        self.rate_nanos
    }

    /// The bucket's current balance, in whole tokens.
    pub closed spec fn tokens(self) -> u64 {
        self.accesses_left
    }

    /// The limiter's invariant: the rate is positive and the balance never
    /// exceeds the burst ceiling.
    pub open spec fn well_formed(self) -> bool {
        0 < self.rate() && self.tokens() <= capacity_of(self.rate())
    }

    /// Creates a limiter that grants `rate_nanos` nanotokens per second, with
    /// a full bucket and the current instant as its refill baseline.
    pub fn new(rate_nanos: u64) -> (limiter: RateLimiter)
        requires
            0 < rate_nanos,
        ensures
            limiter.well_formed(),
            limiter.rate() == rate_nanos,
            limiter.tokens() == capacity_of(rate_nanos),
    {
        RateLimiter {
            rate_nanos,
            accesses_left: rate_nanos / NANOS_PER_SECOND,
            previous_access_time: std::time::Instant::now(),
        }
    }

    /// Refills the bucket for `elapsed_nanos` nanoseconds of elapsed time,
    /// clamps it to the burst ceiling, and grants one access if a token is
    /// left, consuming it.
    ///
    /// This is the whole decision procedure; [`Self::has_access`] merely reads
    /// the elapsed time off the monotonic clock before calling it.
    pub fn has_access_after_nanos(&mut self, elapsed_nanos: u64) -> (granted: bool)
        requires
            old(self).well_formed(),
        ensures
            final(self).well_formed(),
            final(self).rate() == old(self).rate(),
            granted == query_granted(old(self).rate(), old(self).tokens() as int, elapsed_nanos),
            final(self).tokens()
                == tokens_after_query(old(self).rate(), old(self).tokens() as int, elapsed_nanos),
    {
        let capacity: u64 = self.rate_nanos / NANOS_PER_SECOND;
        let divisor: u128 = 1_000_000_000_000_000_000;
        proof {
            vstd::arithmetic::mul::lemma_mul_upper_bound(
                self.rate_nanos as int,
                u64::MAX as int,
                elapsed_nanos as int,
                u64::MAX as int,
            );
        }
        let accrued: u128 = (self.rate_nanos as u128) * (elapsed_nanos as u128) / divisor;
        let filled: u128 = (self.accesses_left as u128) + accrued;
        self.accesses_left = if filled > (capacity as u128) {
            capacity
        } else {
            filled as u64
        };
        if self.accesses_left > 0 {
            self.accesses_left = self.accesses_left - 1;
            true
        } else {
            false
        }
    }

    /// Grants or denies one access, refilling the bucket by the time the
    /// monotonic clock says has passed since the previous query.
    ///
    /// How much time that is depends on the clock, so the contract promises
    /// the outcome of one query for *some* elapsed time; every guarantee that
    /// does not depend on the clock (the burst ceiling, the invariant, denial
    /// on an empty bucket at zero elapsed time) follows from the contract of
    /// [`Self::has_access_after_nanos`], which this function calls.
    pub fn has_access(&mut self) -> (granted: bool)
        requires
            old(self).well_formed(),
        ensures
            final(self).well_formed(),
            final(self).rate() == old(self).rate(),
            exists|elapsed: u64|
                (#[trigger] query_outcome(old(self).rate(), old(self).tokens() as int, elapsed))
                    == (final(self).tokens() as int, granted),
    {
        let now = std::time::Instant::now();
        let elapsed_duration = now.saturating_duration_since(self.previous_access_time);
        let elapsed_wide: u128 = elapsed_duration.as_nanos();
        let elapsed: u64 = if elapsed_wide > (u64::MAX as u128) {
            u64::MAX
        } else {
            elapsed_wide as u64
        };
        self.previous_access_time = now;
        let granted = self.has_access_after_nanos(elapsed);
        proof {
            assert(query_outcome(old(self).rate(), old(self).tokens() as int, elapsed)
                == (self.tokens() as int, granted));
        }
        granted
    }

    /// The number of accesses that would be granted back-to-back right now,
    /// before any further refill.
    pub fn tokens_available(&self) -> (tokens: u64)
        ensures
            tokens == self.tokens(),
            self.well_formed() ==> tokens <= capacity_of(self.rate()),
    {
        self.accesses_left
    }

    /// The burst ceiling: the most tokens the bucket ever holds, and so the
    /// most accesses ever granted back-to-back.
    pub fn capacity(&self) -> (capacity: u64)
        requires
            self.well_formed(),
        ensures
            capacity == capacity_of(self.rate()),
    {
        self.rate_nanos / NANOS_PER_SECOND
    }
}

/// The bucket's balance after `n` further queries made with no time elapsed
/// between them.
pub open spec fn tokens_after_immediate_queries(rate_nanos: u64, tokens: int, n: nat) -> int
    decreases n,
{
    if n == 0 {
        tokens
    } else {
        tokens_after_query(
            rate_nanos,
            tokens_after_immediate_queries(rate_nanos, tokens, (n - 1) as nat),
            0,
        )
    }
}

/// The bucket's balance after one query per entry of `delays`, each made the
/// corresponding number of nanoseconds after the one before it.
pub open spec fn tokens_after_queries(rate_nanos: u64, tokens: int, delays: Seq<u64>) -> int
    decreases delays.len(),
{
    if delays.len() == 0 {
        tokens
    } else {
        tokens_after_query(
            rate_nanos,
            tokens_after_queries(rate_nanos, tokens, delays.drop_last()),
            delays.last(),
        )
    }
}

/// Accrual is never negative: idleness only adds tokens.
proof fn lemma_accrued_nonnegative(rate_nanos: u64, elapsed_nanos: u64)
    ensures
        0 <= accrued_tokens(rate_nanos, elapsed_nanos),
{
    assert(0 <= rate_nanos as int * elapsed_nanos as int) by (nonlinear_arith);
}

/// With no time elapsed, nothing accrues: a query on a bucket holding
/// `tokens` grants exactly when `tokens` is positive, and consumes one token
/// when it does.
pub proof fn lemma_immediate_query(rate_nanos: u64, tokens: int)
    requires
        0 < rate_nanos,
        0 <= tokens <= capacity_of(rate_nanos),
    ensures
        query_granted(rate_nanos, tokens, 0) == (tokens > 0),
        tokens_after_query(rate_nanos, tokens, 0) == if tokens > 0 {
            tokens - 1
        } else {
            0int
        },
{
    assert(accrued_tokens(rate_nanos, 0) == 0);
}

/// One query never leaves the bucket negative nor above the burst ceiling,
/// whatever time has elapsed.
pub proof fn lemma_query_bounds(rate_nanos: u64, tokens: int, elapsed_nanos: u64)
    requires
        0 < rate_nanos,
        0 <= tokens,
    ensures
        0 <= tokens_after_query(rate_nanos, tokens, elapsed_nanos),
        tokens_after_query(rate_nanos, tokens, elapsed_nanos) <= capacity_of(rate_nanos),
{
    lemma_accrued_nonnegative(rate_nanos, elapsed_nanos);
}

/// Immediate queries drain the bucket one token at a time until it is empty,
/// and then leave it empty.
pub proof fn lemma_immediate_queries_drain(rate_nanos: u64, tokens: int, n: nat)
    requires
        0 < rate_nanos,
        0 <= tokens <= capacity_of(rate_nanos),
    ensures
        tokens_after_immediate_queries(rate_nanos, tokens, n) == if n <= tokens {
            tokens - n
        } else {
            0int
        },
    decreases n,
{
    if n > 0 {
        lemma_immediate_queries_drain(rate_nanos, tokens, (n - 1) as nat);
        lemma_immediate_query(
            rate_nanos,
            tokens_after_immediate_queries(rate_nanos, tokens, (n - 1) as nat),
        );
    }
}

/// Burst admission: starting from a full bucket, the first `floor(rate)`
/// queries with no elapsed time are all granted, and every query after them
/// is denied until time passes.
pub proof fn lemma_burst_admission(rate_nanos: u64, n: nat)
    requires
        0 < rate_nanos,
    ensures
        n < capacity_of(rate_nanos) ==> query_granted(
            rate_nanos,
            tokens_after_immediate_queries(rate_nanos, capacity_of(rate_nanos), n),
            0,
        ),
        n >= capacity_of(rate_nanos) ==> !query_granted(
            rate_nanos,
            tokens_after_immediate_queries(rate_nanos, capacity_of(rate_nanos), n),
            0,
        ),
{
    let capacity = capacity_of(rate_nanos);
    lemma_immediate_queries_drain(rate_nanos, capacity, n);
    lemma_immediate_query(rate_nanos, tokens_after_immediate_queries(rate_nanos, capacity, n));
}

/// Idempotence of denial: once the bucket is empty, queries with no elapsed
/// time keep the bucket empty and keep being denied; zero-duration deltas
/// accrue nothing.
pub proof fn lemma_denial_idempotent(rate_nanos: u64, n: nat)
    requires
        0 < rate_nanos,
    ensures
        tokens_after_immediate_queries(rate_nanos, 0, n) == 0,
        !query_granted(rate_nanos, tokens_after_immediate_queries(rate_nanos, 0, n), 0),
{
    lemma_immediate_queries_drain(rate_nanos, 0, n);
    lemma_immediate_query(rate_nanos, 0);
}

/// Refill over time. First: when the burst ceiling is at least one token and
/// the elapsed time is at least one token's worth (at least `1/rate` seconds,
/// stated as `rate * elapsed` reaching one quintillion nanotoken-nanoseconds),
/// the query is granted, however empty the bucket was. Second: after a full
/// second of idleness the bucket refills exactly to the burst ceiling.
///
/// A rate below one token per second has a ceiling of zero; its bucket can
/// hold nothing, so the first claim is stated only for ceilings of at least
/// one.
pub proof fn lemma_refill_over_time(rate_nanos: u64, tokens: int, elapsed_nanos: u64)
    requires
        0 < rate_nanos,
        0 <= tokens <= capacity_of(rate_nanos),
    ensures
        1 <= capacity_of(rate_nanos) && 1_000_000_000_000_000_000
            <= rate_nanos as int * elapsed_nanos as int ==> query_granted(
            rate_nanos,
            tokens,
            elapsed_nanos,
        ),
        NANOS_PER_SECOND <= elapsed_nanos ==> refilled_tokens(rate_nanos, tokens, elapsed_nanos)
            == capacity_of(rate_nanos),
{
    let rate = rate_nanos as int;
    let elapsed = elapsed_nanos as int;
    let nanos = NANOS_PER_SECOND as int;
    let divisor = 1_000_000_000_000_000_000int;
    if divisor <= rate * elapsed {
        vstd::arithmetic::div_mod::lemma_div_is_ordered(divisor, rate * elapsed, divisor);
        assert(divisor / divisor == 1);
        assert(1 <= accrued_tokens(rate_nanos, elapsed_nanos));
    }
    if NANOS_PER_SECOND <= elapsed_nanos {
        assert(rate * nanos <= rate * elapsed) by (nonlinear_arith)
            requires
                0 <= rate,
                nanos <= elapsed,
        ;
        assert(0 <= rate * nanos) by (nonlinear_arith)
            requires
                0 <= rate,
                0 <= nanos,
        ;
        vstd::arithmetic::div_mod::lemma_div_denominator(rate * nanos, nanos, nanos);
        vstd::arithmetic::div_mod::lemma_div_multiples_vanish(rate, nanos);
        assert(rate * nanos == nanos * rate);
        assert((rate * nanos) / divisor == capacity_of(rate_nanos));
        vstd::arithmetic::div_mod::lemma_div_is_ordered(rate * nanos, rate * elapsed, divisor);
        assert(capacity_of(rate_nanos) <= accrued_tokens(rate_nanos, elapsed_nanos));
    }
}

/// Ceiling invariant: however long the bucket sat idle before a run of
/// queries, query number `n` of the run (counting the first, idle-breaking
/// query as number zero) is denied whenever `n` has reached the burst
/// ceiling. Idle time never accumulates more than `floor(rate)` grants.
pub proof fn lemma_ceiling_invariant(rate_nanos: u64, tokens: int, elapsed_nanos: u64, n: nat)
    requires
        0 < rate_nanos,
        0 <= tokens <= capacity_of(rate_nanos),
        capacity_of(rate_nanos) <= n,
        1 <= n,
    ensures
        !query_granted(
            rate_nanos,
            tokens_after_immediate_queries(
                rate_nanos,
                tokens_after_query(rate_nanos, tokens, elapsed_nanos),
                (n - 1) as nat,
            ),
            0,
        ),
{
    let first = tokens_after_query(rate_nanos, tokens, elapsed_nanos);
    lemma_query_bounds(rate_nanos, tokens, elapsed_nanos);
    lemma_accrued_nonnegative(rate_nanos, elapsed_nanos);
    if query_granted(rate_nanos, tokens, elapsed_nanos) {
        assert(first <= capacity_of(rate_nanos) - 1);
    } else {
        assert(first == 0);
    }
    lemma_immediate_queries_drain(rate_nanos, first, (n - 1) as nat);
    lemma_immediate_query(
        rate_nanos,
        tokens_after_immediate_queries(rate_nanos, first, (n - 1) as nat),
    );
}

/// Monotonic non-negativity: over any sequence of queries with any delays,
/// the bucket's balance stays between zero and the burst ceiling.
pub proof fn lemma_balance_bounded(rate_nanos: u64, tokens: int, delays: Seq<u64>)
    requires
        0 < rate_nanos,
        0 <= tokens <= capacity_of(rate_nanos),
    ensures
        0 <= tokens_after_queries(rate_nanos, tokens, delays),
        tokens_after_queries(rate_nanos, tokens, delays) <= capacity_of(rate_nanos),
    decreases delays.len(),
{
    if delays.len() > 0 {
        lemma_balance_bounded(rate_nanos, tokens, delays.drop_last());
        lemma_query_bounds(
            rate_nanos,
            tokens_after_queries(rate_nanos, tokens, delays.drop_last()),
            delays.last(),
        );
    }
}

} // verus!
