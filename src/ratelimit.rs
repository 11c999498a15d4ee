//! Rate limiting with a token bucket shared by every request that passes
//! through one layer: lazy continuous refill, capped at capacity.
//!
//! Credit is kept in units of 1/period of a token, so refilling is exact:
//! one nanosecond adds `capacity` units and a token costs `period_ns` units.

use vstd::prelude::*;
use crate::error::{envelope_of, json_headers, json_string, ErrorResponse};
use crate::message::{Request, Response, Step};

verus! {

/// A token bucket: `capacity` tokens refill evenly over `period_ns`.
#[derive(Clone, Copy, Debug)]
pub struct TokenBucket {
    pub capacity: u32,
    pub period_ns: u64,
    /// Tokens held, times `period_ns`.
    pub credit: u128,
    /// When the bucket was last refilled.
    pub last_refill_ns: u64,
}

/// The most credit a bucket holds: `capacity` whole tokens.
pub open spec fn full_credit(b: TokenBucket) -> int {
    b.capacity as int * b.period_ns as int
}

impl TokenBucket {
    /// Capacity and period are positive and the credit is within capacity.
    pub open spec fn wf(self) -> bool {
        &&& self.capacity > 0
        &&& self.period_ns > 0
        &&& self.credit <= full_credit(self)
    }

    /// Whole tokens available; between 0 and `capacity` in a well-formed bucket.
    pub open spec fn tokens(self) -> int {
        self.credit as int / self.period_ns as int
    }
}

/// Credit after refilling up to time `now_ns`; time never runs backwards.
pub open spec fn refilled_credit(b: TokenBucket, now_ns: u64) -> int {
    let elapsed: int = if now_ns >= b.last_refill_ns { now_ns - b.last_refill_ns } else { 0 };
    let grown = b.credit + elapsed * b.capacity;
    if grown > full_credit(b) { full_credit(b) } else { grown }
}

/// One attempt at time `now_ns`: the bucket afterwards, and whether a token
/// was taken.
pub open spec fn acquire_spec(b: TokenBucket, now_ns: u64) -> (TokenBucket, bool) {
    let c = refilled_credit(b, now_ns);
    let admitted = c >= b.period_ns;
    let last = if now_ns >= b.last_refill_ns { now_ns } else { b.last_refill_ns };
    (
        TokenBucket {
            credit: (if admitted { c - b.period_ns } else { c }) as u128,
            last_refill_ns: last,
            ..b
        },
        admitted,
    )
}

/// Attempts at the given times, in order: the bucket afterwards and the
/// number admitted.
pub open spec fn run_spec(b: TokenBucket, times: Seq<u64>) -> (TokenBucket, nat)
    decreases times.len(),
{
    if times.len() == 0 {
        (b, 0)
    } else {
        let (b1, ok) = acquire_spec(b, times[0]);
        let (b2, n) = run_spec(b1, times.drop_first());
        (b2, n + if ok { 1nat } else { 0nat })
    }
}

/// Every time is at most `until`.
pub open spec fn all_until(times: Seq<u64>, until: u64) -> bool {
    forall|i: int| 0 <= i < times.len() ==> #[trigger] times[i] <= until
}

impl TokenBucket {
    /// A full bucket, last refilled at `now_ns`.
    pub fn new(capacity: u32, period_ns: u64, now_ns: u64) -> (r: TokenBucket)
        requires
            capacity > 0,
            period_ns > 0,
        ensures
            r.wf(),
            r.capacity == capacity,
            r.period_ns == period_ns,
            r.credit == full_credit(r),
            r.last_refill_ns == now_ns,
    {
        assert(capacity as u128 * period_ns as u128 <= 0xffff_ffffu128 * 0xffff_ffff_ffff_ffffu128)
            by (nonlinear_arith)
            requires capacity <= 0xffff_ffffu32, period_ns <= 0xffff_ffff_ffff_ffffu64;
        let full = capacity as u128 * period_ns as u128;
        TokenBucket { capacity, period_ns, credit: full, last_refill_ns: now_ns }
    }

    /// Refills for the time elapsed up to `now_ns`, then takes one token if
    /// there is one. The whole update is one step on the bucket.
    pub fn try_acquire(&mut self, now_ns: u64) -> (admitted: bool)
        requires
            old(self).wf(),
        ensures
            final(self).wf(),
            (*final(self), admitted) == acquire_spec(*old(self), now_ns),
    {
        proof {
            lemma_full_fits(*self);
        }
        let full = self.capacity as u128 * self.period_ns as u128;
        let elapsed: u64 = if now_ns >= self.last_refill_ns { now_ns - self.last_refill_ns } else { 0 };
        assert(elapsed as u128 * self.capacity as u128 <= 0xffff_ffff_ffff_ffffu128 * 0xffff_ffffu128)
            by (nonlinear_arith)
            requires elapsed <= 0xffff_ffff_ffff_ffffu64, self.capacity <= 0xffff_ffffu32;
        let grown = self.credit + elapsed as u128 * self.capacity as u128;
        let c = if grown > full { full } else { grown };
        if now_ns >= self.last_refill_ns {
            self.last_refill_ns = now_ns;
        }
        if c >= self.period_ns as u128 {
            self.credit = c - self.period_ns as u128;
            true
        } else {
            self.credit = c;
            false
        }
    }
}

/// Full credit fits comfortably in 128 bits.
proof fn lemma_full_fits(b: TokenBucket)
    ensures
        0 <= full_credit(b) <= 0xffff_ffffu128 * 0xffff_ffff_ffff_ffffu128,
{
    let c = b.capacity as int;
    let p = b.period_ns as int;
    assert(0 <= c * p <= 0xffff_ffffu128 * 0xffff_ffff_ffff_ffffu128) by (nonlinear_arith)
        requires 0 <= c <= 0xffff_ffff, 0 <= p <= 0xffff_ffff_ffff_ffff;
}

/// Credit never shrinks by refilling, not even for a time before the last
/// refill.
proof fn lemma_refill_grows(b: TokenBucket, now_ns: u64)
    requires
        b.wf(),
    ensures
        refilled_credit(b, now_ns) >= b.credit,
        refilled_credit(b, now_ns) <= full_credit(b),
{
    let elapsed: int = if now_ns >= b.last_refill_ns { now_ns - b.last_refill_ns } else { 0 };
    assert(elapsed * b.capacity >= 0) by (nonlinear_arith)
        requires elapsed >= 0, b.capacity >= 0;
}

/// Each attempt keeps the bucket well formed, and what it admits is paid
/// for by credit held or by the time its last refill moved forward.
proof fn lemma_acquire_accounting(b: TokenBucket, now_ns: u64)
    requires
        b.wf(),
    ensures
        acquire_spec(b, now_ns).0.wf(),
        acquire_spec(b, now_ns).0.capacity == b.capacity,
        acquire_spec(b, now_ns).0.period_ns == b.period_ns,
        acquire_spec(b, now_ns).0.last_refill_ns >= b.last_refill_ns,
        acquire_spec(b, now_ns).0.last_refill_ns == b.last_refill_ns
            || acquire_spec(b, now_ns).0.last_refill_ns == now_ns,
        acquire_spec(b, now_ns).0.credit + (if acquire_spec(b, now_ns).1 { b.period_ns as int } else { 0 })
            <= b.credit + (acquire_spec(b, now_ns).0.last_refill_ns - b.last_refill_ns) * b.capacity,
{
    lemma_refill_grows(b, now_ns);
    lemma_full_fits(b);
}

/// Over attempts at times in any order, all at most `until`, credit left
/// plus credit spent never exceeds the credit at the start plus what the
/// time up to the last refill added.
proof fn lemma_run_accounting(b: TokenBucket, times: Seq<u64>, until: u64)
    requires
        b.wf(),
        b.last_refill_ns <= until,
        all_until(times, until),
    ensures
        run_spec(b, times).0.wf(),
        run_spec(b, times).0.capacity == b.capacity,
        run_spec(b, times).0.period_ns == b.period_ns,
        b.last_refill_ns <= run_spec(b, times).0.last_refill_ns <= until,
        run_spec(b, times).0.credit + run_spec(b, times).1 * b.period_ns
            <= b.credit + (run_spec(b, times).0.last_refill_ns - b.last_refill_ns) * b.capacity,
    decreases times.len(),
{
    if times.len() == 0 {
        assert(run_spec(b, times) == (b, 0nat));
        assert(0nat * b.period_ns == 0) by (nonlinear_arith);
        assert((b.last_refill_ns - b.last_refill_ns) * b.capacity == 0) by (nonlinear_arith);
    } else {
        let (b1, ok) = acquire_spec(b, times[0]);
        lemma_acquire_accounting(b, times[0]);
        let rest = times.drop_first();
        assert(all_until(rest, until)) by {
            assert forall|i: int| 0 <= i < rest.len() implies #[trigger] rest[i] <= until by {
                assert(rest[i] == times[i + 1]);
            }
        }
        assert(times[0] <= until);
        lemma_run_accounting(b1, rest, until);
        let spent: int = if ok { b.period_ns as int } else { 0 };
        assert(run_spec(b, times) == (run_spec(b1, rest).0, run_spec(b1, rest).1 + if ok { 1nat } else { 0nat }));
        let n = run_spec(b1, rest).1;
        let last = run_spec(b1, rest).0.last_refill_ns;
        assert(run_spec(b, times).1 * b.period_ns == n * b.period_ns + spent) by (nonlinear_arith)
            requires run_spec(b, times).1 == n + if ok { 1nat } else { 0nat },
                spent == (if ok { b.period_ns as int } else { 0 });
        assert((b1.last_refill_ns - b.last_refill_ns) * b.capacity + (last - b1.last_refill_ns) * b.capacity
            == (last - b.last_refill_ns) * b.capacity) by (nonlinear_arith);
        assert(b1.credit + spent <= b.credit + (b1.last_refill_ns - b.last_refill_ns) * b.capacity);
        assert(run_spec(b1, rest).0.credit + n * b.period_ns <= b1.credit + (last - b1.last_refill_ns)
            * b.capacity);
    }
}

/// However requests interleave, and in whatever order their times reach the
/// bucket, the admissions up to time `until` are paid for: admitted tokens
/// never exceed the capacity plus what the span refills (`capacity` per
/// `period_ns`).
pub proof fn law_admissions_bounded(b: TokenBucket, times: Seq<u64>, until: u64)
    requires
        b.wf(),
        b.last_refill_ns <= until,
        all_until(times, until),
    ensures
        run_spec(b, times).1 * b.period_ns <= full_credit(b) + (until - b.last_refill_ns) * b.capacity,
{
    lemma_run_accounting(b, times, until);
    let last = run_spec(b, times).0.last_refill_ns;
    assert((last - b.last_refill_ns) * b.capacity <= (until - b.last_refill_ns) * b.capacity)
        by (nonlinear_arith)
        requires last <= until, b.capacity >= 0;
}

/// Within less time than one token takes to refill, at most `capacity`
/// requests are admitted, in any order of arrival.
pub proof fn law_at_most_capacity_per_window(b: TokenBucket, times: Seq<u64>, until: u64)
    requires
        b.wf(),
        b.last_refill_ns <= until,
        all_until(times, until),
        (until - b.last_refill_ns) * b.capacity < b.period_ns,
    ensures
        run_spec(b, times).1 <= b.capacity,
{
    law_admissions_bounded(b, times, until);
    let n = run_spec(b, times).1;
    let c = b.capacity as int;
    let p = b.period_ns as int;
    assert(n * p < (c + 1) * p) by (nonlinear_arith)
        requires n * p <= c * p + (until - b.last_refill_ns) * c,
            (until - b.last_refill_ns) * c < p;
    assert(n < c + 1) by (nonlinear_arith)
        requires n * p < (c + 1) * p, p > 0;
}

/// With credit for `m` tokens, the first `m` attempts are all admitted,
/// whatever their times.
proof fn lemma_run_admits(b: TokenBucket, times: Seq<u64>, m: nat)
    requires
        b.wf(),
        m <= times.len(),
        b.credit >= m * b.period_ns,
    ensures
        run_spec(b, times).1 >= m,
    decreases m,
{
    if m > 0 {
        let (b1, ok) = acquire_spec(b, times[0]);
        lemma_refill_grows(b, times[0]);
        lemma_acquire_accounting(b, times[0]);
        lemma_full_fits(b);
        assert(m * b.period_ns >= b.period_ns) by (nonlinear_arith)
            requires m >= 1;
        assert(ok);
        assert(b1.credit >= (m - 1) * b.period_ns) by (nonlinear_arith)
            requires b1.credit == refilled_credit(b, times[0]) - b.period_ns,
                refilled_credit(b, times[0]) >= m * b.period_ns;
        lemma_run_admits(b1, times.drop_first(), (m - 1) as nat);
    }
}

/// A burst of `capacity + 1` requests on a full bucket, all at times before
/// one token refills and in any order: exactly `capacity` are admitted, so at
/// least one is refused.
pub proof fn law_burst(b: TokenBucket, times: Seq<u64>, until: u64)
    requires
        b.wf(),
        b.credit == full_credit(b),
        b.last_refill_ns <= until,
        all_until(times, until),
        times.len() == b.capacity + 1,
        (until - b.last_refill_ns) * b.capacity < b.period_ns,
    ensures
        run_spec(b, times).1 == b.capacity,
{
    law_at_most_capacity_per_window(b, times, until);
    lemma_run_admits(b, times, b.capacity as nat);
}

/// `r` refuses a request over quota: 429, JSON, and the envelope
/// `{"code":"TOO_MANY_REQUESTS","message":"Rate limit exceeded"}`.
pub open spec fn refuses_over_quota(r: Response) -> bool {
    &&& r.status == 429
    &&& r.headers.deep_view() == json_headers()
    &&& r.body@ == envelope_of(json_string("TOO_MANY_REQUESTS"@), json_string("Rate limit exceeded"@))
}

/// The response that refuses a request over quota: 429 with
/// `{"code":"TOO_MANY_REQUESTS","message":"Rate limit exceeded"}`.
pub fn too_many_requests() -> (r: Response)
    ensures
        refuses_over_quota(r),
{
    ErrorResponse::new("TOO_MANY_REQUESTS", "Rate limit exceeded").into_response(429)
}

/// Layer that limits requests to `capacity` per `period_ns`.
#[derive(Clone, Copy, Debug)]
pub struct RateLimitLayer {
    pub capacity: u32,
    pub period_ns: u64,
}

impl RateLimitLayer {
    /// `num_requests` per `period_ns` nanoseconds; both must be positive.
    pub fn new(num_requests: u32, period_ns: u64) -> (r: RateLimitLayer)
        requires
            num_requests > 0,
            period_ns > 0,
        ensures
            r.capacity == num_requests,
            r.period_ns == period_ns,
    {
        RateLimitLayer { capacity: num_requests, period_ns }
    }

    /// `n` requests per second.
    pub fn per_second(n: u32) -> (r: RateLimitLayer)
        requires
            n > 0,
        ensures
            r.capacity == n,
            r.period_ns == 1_000_000_000,
    {
        Self::new(n, 1_000_000_000)
    }

    /// `n` requests per minute.
    pub fn per_minute(n: u32) -> (r: RateLimitLayer)
        requires
            n > 0,
        ensures
            r.capacity == n,
            r.period_ns == 60_000_000_000,
    {
        Self::new(n, 60_000_000_000)
    }

    /// The bucket this layer's services share, full at `now_ns`.
    pub fn bucket(&self, now_ns: u64) -> (r: TokenBucket)
        requires
            self.capacity > 0,
            self.period_ns > 0,
        ensures
            r.wf(),
            r.capacity == self.capacity,
            r.period_ns == self.period_ns,
            r.credit == full_credit(r),
            r.last_refill_ns == now_ns,
    {
        TokenBucket::new(self.capacity, self.period_ns, now_ns)
    }
}

/// Gates a request on the bucket: forwards it unchanged when a token is
/// available at `now_ns`, else answers 429 without forwarding.
pub fn gate(bucket: &mut TokenBucket, now_ns: u64, req: Request) -> (r: Step)
    requires
        old(bucket).wf(),
    ensures
        final(bucket).wf(),
        *final(bucket) == acquire_spec(*old(bucket), now_ns).0,
        acquire_spec(*old(bucket), now_ns).1 ==> r == Step::Forward(req),
        !acquire_spec(*old(bucket), now_ns).1 ==> r is Respond && refuses_over_quota(r->Respond_0),
{
    if bucket.try_acquire(now_ns) {
        Step::Forward(req)
    } else {
        Step::Respond(too_many_requests())
    }
}

} // verus!
