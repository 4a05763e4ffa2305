//! What holds of the rate limiter over any run of requests: buckets stay
//! within their capacity, clients do not touch each other's buckets, and no
//! client is let through more often than its bucket and the refill pay for.

use vstd::prelude::*;
use crate::rate_limit::{
    all_within_capacity,
    bucket_for,
    buckets_after,
    elapsed,
    BucketState,
    FULL,
    REFILL_PER_SECOND,
    TOKEN,
};

verus! {

/// How many of the requests that arrive at `times`, in that order, the bucket
/// lets through.
pub open spec fn admitted(bucket: BucketState, times: Seq<int>) -> nat
    decreases times.len(),
{
    if times.len() == 0 {
        0
    } else {
        let later = admitted(bucket.after(times[0]), times.drop_first());
        if bucket.admits(times[0]) {
            later + 1
        } else {
            later
        }
    }
}

/// The refill is continuous: what a bucket holds at a later instant is what it
/// held at an earlier one and the refill for the time between, up to the
/// capacity, wherever the time is cut.
pub proof fn refill_is_continuous(bucket: BucketState, earlier: int, later: int)
    requires
        bucket.wf(),
        bucket.last_refill <= earlier <= later,
    ensures
        bucket.available(later) == if bucket.available(earlier) + (later - earlier)
            * REFILL_PER_SECOND <= FULL {
            bucket.available(earlier) + (later - earlier) * REFILL_PER_SECOND
        } else {
            FULL as int
        },
{
}

/// The whole tokens that the bucket holds at `now`.
pub open spec fn whole_tokens(bucket: BucketState, now: int) -> int {
    bucket.available(now) / (TOKEN as int)
}

/// Of requests that all arrive at one instant, as many are let through as the
/// bucket holds whole tokens at that instant, and no more than there are
/// requests.
pub proof fn burst_takes_whole_tokens(bucket: BucketState, now: int, count: nat)
    requires
        bucket.wf(),
    ensures
        admitted(bucket, Seq::new(count, |i: int| now)) == if count <= whole_tokens(bucket, now) {
            count as int
        } else {
            whole_tokens(bucket, now)
        },
    decreases count,
{
    let times = Seq::new(count, |i: int| now);
    if count > 0 {
        let fewer = (count - 1) as nat;
        assert(times.drop_first() =~= Seq::new(fewer, |i: int| now));
        assert(times[0] == now);
        let next = bucket.after(now);
        burst_takes_whole_tokens(next, now, fewer);
        if bucket.admits(now) {
            assert(next.available(now) == bucket.available(now) - TOKEN);
            assert(whole_tokens(next, now) == whole_tokens(bucket, now) - 1);
        } else {
            assert(whole_tokens(bucket, now) == 0);
        }
    }
}

/// What requests between `start` and `end` can still take from the bucket:
/// what it holds at `start`, and the refill until `end`.
spec fn credit(bucket: BucketState, start: int, end: int) -> int {
    let counted_to = if bucket.last_refill > start {
        bucket.last_refill
    } else {
        start
    };
    bucket.available(start) + elapsed(counted_to, end) * REFILL_PER_SECOND
}

/// A request between `start` and `end` that is let through costs a token of
/// the credit; one that is turned away costs nothing.
proof fn request_is_paid_from_credit(bucket: BucketState, now: int, start: int, end: int)
    requires
        bucket.wf(),
        start <= now <= end,
    ensures
        bucket.after(now).wf(),
        0 <= credit(bucket.after(now), start, end),
        credit(bucket, start, end) <= FULL + (end - start) * REFILL_PER_SECOND,
        bucket.admits(now) ==> credit(bucket.after(now), start, end) + TOKEN <= credit(
            bucket,
            start,
            end,
        ),
        !bucket.admits(now) ==> bucket.after(now) == bucket,
{
}

/// The requests let through between `start` and `end` are paid from the
/// credit.
proof fn admitted_is_paid_from_credit(bucket: BucketState, times: Seq<int>, start: int, end: int)
    requires
        bucket.wf(),
        start <= end,
        forall|i: int| 0 <= i < times.len() ==> start <= #[trigger] times[i] <= end,
    ensures
        admitted(bucket, times) * TOKEN <= credit(bucket, start, end),
    decreases times.len(),
{
    if times.len() > 0 {
        let rest = times.drop_first();
        assert forall|i: int| 0 <= i < rest.len() implies start <= #[trigger] rest[i] <= end by {
            assert(rest[i] == times[i + 1]);
        }
        request_is_paid_from_credit(bucket, times[0], start, end);
        admitted_is_paid_from_credit(bucket.after(times[0]), rest, start, end);
    }
}

/// A bucket stays between empty and full, whenever a request arrives.
pub proof fn bucket_stays_within_capacity(bucket: BucketState, now: int)
    requires
        bucket.wf(),
    ensures
        0 <= bucket.available(now) <= FULL,
        bucket.after(now).wf(),
{
}

/// No token is spent twice: of the requests of one client that arrive between
/// `start` and `end`, in whatever order the limiter takes them, no more are
/// let through than a full bucket and the refill for that stretch of time pay
/// for.
pub proof fn no_double_spend(bucket: BucketState, times: Seq<int>, start: int, end: int)
    requires
        bucket.wf(),
        start <= end,
        forall|i: int| 0 <= i < times.len() ==> start <= #[trigger] times[i] <= end,
    ensures
        admitted(bucket, times) * TOKEN <= FULL + (end - start) * REFILL_PER_SECOND,
{
    admitted_is_paid_from_credit(bucket, times, start, end);
}

/// The buckets after the requests `arrivals`, each a client's key and the time
/// at which it arrives, taken in that order.
pub open spec fn buckets_after_all(
    buckets: Map<Seq<char>, BucketState>,
    arrivals: Seq<(Seq<char>, int)>,
) -> Map<Seq<char>, BucketState>
    decreases arrivals.len(),
{
    if arrivals.len() == 0 {
        buckets
    } else {
        buckets_after_all(
            buckets_after(buckets, arrivals[0].0, arrivals[0].1),
            arrivals.drop_first(),
        )
    }
}

/// How many requests of the client `key` are let through among `arrivals`,
/// taken in that order.
pub open spec fn admitted_of(
    buckets: Map<Seq<char>, BucketState>,
    arrivals: Seq<(Seq<char>, int)>,
    key: Seq<char>,
) -> nat
    decreases arrivals.len(),
{
    if arrivals.len() == 0 {
        0
    } else {
        let first = arrivals[0];
        let later = admitted_of(
            buckets_after(buckets, first.0, first.1),
            arrivals.drop_first(),
            key,
        );
        if first.0 == key && bucket_for(buckets, key, first.1).admits(first.1) {
            later + 1
        } else {
            later
        }
    }
}

/// Two clients share nothing: whatever requests other clients make, and
/// however many, a client's bucket is at any time what it would have been
/// without them.
pub proof fn clients_are_independent(
    buckets: Map<Seq<char>, BucketState>,
    arrivals: Seq<(Seq<char>, int)>,
    key: Seq<char>,
    now: int,
)
    requires
        forall|i: int| 0 <= i < arrivals.len() ==> (#[trigger] arrivals[i]).0 != key,
    ensures
        buckets_after_all(buckets, arrivals).contains_key(key) == buckets.contains_key(key),
        bucket_for(buckets_after_all(buckets, arrivals), key, now) == bucket_for(
            buckets,
            key,
            now,
        ),
        admitted_of(buckets, arrivals, key) == 0,
    decreases arrivals.len(),
{
    if arrivals.len() > 0 {
        let rest = arrivals.drop_first();
        assert forall|i: int| 0 <= i < rest.len() implies (#[trigger] rest[i]).0 != key by {
            assert(rest[i] == arrivals[i + 1]);
        }
        assert(arrivals[0].0 != key);
        clients_are_independent(
            buckets_after(buckets, arrivals[0].0, arrivals[0].1),
            rest,
            key,
            now,
        );
    }
}

/// What requests of `key` between `start` and `end` can still take: the
/// credit of the client's bucket, or that of a full one where the client has
/// none yet.
spec fn client_credit(
    buckets: Map<Seq<char>, BucketState>,
    key: Seq<char>,
    start: int,
    end: int,
) -> int {
    if buckets.contains_key(key) {
        credit(buckets[key], start, end)
    } else {
        FULL + (end - start) * REFILL_PER_SECOND
    }
}

/// The requests of one client that are let through are paid from that
/// client's credit, whoever else makes requests in between.
proof fn admitted_of_is_paid_from_credit(
    buckets: Map<Seq<char>, BucketState>,
    arrivals: Seq<(Seq<char>, int)>,
    key: Seq<char>,
    start: int,
    end: int,
)
    requires
        buckets.contains_key(key) ==> buckets[key].wf(),
        start <= end,
        forall|i: int|
            0 <= i < arrivals.len() && (#[trigger] arrivals[i]).0 == key ==> start
                <= arrivals[i].1 <= end,
    ensures
        admitted_of(buckets, arrivals, key) * TOKEN <= client_credit(buckets, key, start, end),
    decreases arrivals.len(),
{
    if arrivals.len() > 0 {
        let first = arrivals[0];
        let rest = arrivals.drop_first();
        let next = buckets_after(buckets, first.0, first.1);
        assert forall|i: int| 0 <= i < rest.len() && (#[trigger] rest[i]).0 == key implies start
            <= rest[i].1 <= end by {
            assert(rest[i] == arrivals[i + 1]);
        }
        if first.0 == key {
            request_is_paid_from_credit(bucket_for(buckets, key, first.1), first.1, start, end);
        }
        admitted_of_is_paid_from_credit(next, rest, key, start, end);
    } else {
        if buckets.contains_key(key) {
            request_is_paid_from_credit(buckets[key], start, start, end);
        }
    }
}

/// Buckets that are between empty and full stay so, whatever requests arrive.
pub proof fn buckets_stay_within_capacity(
    buckets: Map<Seq<char>, BucketState>,
    arrivals: Seq<(Seq<char>, int)>,
)
    requires
        all_within_capacity(buckets),
    ensures
        all_within_capacity(buckets_after_all(buckets, arrivals)),
    decreases arrivals.len(),
{
    if arrivals.len() > 0 {
        let first = arrivals[0];
        bucket_stays_within_capacity(bucket_for(buckets, first.0, first.1), first.1);
        buckets_stay_within_capacity(
            buckets_after(buckets, first.0, first.1),
            arrivals.drop_first(),
        );
    }
}

/// No client overspends: among requests of any clients, taken in any order, no
/// more of one client's requests are let through than a full bucket and the
/// refill for the stretch of time in which that client's requests arrive pay
/// for.
///
/// The limiter is changed through an exclusive reference only, so requests
/// that are made at the same time reach it one after another, in some order;
/// the bound holds for each.
pub proof fn no_client_overspends(
    buckets: Map<Seq<char>, BucketState>,
    arrivals: Seq<(Seq<char>, int)>,
    key: Seq<char>,
    start: int,
    end: int,
)
    requires
        all_within_capacity(buckets),
        start <= end,
        forall|i: int|
            0 <= i < arrivals.len() && (#[trigger] arrivals[i]).0 == key ==> start
                <= arrivals[i].1 <= end,
    ensures
        admitted_of(buckets, arrivals, key) * TOKEN <= FULL + (end - start) * REFILL_PER_SECOND,
{
    admitted_of_is_paid_from_credit(buckets, arrivals, key, start, end);
    if buckets.contains_key(key) {
        request_is_paid_from_credit(buckets[key], start, start, end);
    }
}

} // verus!
