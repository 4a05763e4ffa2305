//! The rate limiter: one token bucket per client key.
//!
//! A bucket holds at most ten tokens and gains five per second, continuously.
//! A request takes one token or, where less than one is there, is turned
//! away and leaves the bucket as it was. Time is a count of nanoseconds that
//! the caller reads from a clock of its own; tokens are counted in billionths,
//! so that every nanosecond adds a whole number of them.

pub mod laws;

use vstd::prelude::*;
use vstd::string::*;
use crate::response::{ErrorView, GatewayError};
use crate::text::same_text;

verus! {

/// The most tokens that a bucket holds.
pub const BURST_CAPACITY: u64 = 10;

/// The tokens that a bucket gains in a second.
pub const REFILL_PER_SECOND: u64 = 5;

/// One token, in the unit in which buckets count.
pub const TOKEN: u64 = 1_000_000_000;

/// A full bucket, in the unit in which buckets count.
pub const FULL: u64 = BURST_CAPACITY * TOKEN;

/// The nanoseconds after which an empty bucket is full again.
pub const NANOS_TO_FULL: u64 = FULL / REFILL_PER_SECOND;

/// The header whose value says who the client is.
pub const KEY_HEADER: &'static str = "Authorization";

/// The nanoseconds from `last_refill` to `now`; none where the clock has not
/// moved on.
pub open spec fn elapsed(last_refill: int, now: int) -> int {
    if now > last_refill {
        now - last_refill
    } else {
        0
    }
}

/// A bucket as a mathematical value: its tokens, in billionths, and the
/// instant up to which its refill has been counted.
pub struct BucketState {
    pub tokens: int,
    pub last_refill: int,
}

impl BucketState {
    /// A bucket holds no less than nothing and no more than its capacity.
    pub open spec fn wf(self) -> bool {
        0 <= self.tokens <= FULL
    }

    /// The bucket of a client that is seen for the first time at `now`.
    pub open spec fn fresh(now: int) -> BucketState {
        BucketState { tokens: FULL as int, last_refill: now }
    }

    /// The tokens that the bucket holds at `now`: what it held, and the
    /// refill for the time since, up to the capacity.
    pub open spec fn available(self, now: int) -> int {
        let refilled = self.tokens + elapsed(self.last_refill, now) * REFILL_PER_SECOND;
        if refilled <= FULL {
            refilled
        } else {
            FULL as int
        }
    }

    /// A request at `now` finds a whole token.
    pub open spec fn admits(self, now: int) -> bool {
        self.available(now) >= TOKEN
    }

    /// The bucket after a request at `now`: one token less and refilled up to
    /// `now` where the request was let through, untouched where it was not.
    pub open spec fn after(self, now: int) -> BucketState {
        if self.admits(now) {
            BucketState {
                tokens: self.available(now) - TOKEN,
                last_refill: if now > self.last_refill {
                    now
                } else {
                    self.last_refill
                },
            }
        } else {
            self
        }
    }
}

/// The bucket of one client.
#[derive(Debug, PartialEq, Eq)]
pub struct RateBucket {
    key: String,
    tokens: u64,
    last_refill: u64,
}

impl View for RateBucket {
    type V = BucketState;

    closed spec fn view(&self) -> BucketState {
        BucketState { tokens: self.tokens as int, last_refill: self.last_refill as int }
    }
}

impl RateBucket {
    #[verifier::type_invariant]
    spec fn within_capacity(&self) -> bool {
        self.tokens <= FULL
    }

    /// The client whose bucket this is.
    pub closed spec fn key(&self) -> Seq<char> {
        self.key@
    }

    /// A full bucket for the client `key`, first seen at `now`.
    pub fn new(key: String, now: u64) -> (bucket: RateBucket)
        ensures
            bucket.key() == key@,
            bucket@ == BucketState::fresh(now as int),
            bucket@.wf(),
    {
        RateBucket { key, tokens: FULL, last_refill: now }
    }

    /// The tokens, in billionths, that the bucket holds at `now`.
    pub fn available(&self, now: u64) -> (tokens: u64)
        ensures
            tokens == self@.available(now as int),
            tokens <= FULL,
            self@.wf(),
    {
        proof {
            use_type_invariant(self);
        }
        if now <= self.last_refill {
            self.tokens
        } else {
            let since: u64 = now - self.last_refill;
            if since >= NANOS_TO_FULL {
                FULL
            } else {
                let refilled: u64 = self.tokens + since * REFILL_PER_SECOND;
                if refilled <= FULL {
                    refilled
                } else {
                    FULL
                }
            }
        }
    }

    /// Handles one request at `now`: takes a token and says `true`, or, where
    /// the bucket holds less than one, says `false` and changes nothing.
    pub fn check_and_consume(&mut self, now: u64) -> (allowed: bool)
        ensures
            allowed == old(self)@.admits(now as int),
            final(self)@ == old(self)@.after(now as int),
            final(self).key() == old(self).key(),
            final(self)@.wf(),
    {
        let tokens = self.available(now);
        if tokens < TOKEN {
            false
        } else {
            self.tokens = tokens - TOKEN;
            if now > self.last_refill {
                self.last_refill = now;
            }
            true
        }
    }
}

/// Reads the client key off a request.
#[derive(Debug, Clone, Copy, PartialEq, Eq, Structural)]
pub struct _KeyExtactor;

impl _KeyExtactor {
    pub fn new() -> (extractor: _KeyExtactor)
        ensures
            extractor == _KeyExtactor,
    {
        _KeyExtactor
    }

    /// The client key of a request whose key header holds `authorization`,
    /// `None` standing for a request without that header. The key is the
    /// header's value as it is; a request without the header has no key, which
    /// is another failure than being over the limit.
    pub fn extract(&self, authorization: Option<&str>) -> (r: Result<String, GatewayError>)
        ensures
            match authorization {
                Some(value) => r matches Ok(key) && key@ == value@,
                None => r matches Err(e) && e@ == ErrorView::MissingRateLimitKey,
            },
    {
        match authorization {
            Some(value) => Ok(String::from_str(value)),
            None => Err(GatewayError::MissingRateLimitKey),
        }
    }
}

/// The bucket from which a request of `key` is served: the client's own, or a
/// fresh one where the client is seen for the first time at `now`.
pub open spec fn bucket_for(buckets: Map<Seq<char>, BucketState>, key: Seq<char>, now: int) -> BucketState {
    if buckets.contains_key(key) {
        buckets[key]
    } else {
        BucketState::fresh(now)
    }
}

/// The buckets after a request of `key` at `now`: that client's bucket has
/// handled the request, every other is as it was.
pub open spec fn buckets_after(buckets: Map<Seq<char>, BucketState>, key: Seq<char>, now: int) -> Map<
    Seq<char>,
    BucketState,
> {
    buckets.insert(key, bucket_for(buckets, key, now).after(now))
}

/// Every bucket is between empty and full.
pub open spec fn all_within_capacity(buckets: Map<Seq<char>, BucketState>) -> bool {
    forall|key: Seq<char>| buckets.contains_key(key) ==> (#[trigger] buckets[key]).wf()
}

/// The buckets of all clients seen so far, one for each.
#[derive(Debug, PartialEq, Eq)]
pub struct RateLimiter {
    key_extractor: _KeyExtactor,
    buckets: Vec<RateBucket>,
}

impl View for RateLimiter {
    type V = Map<Seq<char>, BucketState>;

    /// The limiter as a map from client key to bucket.
    closed spec fn view(&self) -> Map<Seq<char>, BucketState> {
        Map::new(
            |key: Seq<char>| self.holds(key),
            |key: Seq<char>| self.buckets[self.position(key)]@,
        )
    }
}

impl RateLimiter {
    /// No client has two buckets, and every bucket is between empty and full.
    pub closed spec fn wf(&self) -> bool {
        &&& forall|i: int, j: int|
            0 <= i < j < self.buckets.len() ==> self.buckets[i].key() != self.buckets[j].key()
        &&& forall|i: int| 0 <= i < self.buckets.len() ==> (#[trigger] self.buckets[i])@.wf()
    }

    /// The buckets of a limiter are between empty and full.
    pub proof fn buckets_are_within_capacity(&self)
        requires
            self.wf(),
        ensures
            all_within_capacity(self@),
    {
    }

    spec fn holds(&self, key: Seq<char>) -> bool {
        exists|i: int| 0 <= i < self.buckets.len() && self.buckets[i].key() == key
    }

    spec fn position(&self, key: Seq<char>) -> int {
        choose|i: int| 0 <= i < self.buckets.len() && self.buckets[i].key() == key
    }

    /// A limiter that has seen no client yet.
    pub fn new(key_extractor: _KeyExtactor) -> (limiter: RateLimiter)
        ensures
            limiter.wf(),
            limiter@ == Map::<Seq<char>, BucketState>::empty(),
    {
        let limiter = RateLimiter { key_extractor, buckets: Vec::new() };
        assert(limiter@ =~= Map::<Seq<char>, BucketState>::empty());
        limiter
    }

    /// Where a key stands in a limiter, there and nowhere else is its bucket.
    proof fn position_is_unique(&self, i: int)
        requires
            self.wf(),
            0 <= i < self.buckets.len(),
        ensures
            self.holds(self.buckets[i].key()),
            self.position(self.buckets[i].key()) == i,
    {
        let key = self.buckets[i].key();
        let found = self.position(key);
        assert(0 <= found < self.buckets.len() && self.buckets[found].key() == key);
    }

    /// A limiter in which the bucket at `i` has changed, and nothing else, is
    /// the old one with that bucket's key set anew.
    proof fn bucket_replaced(before: &RateLimiter, after: &RateLimiter, i: int)
        requires
            before.wf(),
            0 <= i < before.buckets.len(),
            after.buckets.len() == before.buckets.len(),
            after.buckets[i].key() == before.buckets[i].key(),
            after.buckets[i]@.wf(),
            forall|j: int|
                0 <= j < before.buckets.len() && j != i ==> after.buckets[j] == before.buckets[j],
        ensures
            after.wf(),
            before@.contains_key(before.buckets[i].key()),
            before@[before.buckets[i].key()] == before.buckets[i]@,
            after@ == before@.insert(before.buckets[i].key(), after.buckets[i]@),
    {
        assert forall|j: int| 0 <= j < before.buckets.len() implies #[trigger] after.buckets[j].key()
            == before.buckets[j].key() by {}
        assert(after.wf());
        before.position_is_unique(i);
        after.position_is_unique(i);
        let target = before@.insert(before.buckets[i].key(), after.buckets[i]@);
        assert forall|key: Seq<char>| after@.contains_key(key) == target.contains_key(key) by {
            if after.holds(key) {
                let j = after.position(key);
                before.position_is_unique(j);
            }
            if before.holds(key) {
                let j = before.position(key);
                after.position_is_unique(j);
            }
        }
        assert forall|key: Seq<char>| after@.contains_key(key) implies after@[key] == target[key] by {
            let j = after.position(key);
            before.position_is_unique(j);
            after.position_is_unique(j);
        }
        assert(after@ =~= target);
    }

    /// A limiter with one more bucket, of a client it had none for, is the old
    /// one with that client's key set.
    proof fn bucket_added(before: &RateLimiter, after: &RateLimiter, bucket: RateBucket)
        requires
            before.wf(),
            forall|j: int| 0 <= j < before.buckets.len() ==> before.buckets[j].key() != bucket.key(),
            bucket@.wf(),
            after.buckets@ == before.buckets@.push(bucket),
        ensures
            after.wf(),
            !before@.contains_key(bucket.key()),
            after@ == before@.insert(bucket.key(), bucket@),
    {
        let n = before.buckets.len() as int;
        assert forall|j: int| 0 <= j < n implies #[trigger] after.buckets[j] == before.buckets[j] by {}
        assert(after.buckets[n] == bucket);
        assert(after.wf());
        after.position_is_unique(n);
        let target = before@.insert(bucket.key(), bucket@);
        assert forall|key: Seq<char>| after@.contains_key(key) == target.contains_key(key) by {
            if after.holds(key) {
                let j = after.position(key);
                if j < n {
                    before.position_is_unique(j);
                }
            }
            if before.holds(key) {
                let j = before.position(key);
                after.position_is_unique(j);
            }
        }
        assert forall|key: Seq<char>| after@.contains_key(key) implies after@[key] == target[key] by {
            let j = after.position(key);
            after.position_is_unique(j);
            if j < n {
                before.position_is_unique(j);
            }
        }
        assert(after@ =~= target);
    }

    /// Handles one request of the client `key` at `now`: says whether it may
    /// pass. A client seen for the first time starts with a full bucket. No
    /// other client's bucket is touched.
    pub fn check_and_consume(&mut self, key: &str, now: u64) -> (allowed: bool)
        requires
            old(self).wf(),
        ensures
            final(self).wf(),
            allowed == bucket_for(old(self)@, key@, now as int).admits(now as int),
            final(self)@ == buckets_after(old(self)@, key@, now as int),
    {
        let mut i: usize = 0;
        while i < self.buckets.len()
            invariant
                old(self).wf(),
                *self == *old(self),
                i <= self.buckets.len(),
                forall|j: int| 0 <= j < i ==> self.buckets[j].key() != key@,
            decreases self.buckets.len() - i,
        {
            if same_text(self.buckets[i].key.as_str(), key) {
                let allowed = self.buckets[i].check_and_consume(now);
                proof {
                    Self::bucket_replaced(old(self), self, i as int);
                }
                return allowed;
            }
            i += 1;
        }
        let mut bucket = RateBucket::new(String::from_str(key), now);
        let allowed = bucket.check_and_consume(now);
        self.buckets.push(bucket);
        proof {
            Self::bucket_added(old(self), self, bucket);
        }
        allowed
    }

    /// Stands before the router: finds the client's key and handles the
    /// request against that client's bucket.
    ///
    /// A request without a key is turned away as
    /// [`GatewayError::MissingRateLimitKey`] and touches no bucket. One whose
    /// bucket holds less than a token is turned away as
    /// [`GatewayError::RateLimited`].
    pub fn screen(&mut self, authorization: Option<&str>, now: u64) -> (r: Result<(), GatewayError>)
        requires
            old(self).wf(),
        ensures
            final(self).wf(),
            match authorization {
                Some(key) => {
                    &&& final(self)@ == buckets_after(old(self)@, key@, now as int)
                    &&& match r {
                        Ok(_) => bucket_for(old(self)@, key@, now as int).admits(now as int),
                        Err(e) => !bucket_for(old(self)@, key@, now as int).admits(now as int)
                            && e@ == ErrorView::RateLimited,
                    }
                },
                None => {
                    &&& final(self)@ == old(self)@
                    &&& r matches Err(e)
                    &&& e@ == ErrorView::MissingRateLimitKey
                },
            },
    {
        let key = match self.key_extractor.extract(authorization) {
            Ok(key) => key,
            Err(e) => {
                return Err(e);
            },
        };
        if self.check_and_consume(key.as_str(), now) {
            Ok(())
        } else {
            Err(GatewayError::RateLimited)
        }
    }
}

} // verus!
