//! The quotas that gate what is sent to the service.
//!
//! Each class of operation has a token bucket of its own. A bucket holds up
//! to `burst` tokens and regains that many over its period, one token every
//! `period / burst`. An operation takes one token from the bucket of its
//! class and waits where there is none; it is never refused.

use vstd::prelude::*;

verus! {

/// Seconds added to each period that the service publishes, to stay clear of
/// its own count.
pub const BUFFER: u64 = 1;

/// Nanoseconds in a second.
pub const NANOS_PER_SECOND: u64 = 1_000_000_000;

/// The classes of operation that are limited apart from each other.
#[derive(Clone, Copy, Debug, PartialEq, Eq, Structural)]
pub enum LimiterClass {
    /// Reading: anything that changes nothing and is in no class below.
    Read,
    /// Writing rows, cells, permissions and the like.
    Write,
    /// Changing the make-up of a document: creating, changing or deleting
    /// documents and pages.
    WriteDocContent,
    /// Listing documents.
    ListDocs,
    /// Reading analytics.
    ReadAnalytics,
}

/// The quota of one token bucket.
#[derive(Clone, Copy, Debug, PartialEq, Eq)]
pub struct Quota {
    burst: u32,
    period_secs: u64,
}

impl Quota {
    /// Whether a bucket of `burst` tokens that refills over `period_secs`
    /// seconds can be had: there is a token to hold, the period is counted in
    /// nanoseconds within `u64`, and a token takes at least a nanosecond to
    /// regain.
    pub open spec fn valid(burst: u32, period_secs: u64) -> bool {
        &&& burst > 0
        &&& period_secs > 0
        &&& period_secs * NANOS_PER_SECOND <= u64::MAX
        &&& burst <= period_secs * NANOS_PER_SECOND
    }

    #[verifier::type_invariant]
    spec fn well_formed(self) -> bool {
        Self::valid(self.burst, self.period_secs)
    }

    /// How many tokens the bucket holds at most.
    pub closed spec fn burst_size(self) -> u32 {
        self.burst
    }

    /// Over how many seconds an empty bucket becomes full.
    pub closed spec fn period(self) -> u64 {
        self.period_secs
    }

    /// After how many nanoseconds an empty bucket has a token again.
    pub open spec fn replenish_interval(self) -> int {
        (self.period() * NANOS_PER_SECOND) / (self.burst_size() as int)
    }

    /// The quota of a bucket of `burst` tokens that refills over
    /// `period_secs` seconds, where there is such a bucket.
    pub fn new(burst: u32, period_secs: u64) -> (r: Option<Quota>)
        ensures
            r is Some <==> Self::valid(burst, period_secs),
            r matches Some(quota) ==> quota.burst_size() == burst && quota.period() == period_secs,
    {
        if burst == 0 || period_secs == 0 || period_secs > u64::MAX / NANOS_PER_SECOND {
            return None;
        }
        if burst as u64 > period_secs * NANOS_PER_SECOND {
            return None;
        }
        Some(Quota { burst, period_secs })
    }

    /// How many tokens the bucket holds at most.
    pub fn burst(&self) -> (r: u32)
        ensures
            r == self.burst_size(),
            r > 0,
    {
        proof {
            use_type_invariant(self);
        }
        self.burst
    }

    /// Over how many seconds an empty bucket becomes full.
    pub fn period_secs(&self) -> (r: u64)
        ensures
            r == self.period(),
            r > 0,
    {
        proof {
            use_type_invariant(self);
        }
        self.period_secs
    }

    /// After how many nanoseconds an empty bucket has a token again: the
    /// period shared out over the tokens, rounded down, and never zero. So a
    /// full burst is regained within the period, and within a nanosecond for
    /// each token of it.
    pub fn replenish_interval_nanos(&self) -> (r: u64)
        ensures
            r == self.replenish_interval(),
            r > 0,
            r * self.burst_size() <= self.period() * NANOS_PER_SECOND < (r + 1)
                * self.burst_size(),
    {
        proof {
            use_type_invariant(self);
            lemma_replenish_interval(self.burst, self.period_secs);
        }
        let period_nanos: u64 = self.period_secs * NANOS_PER_SECOND;
        period_nanos / (self.burst as u64)
    }
}

/// The time to regain one token is at least a nanosecond, and that time for
/// every token of a burst makes up the period, short of less than a
/// nanosecond for each token: the bucket regains `burst` tokens per period.
pub proof fn lemma_replenish_interval(burst: u32, period_secs: u64)
    requires
        Quota::valid(burst, period_secs),
    ensures
        (period_secs * NANOS_PER_SECOND) / (burst as int) >= 1,
        ((period_secs * NANOS_PER_SECOND) / (burst as int)) * burst <= period_secs
            * NANOS_PER_SECOND,
        period_secs * NANOS_PER_SECOND < ((period_secs * NANOS_PER_SECOND) / (burst as int) + 1)
            * burst,
{
    let period = period_secs * NANOS_PER_SECOND;
    let b = burst as int;
    vstd::arithmetic::div_mod::lemma_fundamental_div_mod(period as int, b);
    vstd::arithmetic::div_mod::lemma_mod_bound(period as int, b);
    assert(period == b * (period / b) + period % b);
    assert((period / b) * b == b * (period / b)) by (nonlinear_arith);
    assert((period / b + 1) * b == b * (period / b) + b) by (nonlinear_arith);
    assert(period / b >= 1) by (nonlinear_arith)
        requires
            0 < b <= period,
    ;
}

/// The quotas of the five buckets.
#[derive(Clone, Copy, Debug, PartialEq, Eq)]
pub struct Limiter {
    pub read: Quota,
    pub write: Quota,
    pub write_doc_content: Quota,
    pub list_docs: Quota,
    pub read_analytics: Quota,
}

/// The quota of `burst` tokens over `period_secs` seconds.
fn make_burst_quota(burst: u32, period_secs: u64) -> (r: Quota)
    requires
        Quota::valid(burst, period_secs),
    ensures
        r.burst_size() == burst,
        r.period() == period_secs,
{
    Quota::new(burst, period_secs).unwrap()
}

impl Limiter {
    /// The quota of the bucket of `class`.
    pub open spec fn quota_of(self, class: LimiterClass) -> Quota {
        match class {
            LimiterClass::Read => self.read,
            LimiterClass::Write => self.write,
            LimiterClass::WriteDocContent => self.write_doc_content,
            LimiterClass::ListDocs => self.list_docs,
            LimiterClass::ReadAnalytics => self.read_analytics,
        }
    }

    /// The quota of the bucket of `class`.
    pub fn quota(&self, class: LimiterClass) -> (r: Quota)
        ensures
            r == self.quota_of(class),
    {
        match class {
            LimiterClass::Read => self.read,
            LimiterClass::Write => self.write,
            LimiterClass::WriteDocContent => self.write_doc_content,
            LimiterClass::ListDocs => self.list_docs,
            LimiterClass::ReadAnalytics => self.read_analytics,
        }
    }
}

impl Default for Limiter {
    /// The quotas that the service publishes, each period longer by `BUFFER`:
    /// 100 reads in 7 seconds, 10 writes in 7 seconds, 5 changes to the
    /// make-up of documents in 11 seconds, 4 listings of documents in 7
    /// seconds, 100 reads of analytics in 7 seconds.
    fn default() -> (r: Self)
        ensures
            r.read.burst_size() == 100 && r.read.period() == 7,
            r.write.burst_size() == 10 && r.write.period() == 7,
            r.write_doc_content.burst_size() == 5 && r.write_doc_content.period() == 11,
            r.list_docs.burst_size() == 4 && r.list_docs.period() == 7,
            r.read_analytics.burst_size() == 100 && r.read_analytics.period() == 7,
    {
        let read = make_burst_quota(100, 6 + BUFFER);
        let write = make_burst_quota(10, 6 + BUFFER);
        let write_doc_content = make_burst_quota(5, 10 + BUFFER);
        let list_docs = make_burst_quota(4, 6 + BUFFER);
        let read_analytics = make_burst_quota(100, 6 + BUFFER);
        Self { read, write, write_doc_content, list_docs, read_analytics }
    }
}

} // verus!
