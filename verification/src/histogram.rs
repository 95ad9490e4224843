//! The in-memory histogram set: bucketed counters together with a running
//! total of recorded samples. The structure is kept self-consistent — the
//! total always equals the sum of the bucket counts — which is exactly what
//! makes every persisted snapshot readable without torn data.

use vstd::prelude::*;

verus! {

/// Sum of a sequence of bucket counts, as a mathematical integer.
pub open spec fn bucket_sum(s: Seq<u64>) -> int
    decreases s.len(),
{
    if s.len() == 0 {
        0
    } else {
        bucket_sum(s.drop_last()) + s.last()
    }
}

pub proof fn lemma_bucket_sum_nonneg(s: Seq<u64>)
    ensures
        bucket_sum(s) >= 0,
    decreases s.len(),
{
    if s.len() > 0 {
        lemma_bucket_sum_nonneg(s.drop_last());
    }
}

/// Each bucket count is bounded by the sum of all of them.
pub proof fn lemma_bucket_sum_bound(s: Seq<u64>, i: int)
    requires
        0 <= i < s.len(),
    ensures
        s[i] <= bucket_sum(s),
    decreases s.len(),
{
    if i == s.len() - 1 {
        lemma_bucket_sum_nonneg(s.drop_last());
    } else {
        lemma_bucket_sum_bound(s.drop_last(), i);
    }
}

/// Replacing one bucket shifts the sum by exactly the difference.
pub proof fn lemma_bucket_sum_update(s: Seq<u64>, i: int, v: u64)
    requires
        0 <= i < s.len(),
    ensures
        bucket_sum(s.update(i, v)) == bucket_sum(s) - s[i] + v,
    decreases s.len(),
{
    let su = s.update(i, v);
    if i == s.len() - 1 {
        assert(su.drop_last() =~= s.drop_last());
    } else {
        assert(su.drop_last() =~= s.drop_last().update(i, v));
        lemma_bucket_sum_update(s.drop_last(), i, v);
    }
}

pub proof fn lemma_bucket_sum_zero(s: Seq<u64>)
    requires
        forall|j: int| 0 <= j < s.len() ==> s[j] == 0,
    ensures
        bucket_sum(s) == 0,
    decreases s.len(),
{
    if s.len() > 0 {
        lemma_bucket_sum_zero(s.drop_last());
    }
}

/// Extending a prefix by one element adds that element to its sum.
pub proof fn lemma_bucket_sum_take_succ(s: Seq<u64>, i: int)
    requires
        0 <= i < s.len(),
    ensures
        bucket_sum(s.take(i + 1)) == bucket_sum(s.take(i)) + s[i],
{
    assert(s.take(i + 1).drop_last() =~= s.take(i));
    assert(s.take(i + 1).last() == s[i]);
}

/// The sum of a prefix never exceeds the sum of the whole sequence.
pub proof fn lemma_bucket_sum_take_le(s: Seq<u64>, i: int)
    requires
        0 <= i <= s.len(),
    ensures
        bucket_sum(s.take(i)) <= bucket_sum(s),
    decreases s.len() - i,
{
    if i == s.len() {
        assert(s.take(i) =~= s);
    } else {
        lemma_bucket_sum_take_succ(s, i);
        lemma_bucket_sum_take_le(s, i + 1);
    }
}

/// Bucket counts after one recorded sample: an in-range bucket is
/// incremented while the running total still has room; otherwise the
/// sample is refused and nothing changes.
pub open spec fn counts_after_record(c: Seq<u64>, bucket: int, total: u64) -> Seq<u64> {
    if 0 <= bucket < c.len() && total < u64::MAX {
        c.update(bucket, (c[bucket] + 1) as u64)
    } else {
        c
    }
}

/// The running total after one recorded sample.
pub open spec fn total_after_record(c: Seq<u64>, bucket: int, total: u64) -> u64 {
    if 0 <= bucket < c.len() && total < u64::MAX {
        (total + 1) as u64
    } else {
        total
    }
}

/// Folds a whole run of recorded samples over a histogram state, yielding
/// the final bucket counts and running total.
pub open spec fn apply_records(c: Seq<u64>, total: u64, samples: Seq<int>) -> (Seq<u64>, u64)
    decreases samples.len(),
{
    if samples.len() == 0 {
        (c, total)
    } else {
        let prev = apply_records(c, total, samples.drop_last());
        (
            counts_after_record(prev.0, samples.last(), prev.1),
            total_after_record(prev.0, samples.last(), prev.1),
        )
    }
}

/// An in-memory histogram set: a fixed number of bucketed counters plus the
/// running number of samples recorded into them.
pub struct HistogramSet {
    buckets: Vec<u64>,
    total: u64,
}

impl HistogramSet {
    /// The per-bucket counts.
    pub closed spec fn counts(self) -> Seq<u64> {
        self.buckets@
    }

    /// The running number of recorded samples.
    pub closed spec fn total(self) -> u64 {
        self.total
    }

    /// Self-consistency: the recorded total equals the sum of the buckets.
    pub open spec fn wf(self) -> bool {
        self.total() == bucket_sum(self.counts())
    }

    /// A fresh histogram set with the given number of empty buckets.
    pub fn new(bucket_count: usize) -> (h: HistogramSet)
        ensures
            h.wf(),
            h.counts().len() == bucket_count,
            forall|j: int| 0 <= j < bucket_count ==> h.counts()[j] == 0,
            h.total() == 0,
    {
        let mut buckets: Vec<u64> = Vec::new();
        let mut i: usize = 0;
        while i < bucket_count
            invariant
                i <= bucket_count,
                buckets@.len() == i as int,
                forall|j: int| 0 <= j < i as int ==> buckets@[j] == 0,
            decreases bucket_count - i,
        {
            buckets.push(0u64);
            i = i + 1;
        }
        proof {
            lemma_bucket_sum_zero(buckets@);
        }
        HistogramSet { buckets, total: 0u64 }
    }

    /// Rebuilds a histogram set from raw bucket counts read back from
    /// storage, computing the running total they imply. Refused when the
    /// counts sum beyond what a total can hold — corrupt data never
    /// becomes an inconsistent histogram.
    pub fn from_counts(buckets: Vec<u64>) -> (r: Option<HistogramSet>)
        ensures
            match r {
                Some(h) => h.wf() && h.counts() == buckets@ && h.total() == bucket_sum(
                    buckets@,
                ),
                None => bucket_sum(buckets@) > u64::MAX,
            },
    {
        let n = buckets.len();
        let mut acc: u64 = 0;
        let mut i: usize = 0;
        while i < n
            invariant
                i <= n,
                n == buckets@.len(),
                acc == bucket_sum(buckets@.take(i as int)),
            decreases n - i,
        {
            let v = buckets[i];
            proof {
                lemma_bucket_sum_take_succ(buckets@, i as int);
            }
            if acc > u64::MAX - v {
                proof {
                    lemma_bucket_sum_take_le(buckets@, i as int + 1);
                }
                return None;
            }
            acc = acc + v;
            i = i + 1;
        }
        proof {
            assert(buckets@.take(n as int) =~= buckets@);
        }
        Some(HistogramSet { buckets, total: acc })
    }

    /// Records one sample into the given bucket. The sample is accepted
    /// exactly when the bucket exists and the running total has room.
    pub fn record(&mut self, bucket: usize) -> (ok: bool)
        requires
            old(self).wf(),
        ensures
            final(self).wf(),
            ok == (bucket < old(self).counts().len() && old(self).total() < u64::MAX),
            final(self).counts() == counts_after_record(
                old(self).counts(), bucket as int, old(self).total()),
            final(self).total() == total_after_record(
                old(self).counts(), bucket as int, old(self).total()),
    {
        if bucket < self.buckets.len() && self.total < u64::MAX {
            proof {
                lemma_bucket_sum_bound(self.buckets@, bucket as int);
            }
            let v = self.buckets[bucket];
            self.buckets.set(bucket, v + 1);
            self.total = self.total + 1;
            proof {
                lemma_bucket_sum_update(old(self).buckets@, bucket as int, (v + 1) as u64);
            }
            true
        } else {
            false
        }
    }

    /// Empties every bucket and zeroes the running total.
    pub fn reset(&mut self)
        ensures
            final(self).wf(),
            final(self).counts().len() == old(self).counts().len(),
            forall|j: int| 0 <= j < final(self).counts().len() ==> final(self).counts()[j] == 0,
            final(self).total() == 0,
    {
        let n = self.buckets.len();
        let mut i: usize = 0;
        while i < n
            invariant
                i <= n,
                self.buckets@.len() == n as int,
                forall|j: int| 0 <= j < i as int ==> self.buckets@[j] == 0,
            decreases n - i,
        {
            self.buckets.set(i, 0u64);
            i = i + 1;
        }
        self.total = 0;
        proof {
            lemma_bucket_sum_zero(self.buckets@);
        }
    }

    /// A fully independent copy of the current contents.
    pub fn snapshot(&self) -> (h: HistogramSet)
        ensures
            h.counts() == self.counts(),
            h.total() == self.total(),
    {
        let buckets = self.buckets.clone();
        proof {
            assert forall|j: int| 0 <= j < self.buckets@.len() implies buckets@[j]
                == self.buckets@[j] by {
                assert(cloned::<u64>(self.buckets@[j], buckets@[j]));
            }
            assert(buckets@ =~= self.buckets@);
        }
        HistogramSet { buckets, total: self.total }
    }

    /// Runtime validation that the recorded total matches the buckets —
    /// the check a warm restore applies to data read back from storage.
    pub fn check_consistent(&self) -> (r: bool)
        ensures
            r == self.wf(),
    {
        let n = self.buckets.len();
        let mut acc: u64 = 0;
        let mut i: usize = 0;
        while i < n
            invariant
                i <= n,
                n == self.buckets@.len(),
                acc == bucket_sum(self.buckets@.take(i as int)),
            decreases n - i,
        {
            let v = self.buckets[i];
            proof {
                lemma_bucket_sum_take_succ(self.buckets@, i as int);
            }
            if acc > u64::MAX - v {
                proof {
                    lemma_bucket_sum_take_le(self.buckets@, i as int + 1);
                }
                return false;
            }
            acc = acc + v;
            i = i + 1;
        }
        proof {
            assert(self.buckets@.take(n as int) =~= self.buckets@);
        }
        acc == self.total
    }

    pub fn bucket_count(&self) -> (n: usize)
        ensures
            n == self.counts().len(),
    {
        self.buckets.len()
    }

    pub fn total_count(&self) -> (t: u64)
        ensures
            t == self.total(),
    {
        self.total
    }

    /// The count held in one bucket, or `None` for a bucket that does not
    /// exist.
    pub fn bucket_value(&self, bucket: usize) -> (v: Option<u64>)
        ensures
            match v {
                Some(c) => bucket < self.counts().len() && c == self.counts()[bucket as int],
                None => bucket >= self.counts().len(),
            },
    {
        if bucket < self.buckets.len() {
            Some(self.buckets[bucket])
        } else {
            None
        }
    }

    pub fn is_empty(&self) -> (e: bool)
        ensures
            e == (self.total() == 0),
    {
        self.total == 0
    }
}

} // verus!
