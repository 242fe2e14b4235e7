//! The hot loop's private running count and its publish policy.
use vstd::prelude::*;

verus! {

/// Number of operations between two stores of the running count into the
/// shared counter. A power of two, so the boundary test is a mask.
pub const PUBLISH_THRESHOLD: u64 = 1024;

/// `PUBLISH_THRESHOLD - 1`.
pub const PUBLISH_MASK: u64 = 0x3FF;

/// The last batch boundary at or below `n`: what the shared counter holds
/// after `n` counted operations, when only boundaries are published.
pub open spec fn boundary_below(n: nat) -> nat {
    (n - n % (PUBLISH_THRESHOLD as nat)) as nat
}

/// Mathematical view of a [`LocalAccumulator`].
pub struct AccumulatorView {
    pub count: nat,
    pub published: nat,
}

/// The accumulator after one more counted operation.
pub open spec fn record_step(a: AccumulatorView) -> AccumulatorView {
    let n = a.count + 1;
    AccumulatorView {
        count: n,
        published: if n % (PUBLISH_THRESHOLD as nat) == 0 { n } else { a.published },
    }
}

/// The accumulator after `k` more counted operations.
pub open spec fn record_steps(a: AccumulatorView, k: nat) -> AccumulatorView
    decreases k,
{
    if k == 0 {
        a
    } else {
        record_step(record_steps(a, (k - 1) as nat))
    }
}

/// A count of operations performed by one hot loop, and the value it last
/// handed out for publishing.
pub struct LocalAccumulator {
    count: u64,
    published: u64,
}

impl View for LocalAccumulator {
    type V = AccumulatorView;

    closed spec fn view(&self) -> AccumulatorView {
        AccumulatorView { count: self.count as nat, published: self.published as nat }
    }
}

impl LocalAccumulator {
    /// The published value never exceeds the count and trails it by less
    /// than one batch.
    pub open spec fn wf(&self) -> bool {
        &&& self@.published <= self@.count
        &&& boundary_below(self@.count) <= self@.published
    }

    pub fn new() -> (r: LocalAccumulator)
        ensures
            r.wf(),
            r@ == (AccumulatorView { count: 0, published: 0 }),
    {
        LocalAccumulator { count: 0, published: 0 }
    }

    /// Operations counted so far.
    pub fn count(&self) -> (r: u64)
        ensures
            r == self@.count,
    {
        self.count
    }

    /// The value last handed out for publishing.
    pub fn published(&self) -> (r: u64)
        ensures
            r == self@.published,
    {
        self.published
    }

    /// Counts one operation. Returns the new running count when it lands on a
    /// batch boundary (the value to store into the shared counter), else
    /// `None`.
    pub fn record(&mut self) -> (r: Option<u64>)
        requires
            old(self).wf(),
            old(self)@.count < u64::MAX,
        ensures
            final(self).wf(),
            final(self)@ == record_step(old(self)@),
            final(self)@.count % (PUBLISH_THRESHOLD as nat) == 0 ==> r == Some(
                final(self)@.count as u64,
            ),
            final(self)@.count % (PUBLISH_THRESHOLD as nat) != 0 ==> r is None,
    {
        self.count = self.count + 1;
        let n = self.count;
        assert(n & PUBLISH_MASK == n % 1024) by (bit_vector);
        if n & PUBLISH_MASK == 0 {
            self.published = n;
            Some(n)
        } else {
            proof {
                let old_n = (n - 1) as nat;
                assert(old_n % 1024 + 1 == n as nat % 1024);
            }
            None
        }
    }

    /// Hands out the whole running count for publishing, boundary or not.
    /// The hot loop does not call this on exit: its remainder is left
    /// unpublished on purpose.
    pub fn force_publish(&mut self) -> (r: u64)
        requires
            old(self).wf(),
        ensures
            final(self).wf(),
            final(self)@ == (AccumulatorView { count: old(self)@.count, published: old(self)@.count }),
            r == old(self)@.count,
    {
        self.published = self.count;
        self.count
    }
}

/// After any number of counted operations from a fresh accumulator, the
/// published value is the last batch boundary reached, less than one batch
/// behind the true count; a final forced publish then gives exactly the
/// count, with nothing counted twice or lost.
pub proof fn lemma_publish_counts_all(n: nat)
    ensures
        record_steps(AccumulatorView { count: 0, published: 0 }, n).count == n,
        record_steps(AccumulatorView { count: 0, published: 0 }, n).published == boundary_below(n),
        n - boundary_below(n) < PUBLISH_THRESHOLD,
    decreases n,
{
    if n > 0 {
        lemma_publish_counts_all((n - 1) as nat);
        let m = (n - 1) as nat;
        assert(m % 1024 + 1 == n % 1024 || n % 1024 == 0);
    }
}

} // verus!
