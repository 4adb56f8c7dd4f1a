//! Timestamped byte observations and the per-endpoint buffer that carries
//! them from a downloader to the aggregator.

use vstd::prelude::*;

verus! {

/// One observation: `byte_count` bytes arrived from endpoint
/// `endpoint_index` at `timestamp` (milliseconds).
#[derive(Clone, Copy, Debug, PartialEq, Eq, Structural)]
pub struct Sample {
    pub endpoint_index: usize,
    pub timestamp: u128,
    pub byte_count: u64,
}

/// The sum of the byte counts of `samples`.
pub open spec fn total_bytes(samples: Seq<Sample>) -> nat
    decreases samples.len(),
{
    if samples.len() == 0 {
        0
    } else {
        total_bytes(samples.drop_last()) + samples.last().byte_count as nat
    }
}

/// The total of a concatenation is the sum of the totals.
pub proof fn lemma_total_bytes_concat(a: Seq<Sample>, b: Seq<Sample>)
    ensures
        total_bytes(a + b) == total_bytes(a) + total_bytes(b),
    decreases b.len(),
{
    if b.len() == 0 {
        assert(a + b =~= a);
    } else {
        lemma_total_bytes_concat(a, b.drop_last());
        assert((a + b).drop_last() =~= a + b.drop_last());
        assert((a + b).last() == b.last());
    }
}

/// Taking one sample out lowers the total by its byte count.
pub proof fn lemma_total_bytes_remove(samples: Seq<Sample>, i: int)
    requires
        0 <= i < samples.len(),
    ensures
        total_bytes(samples) == total_bytes(samples.remove(i)) + samples[i].byte_count,
{
    let left = samples.subrange(0, i);
    let one = seq![samples[i]];
    let right = samples.subrange(i + 1, samples.len() as int);
    assert(samples =~= left + one + right);
    assert(samples.remove(i) =~= left + right);
    assert(one.drop_last() =~= Seq::<Sample>::empty());
    assert(total_bytes(Seq::<Sample>::empty()) == 0);
    assert(total_bytes(one) == samples[i].byte_count);
    lemma_total_bytes_concat(left, one);
    lemma_total_bytes_concat(left + one, right);
    lemma_total_bytes_concat(left, right);
}

/// The total does not depend on the order of the samples.
pub proof fn lemma_total_bytes_permutation(a: Seq<Sample>, b: Seq<Sample>)
    requires
        a.to_multiset() == b.to_multiset(),
    ensures
        total_bytes(a) == total_bytes(b),
    decreases a.len(),
{
    vstd::seq_lib::to_multiset_len(a);
    vstd::seq_lib::to_multiset_len(b);
    if a.len() > 0 {
        let last = a.last();
        let i = a.len() - 1;
        assert(a[i] == last);
        assert(a.contains(last));
        vstd::seq_lib::to_multiset_contains(a, last);
        vstd::seq_lib::to_multiset_contains(b, last);
        let j = choose|j: int| 0 <= j < b.len() && b[j] == last;
        vstd::seq_lib::to_multiset_remove(a, i);
        vstd::seq_lib::to_multiset_remove(b, j);
        assert(a.remove(i) =~= a.drop_last());
        lemma_total_bytes_permutation(a.drop_last(), b.remove(j));
        lemma_total_bytes_remove(b, j);
    }
}

/// Sums the byte counts of `samples`.
pub fn sum_bytes(samples: &Vec<Sample>) -> (total: u128)
    ensures
        total == total_bytes(samples@),
{
    let mut total: u128 = 0;
    let mut i: usize = 0;
    while i < samples.len()
        invariant
            i <= samples.len(),
            total == total_bytes(samples@.take(i as int)),
            total <= i * u64::MAX,
        decreases samples.len() - i,
    {
        proof {
            assert(samples@.take(i + 1).drop_last() =~= samples@.take(i as int));
            assert(i * u64::MAX + u64::MAX == (i + 1) * u64::MAX) by (nonlinear_arith);
            assert(i * u64::MAX <= usize::MAX * u64::MAX) by (nonlinear_arith)
                requires
                    i <= usize::MAX,
            ;
        }
        total = total + samples[i].byte_count as u128;
        i = i + 1;
    }
    proof {
        assert(samples@.take(i as int) =~= samples@);
    }
    total
}

/// The samples of one endpoint, in arrival order.
///
/// A downloader appends; the aggregator takes everything at once. The
/// caller guards each buffer with its own lock, so a drain is one swap
/// under that lock and never sees half of an append.
pub struct SampleBuffer {
    samples: Vec<Sample>,
}

impl View for SampleBuffer {
    type V = Seq<Sample>;

    closed spec fn view(&self) -> Seq<Sample> {
        self.samples@
    }
}

impl SampleBuffer {
    /// An empty buffer.
    pub fn new() -> (buffer: SampleBuffer)
        ensures
            buffer@ == Seq::<Sample>::empty(),
    {
        SampleBuffer { samples: Vec::new() }
    }

    /// The number of samples waiting to be drained.
    pub fn len(&self) -> (n: usize)
        ensures
            n == self@.len(),
    {
        self.samples.len()
    }

    /// Whether nothing waits to be drained.
    pub fn is_empty(&self) -> (empty: bool)
        ensures
            empty == (self@.len() == 0),
    {
        self.samples.len() == 0
    }

    /// Adds `sample` behind everything already held.
    pub fn append(&mut self, sample: Sample)
        ensures
            final(self)@ == old(self)@.push(sample),
    {
        self.samples.push(sample);
    }

    /// Takes every sample appended since the previous drain, in arrival
    /// order, and leaves the buffer empty.
    pub fn drain_all(&mut self) -> (drained: Vec<Sample>)
        ensures
            drained@ == old(self)@,
            final(self)@ == Seq::<Sample>::empty(),
    {
        let mut drained: Vec<Sample> = Vec::new();
        std::mem::swap(&mut self.samples, &mut drained);
        drained
    }
}

/// One operation on a buffer.
pub enum BufferOp {
    Append(Sample),
    Drain,
}

/// What a run of operations on a fresh buffer has done so far.
pub struct BufferTrace {
    /// What the buffer holds.
    pub held: Seq<Sample>,
    /// Everything the drains have returned, in order.
    pub drained: Seq<Sample>,
    /// Everything that was appended, in order.
    pub appended: Seq<Sample>,
}

/// The trace of `ops` applied in order to an empty buffer: an append does
/// what [`SampleBuffer::append`] ensures, a drain what
/// [`SampleBuffer::drain_all`] ensures.
pub open spec fn run_ops(ops: Seq<BufferOp>) -> BufferTrace
    decreases ops.len(),
{
    if ops.len() == 0 {
        BufferTrace { held: Seq::empty(), drained: Seq::empty(), appended: Seq::empty() }
    } else {
        let before = run_ops(ops.drop_last());
        match ops.last() {
            BufferOp::Append(sample) => BufferTrace {
                held: before.held.push(sample),
                drained: before.drained,
                appended: before.appended.push(sample),
            },
            BufferOp::Drain => BufferTrace {
                held: Seq::empty(),
                drained: before.drained + before.held,
                appended: before.appended,
            },
        }
    }
}

/// Nothing is lost, nothing is returned twice, and order is kept: after any
/// interleaving of appends and drains, what the drains returned followed by
/// what the buffer still holds is exactly what was appended.
pub proof fn lemma_drains_return_appends(ops: Seq<BufferOp>)
    ensures
        run_ops(ops).drained + run_ops(ops).held == run_ops(ops).appended,
        run_ops(ops).drained.to_multiset().add(run_ops(ops).held.to_multiset())
            == run_ops(ops).appended.to_multiset(),
    decreases ops.len(),
{
    let now = run_ops(ops);
    if ops.len() == 0 {
        assert(now.drained + now.held =~= now.appended);
    } else {
        let before = run_ops(ops.drop_last());
        lemma_drains_return_appends(ops.drop_last());
        match ops.last() {
            BufferOp::Append(sample) => {
                assert(now.drained + now.held =~= (before.drained + before.held).push(sample));
            },
            BufferOp::Drain => {
                assert(now.drained + now.held =~= before.drained + before.held);
            },
        }
    }
    vstd::seq_lib::lemma_multiset_commutative(now.drained, now.held);
}

/// Once a run ends with a drain, the multiset of samples that the drains
/// returned equals the multiset of samples that were appended.
pub proof fn lemma_drained_multiset_equals_appended(ops: Seq<BufferOp>)
    requires
        ops.len() > 0,
        ops.last() == BufferOp::Drain,
    ensures
        run_ops(ops).held == Seq::<Sample>::empty(),
        run_ops(ops).drained == run_ops(ops).appended,
        run_ops(ops).drained.to_multiset() == run_ops(ops).appended.to_multiset(),
{
    lemma_drains_return_appends(ops);
    assert(run_ops(ops).drained + Seq::<Sample>::empty() =~= run_ops(ops).drained);
}

} // verus!
