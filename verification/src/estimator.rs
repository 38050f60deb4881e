//! The Chunked Cost Estimator: minimal execution decomposes the outer
//! environment's own execution into bounded chunks, feeds every chunk
//! through a stateless costing pass, and accumulates the reported gas
//! figures into one running total. Chunking is purely a throughput/memory
//! decomposition: the chunk bound must not affect the accumulated total,
//! which is the invariance proved here.

use vstd::prelude::*;

verus! {

/// The sum of a sequence of gas figures.
pub open spec fn sum_of(costs: Seq<u64>) -> int
    decreases costs.len(),
{
    if costs.len() == 0 {
        0
    } else {
        sum_of(costs.drop_last()) + costs.last()
    }
}

/// Summing distributes over concatenation.
pub proof fn lemma_sum_concat(a: Seq<u64>, b: Seq<u64>)
    ensures
        sum_of(a + b) == sum_of(a) + sum_of(b),
    decreases b.len(),
{
    if b.len() == 0 {
        assert(a + b =~= a);
    } else {
        lemma_sum_concat(a, b.drop_last());
        assert((a + b).drop_last() =~= a + b.drop_last());
    }
}

/// A sum of unsigned figures is never negative.
pub proof fn lemma_sum_nonneg(costs: Seq<u64>)
    ensures
        sum_of(costs) >= 0,
    decreases costs.len(),
{
    if costs.len() > 0 {
        lemma_sum_nonneg(costs.drop_last());
    }
}

/// A prefix never sums to more than the whole.
pub proof fn lemma_sum_prefix_le(costs: Seq<u64>, i: int)
    requires
        0 <= i <= costs.len(),
    ensures
        sum_of(costs.take(i)) <= sum_of(costs),
{
    lemma_sum_concat(costs.take(i), costs.skip(i));
    assert(costs.take(i) + costs.skip(i) =~= costs);
    lemma_sum_nonneg(costs.skip(i));
}

/// The total obtained by cutting a trace into consecutive chunks of at most
/// `chunk` steps and summing chunk by chunk.
pub open spec fn chunked_total(costs: Seq<u64>, chunk: nat) -> int
    recommends
        chunk >= 1,
    decreases costs.len(),
{
    if costs.len() == 0 {
        0
    } else if chunk == 0 || costs.len() <= chunk {
        sum_of(costs)
    } else {
        sum_of(costs.take(chunk as int)) + chunked_total(costs.skip(chunk as int), chunk)
    }
}

/// Chunk-by-chunk accumulation reaches the plain sum of the whole trace.
pub proof fn lemma_chunked_total_is_sum(costs: Seq<u64>, chunk: nat)
    requires
        chunk >= 1,
    ensures
        chunked_total(costs, chunk) == sum_of(costs),
    decreases costs.len(),
{
    if costs.len() > chunk {
        lemma_chunked_total_is_sum(costs.skip(chunk as int), chunk);
        lemma_sum_concat(costs.take(chunk as int), costs.skip(chunk as int));
        assert(costs.take(chunk as int) + costs.skip(chunk as int) =~= costs);
    }
}

/// Chunking invariance: two decompositions of one trace, whatever their
/// chunk bounds, accumulate the same total.
pub proof fn lemma_chunking_invariance(costs: Seq<u64>, a: nat, b: nat)
    requires
        a >= 1,
        b >= 1,
    ensures
        chunked_total(costs, a) == chunked_total(costs, b),
{
    lemma_chunked_total_is_sum(costs, a);
    lemma_chunked_total_is_sum(costs, b);
}

/// Gas accounting failures of the estimator.
#[derive(Clone, Copy, Debug, PartialEq, Eq, Structural)]
pub enum EstimatorError {
    /// The running total cannot hold the next chunk's figure.
    GasOverflow,
}

/// The estimator's running state across one minimal execution: the
/// accumulated gas total, the number of chunks fed through the costing
/// pass, and whether the executor has reported completion.
pub struct ChunkedCostEstimator {
    total_gas: u64,
    chunks: u64,
    done: bool,
}

impl ChunkedCostEstimator {
    /// The gas accumulated so far.
    pub closed spec fn total_gas(self) -> u64 {
        self.total_gas
    }

    /// How many chunks were accumulated so far.
    pub closed spec fn chunks(self) -> u64 {
        self.chunks
    }

    /// Whether the executor has reported completion.
    pub closed spec fn done(self) -> bool {
        self.done
    }

    /// A fresh estimator: nothing accumulated, not done.
    pub fn new() -> (e: Self)
        ensures
            e.total_gas() == 0,
            e.chunks() == 0,
            !e.done(),
    {
        ChunkedCostEstimator { total_gas: 0, chunks: 0, done: false }
    }

    /// Reads the accumulated total.
    pub fn current_total(&self) -> (g: u64)
        ensures
            g == self.total_gas(),
    {
        self.total_gas
    }

    /// Reads the number of chunks accumulated.
    pub fn chunk_count(&self) -> (n: u64)
        ensures
            n == self.chunks(),
    {
        self.chunks
    }

    /// Whether the executor has reported completion.
    pub fn is_done(&self) -> (d: bool)
        ensures
            d == self.done(),
    {
        self.done
    }

    /// Accumulates one chunk's gas figure, recording whether the executor
    /// reported completion with it. Fails — leaving the state unchanged —
    /// exactly when the running total cannot hold the figure.
    pub fn record_chunk(&mut self, chunk_gas: u64, finished: bool) -> (r: Result<
        (),
        EstimatorError,
    >)
        requires
            !old(self).done(),
            old(self).chunks() < u64::MAX,
        ensures
            r.is_ok() <==> old(self).total_gas() + chunk_gas <= u64::MAX,
            r.is_ok() ==> final(self).total_gas() == old(self).total_gas() + chunk_gas
                && final(self).chunks() == old(self).chunks() + 1 && final(self).done()
                == finished,
            r.is_err() ==> *final(self) == *old(self),
    {
        if chunk_gas <= u64::MAX - self.total_gas {
            self.total_gas = self.total_gas + chunk_gas;
            self.chunks = self.chunks + 1;
            self.done = finished;
            Ok(())
        } else {
            Err(EstimatorError::GasOverflow)
        }
    }
}

/// One whole minimal-execution accounting pass: cut the per-step gas
/// figures of the outer environment's execution into consecutive chunks of
/// `chunk_size` steps, sum each chunk, and accumulate chunk by chunk.
/// Succeeds exactly when the whole trace's gas fits the accumulator, and
/// then returns the plain sum of every step: the chunk bound never shows in
/// the result.
pub fn estimate_in_chunks(steps: &Vec<u64>, chunk_size: usize) -> (r: Result<u64, EstimatorError>)
    requires
        chunk_size >= 1,
    ensures
        r.is_ok() <==> sum_of(steps@) <= u64::MAX,
        r matches Ok(total) ==> total == sum_of(steps@),
        r matches Ok(total) ==> total == chunked_total(steps@, chunk_size as nat),
{
    let mut est = ChunkedCostEstimator::new();
    let mut i: usize = 0;
    proof {
        assert(steps@.take(0) =~= Seq::<u64>::empty());
    }
    while i < steps.len()
        invariant
            chunk_size >= 1,
            i <= steps@.len(),
            est.chunks() <= i,
            i < steps@.len() ==> !est.done(),
            est.total_gas() == sum_of(steps@.take(i as int)),
        decreases steps@.len() - i,
    {
        let end = if steps.len() - i < chunk_size {
            steps.len()
        } else {
            i + chunk_size
        };
        let ghost i0 = i as int;
        let mut chunk_gas: u64 = 0;
        let mut j: usize = i;
        proof {
            assert(steps@.subrange(i0, i0) =~= Seq::<u64>::empty());
        }
        while j < end
            invariant
                i0 <= j <= end <= steps@.len(),
                0 <= i0 <= j,
                chunk_gas == sum_of(steps@.subrange(i0, j as int)),
                est.total_gas() == sum_of(steps@.take(i0)),
            decreases end - j,
        {
            let c = steps[j];
            proof {
                assert(steps@.subrange(i0, j as int + 1).drop_last() =~= steps@.subrange(
                    i0,
                    j as int,
                ));
                assert(steps@.subrange(i0, j as int + 1).last() == steps@[j as int]);
            }
            if chunk_gas > u64::MAX - c {
                proof {
                    lemma_sum_concat(steps@.take(i0), steps@.subrange(i0, j as int + 1));
                    assert(steps@.take(i0) + steps@.subrange(i0, j as int + 1) =~= steps@.take(
                        j as int + 1,
                    ));
                    lemma_sum_nonneg(steps@.take(i0));
                    lemma_sum_prefix_le(steps@, j as int + 1);
                }
                return Err(EstimatorError::GasOverflow);
            }
            chunk_gas = chunk_gas + c;
            j = j + 1;
        }
        let finished = end == steps.len();
        proof {
            lemma_sum_concat(steps@.take(i0), steps@.subrange(i0, end as int));
            assert(steps@.take(i0) + steps@.subrange(i0, end as int) =~= steps@.take(end as int));
        }
        match est.record_chunk(chunk_gas, finished) {
            Ok(_) => {},
            Err(e) => {
                proof {
                    lemma_sum_prefix_le(steps@, end as int);
                }
                return Err(e);
            },
        }
        i = end;
    }
    proof {
        assert(steps@.take(steps@.len() as int) =~= steps@);
        lemma_chunked_total_is_sum(steps@, chunk_size as nat);
    }
    Ok(est.current_total())
}

} // verus!
