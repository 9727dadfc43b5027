//! The worker pool: how one pass is cut into slices, what a worker returns
//! for its slice, and how the workers' results become the pass's result.
//!
//! A pass over `n` samples is cut into [`WORKER_THREADS`] slices of `n /
//! WORKER_THREADS` samples each.  The division truncates, so the last `n %
//! WORKER_THREADS` samples belong to no slice and are never evaluated.
//! Each worker keeps, in order, the samples of its slice that are drawn;
//! the pass's result is the workers' results one after the other, in the
//! order of the slices.

use vstd::prelude::*;
use crate::escape::{calc_mandelbrot_point, evaluated};
use crate::point::{Sample, VirtualPoint};

verus! {

/// The number of slices a pass is cut into.
pub const WORKER_THREADS: u32 = 10;

/// The number of items in every slice of a pass over `len` items.
pub open spec fn slice_len(len: int) -> int {
    len / (WORKER_THREADS as int)
}

/// The index at which slice `block` begins.
pub open spec fn slice_start(len: int, block: int) -> int {
    slice_len(len) * block
}

/// The index just behind slice `block`.
pub open spec fn slice_end(len: int, block: int) -> int {
    slice_len(len) * (block + 1)
}

/// The number of leading items that belong to some slice.
pub open spec fn covered_len(len: int) -> int {
    slice_len(len) * (WORKER_THREADS as int)
}

/// Slice `block` of `items`.
pub open spec fn worker_slice_of<T>(items: Seq<T>, block: int) -> Seq<T> {
    items.subrange(slice_start(items.len() as int, block), slice_end(items.len() as int, block))
}

/// The evaluator, as a function of a sample.
pub open spec fn evaluator() -> spec_fn(Sample) -> Option<VirtualPoint> {
    |s: Sample| evaluated(s.point, s.escape_count as int)
}

/// The drawn points among `samples`, each in its colour, in the order of
/// the samples.  This is what evaluating them one after the other gives.
pub open spec fn survivors(samples: Seq<Sample>) -> Seq<VirtualPoint> {
    samples.filter_map(evaluator())
}

/// What each worker of a pass over `samples` returns, by slice.
pub open spec fn worker_results(samples: Seq<Sample>) -> Seq<Seq<VirtualPoint>> {
    Seq::new(WORKER_THREADS as nat, |block: int| survivors(worker_slice_of(samples, block)))
}

/// What a pass over `samples` returns.
pub open spec fn pool_survivors(samples: Seq<Sample>) -> Seq<VirtualPoint> {
    worker_results(samples).flatten()
}

/// Slices lie inside the items, one behind the other, and together they
/// are the first `covered_len` items, which are all but the last `len %
/// WORKER_THREADS`.
pub proof fn lemma_slice_bounds(len: int, block: int)
    requires
        0 <= len,
        0 <= block < WORKER_THREADS,
    ensures
        0 <= slice_start(len, block) <= slice_end(len, block) <= covered_len(len) <= len,
        slice_end(len, block) - slice_start(len, block) == slice_len(len),
        slice_start(len, block + 1) == slice_end(len, block),
        slice_start(len, 0) == 0,
        slice_end(len, WORKER_THREADS - 1) == covered_len(len),
        covered_len(len) == len - len % (WORKER_THREADS as int),
        0 <= len - covered_len(len) < WORKER_THREADS,
{
    let q = slice_len(len);
    assert(0 <= q * block <= q * (block + 1) <= q * 10) by (nonlinear_arith)
        requires
            0 <= q,
            0 <= block < 10,
    ;
    assert(q * (block + 1) - q * block == q) by (nonlinear_arith);
}

/// The bounds of slice `block` in a pass over `len` items.
pub fn slice_range(len: usize, block: u32) -> (range: (usize, usize))
    requires
        block < WORKER_THREADS,
    ensures
        range.0 == slice_start(len as int, block as int),
        range.1 == slice_end(len as int, block as int),
        range.0 <= range.1 <= len,
{
    proof {
        lemma_slice_bounds(len as int, block as int);
    }
    let each: usize = len / (WORKER_THREADS as usize);
    (each * (block as usize), each * ((block + 1) as usize))
}

/// Copies slice `block` out of `items`.
pub fn worker_slice<T: Copy>(items: &Vec<T>, block: u32) -> (subset: Vec<T>)
    requires
        block < WORKER_THREADS,
    ensures
        subset@ == worker_slice_of(items@, block as int),
{
    let (start_range, end_range) = slice_range(items.len(), block);
    let mut subset: Vec<T> = Vec::new();
    let mut index: usize = start_range;
    while index < end_range
        invariant
            start_range <= index <= end_range <= items.len(),
            subset@ == items@.subrange(start_range as int, index as int),
        decreases end_range - index,
    {
        subset.push(items[index]);
        index += 1;
    }
    subset
}

/// Appending samples appends their survivors.
pub proof fn lemma_survivors_concat(a: Seq<Sample>, b: Seq<Sample>)
    ensures
        survivors(a + b) == survivors(a) + survivors(b),
    decreases b.len(),
{
    if b.len() == 0 {
        assert(a + b =~= a);
    } else {
        lemma_survivors_concat(a, b.drop_last());
        assert((a + b).drop_last() =~= a + b.drop_last());
        assert((a + b).last() == b.last());
    }
}

/// One worker: evaluates the samples of its slice in order and keeps the
/// points that are drawn.
pub fn calc_mandelbrot_worker(samples: Vec<Sample>) -> (results: Vec<VirtualPoint>)
    ensures
        results@ == survivors(samples@),
{
    let mut results: Vec<VirtualPoint> = Vec::new();
    let mut index: usize = 0;
    while index < samples.len()
        invariant
            index <= samples.len(),
            results@ == survivors(samples@.take(index as int)),
        decreases samples.len() - index,
    {
        let sample: Sample = samples[index];
        proof {
            samples@.lemma_filter_map_take_succ(evaluator(), index as int);
        }
        match calc_mandelbrot_point(&sample.point, sample.escape_count) {
            Some(calc_point) => results.push(calc_point),
            None => (),
        }
        index += 1;
    }
    assert(samples@.take(samples.len() as int) =~= samples@);
    results
}

/// A worker that did not complete: it panicked or was aborted.
#[derive(Clone, Copy, Debug, PartialEq, Eq)]
pub struct WorkerFailure;

/// Whether every worker of a pass completed.
pub open spec fn all_completed(outcomes: Seq<Option<Vec<VirtualPoint>>>) -> bool {
    forall|block: int| 0 <= block < outcomes.len() ==> (#[trigger] outcomes[block]) is Some
}

/// The workers' results as sequences, by slice; empty for a worker that
/// did not complete.
pub open spec fn completed_results(outcomes: Seq<Option<Vec<VirtualPoint>>>) -> Seq<
    Seq<VirtualPoint>,
> {
    Seq::new(
        outcomes.len(),
        |block: int|
            match outcomes[block] {
                Some(points) => points@,
                None => Seq::empty(),
            },
    )
}

/// Puts the workers' results together once all of them have been waited
/// for.  `outcomes[block]` is the result of the worker of slice `block`,
/// or `None` if that worker did not complete.
///
/// One worker that did not complete fails the whole pass: no part of the
/// other workers' results is returned.  Otherwise the results follow one
/// another in the order of the slices.
pub fn aggregate(outcomes: &Vec<Option<Vec<VirtualPoint>>>) -> (result: Result<
    Vec<VirtualPoint>,
    WorkerFailure,
>)
    ensures
        result is Ok <==> all_completed(outcomes@),
        result matches Ok(points) ==> points@ == completed_results(outcomes@).flatten(),
{
    let ghost parts = completed_results(outcomes@);
    let mut results: Vec<VirtualPoint> = Vec::new();
    let mut block: usize = 0;
    while block < outcomes.len()
        invariant
            block <= outcomes.len(),
            parts == completed_results(outcomes@),
            forall|done: int| 0 <= done < block ==> (#[trigger] outcomes@[done]) is Some,
            results@ == parts.take(block as int).flatten(),
        decreases outcomes.len() - block,
    {
        match &outcomes[block] {
            None => {
                return Err(WorkerFailure);
            },
            Some(part) => {
                let mut index: usize = 0;
                while index < part.len()
                    invariant
                        index <= part.len(),
                        results@ == parts.take(block as int).flatten() + part@.take(index as int),
                    decreases part.len() - index,
                {
                    results.push(part[index]);
                    assert(part@.take(index + 1) =~= part@.take(index as int).push(
                        part@[index as int],
                    ));
                    index += 1;
                }
                proof {
                    assert(part@.take(part.len() as int) =~= part@);
                    assert(parts.take(block + 1) =~= parts.take(block as int).push(part@));
                    parts.take(block as int).lemma_flatten_push(part@);
                }
            },
        }
        block += 1;
    }
    assert(parts.take(outcomes.len() as int) =~= parts);
    Ok(results)
}

/// The results of the workers of the first `blocks` slices, one after the
/// other, are the survivors of the samples up to the end of those slices.
proof fn lemma_leading_workers(samples: Seq<Sample>, blocks: int)
    requires
        0 <= blocks <= WORKER_THREADS,
    ensures
        worker_results(samples).take(blocks).flatten() == survivors(
            samples.take(slice_start(samples.len() as int, blocks)),
        ),
    decreases blocks,
{
    let all = worker_results(samples);
    let len = samples.len() as int;
    if blocks == 0 {
        assert(all.take(0) =~= Seq::<Seq<VirtualPoint>>::empty());
        assert(samples.take(0) =~= Seq::<Sample>::empty());
    } else {
        let block = blocks - 1;
        lemma_leading_workers(samples, block);
        lemma_slice_bounds(len, block);
        let start = slice_start(len, block);
        let end = slice_end(len, block);
        assert(all.take(blocks) =~= all.take(block).push(all[block]));
        all.take(block).lemma_flatten_push(all[block]);
        assert(samples.take(end) =~= samples.take(start) + samples.subrange(start, end));
        lemma_survivors_concat(samples.take(start), samples.subrange(start, end));
    }
}

/// A pass returns exactly what evaluating the samples one after the other
/// returns, but for the samples that the slices leave out: the last `len %
/// WORKER_THREADS` of them.  The same points come out, each as often, and
/// in the same order.
pub proof fn lemma_pool_matches_sequential(samples: Seq<Sample>)
    ensures
        pool_survivors(samples) == survivors(samples.take(covered_len(samples.len() as int))),
        pool_survivors(samples).to_multiset() == survivors(
            samples.take(samples.len() - samples.len() % (WORKER_THREADS as nat)),
        ).to_multiset(),
        samples.len() % (WORKER_THREADS as nat) == 0 ==> pool_survivors(samples) == survivors(
            samples,
        ),
{
    let all = worker_results(samples);
    lemma_leading_workers(samples, WORKER_THREADS as int);
    assert(all.take(WORKER_THREADS as int) =~= all);
    if samples.len() % (WORKER_THREADS as nat) == 0 {
        assert(samples.take(samples.len() as int) =~= samples);
    }
}

/// Workers that all completed, each with the survivors of its slice, are
/// put together to the result of the pass.
pub proof fn lemma_aggregate_of_workers(
    samples: Seq<Sample>,
    outcomes: Seq<Option<Vec<VirtualPoint>>>,
)
    requires
        outcomes.len() == WORKER_THREADS,
        forall|block: int|
            0 <= block < WORKER_THREADS ==> (#[trigger] outcomes[block] matches Some(points)
                && points@ == survivors(worker_slice_of(samples, block))),
    ensures
        all_completed(outcomes),
        completed_results(outcomes).flatten() == pool_survivors(samples),
{
    assert(completed_results(outcomes) =~= worker_results(samples));
}

/// A whole pass on one thread: cuts `samples` into slices, runs a worker
/// on each, and puts the results together in the order of the slices.
pub fn draw_mandelbrot_run(samples: &Vec<Sample>) -> (results: Vec<VirtualPoint>)
    ensures
        results@ == pool_survivors(samples@),
        results@ == survivors(samples@.take(covered_len(samples@.len() as int))),
{
    let ghost all = worker_results(samples@);
    let mut results: Vec<VirtualPoint> = Vec::new();
    let mut block: u32 = 0;
    while block < WORKER_THREADS
        invariant
            block <= WORKER_THREADS,
            all == worker_results(samples@),
            results@ == all.take(block as int).flatten(),
        decreases WORKER_THREADS - block,
    {
        let subset: Vec<Sample> = worker_slice(samples, block);
        let mut result: Vec<VirtualPoint> = calc_mandelbrot_worker(subset);
        proof {
            assert(all.take(block + 1) =~= all.take(block as int).push(result@));
            all.take(block as int).lemma_flatten_push(result@);
        }
        results.append(&mut result);
        block += 1;
    }
    proof {
        assert(all.take(WORKER_THREADS as int) =~= all);
        lemma_pool_matches_sequential(samples@);
    }
    results
}

} // verus!
