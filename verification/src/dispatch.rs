//! The adaptive dispatcher: apply a function to every element of an ordered
//! workload, either inline on the calling thread or across a worker pool,
//! and return the results in input order either way.
//!
//! The strategy choice is a pure size test — workloads shorter than the
//! threshold stay sequential, all others go parallel — and it is invisible
//! in the result: both branches meet the same contract, which ties every
//! output slot to the function's postcondition on the input at that index.

use vstd::prelude::*;
use rayon::iter::IndexedParallelIterator;
use rayon::iter::IntoParallelIterator;
use rayon::iter::ParallelIterator;

verus! {

/// The dispatch decision: a workload of `len` elements runs on the worker
/// pool exactly when `len` is at least `threshold` (strictly shorter
/// workloads run inline, so a length equal to the threshold goes parallel).
pub fn uses_parallel(len: usize, threshold: usize) -> (b: bool)
    ensures
        b == (len >= threshold),
{
    len >= threshold
}

/// Relies on rayon: `IntoParallelIterator` for `Vec` yields every element,
/// `map` applies `func` to each one, and `collect_into_vec` on the indexed
/// parallel iterator places each result at its input's index, so the output
/// order matches the input order whatever the execution order was.
#[verifier::external_body]
fn par_map<T, R, F>(input: Vec<T>, func: F) -> (r: Vec<R>)
    where
        T: Send + Sync + 'static,
        R: Send + Sync + 'static,
        F: Fn(T) -> R + Send + Sync + 'static,
    requires
        forall|i: int| 0 <= i < input@.len() ==> call_requires(func, (input@[i],)),
    ensures
        r@.len() == input@.len(),
        forall|i: int|
            0 <= i < input@.len() ==> call_ensures(func, (input@[i],), #[trigger] r@[i]),
{
    let mut out: Vec<R> = Vec::new();
    input.into_par_iter().map(|item| func(item)).collect_into_vec(&mut out);
    out
}

/// Apply `func` to every element of `input`, sequentially on the calling
/// thread when the workload is shorter than `threshold` and across a worker
/// pool otherwise. Under both strategies the result has one slot per input
/// element, in input order: slot `i` holds a value that `func` can return
/// for `input[i]`.
pub fn parallel_process<T, R, F>(input: Vec<T>, threshold: usize, func: F) -> (r: Vec<R>)
    where
        T: Send + Sync + 'static,
        R: Send + Sync + 'static,
        F: Fn(T) -> R + Send + Sync + 'static,
    requires
        forall|i: int| 0 <= i < input@.len() ==> call_requires(func, (input@[i],)),
    ensures
        r@.len() == input@.len(),
        forall|i: int|
            0 <= i < input@.len() ==> call_ensures(func, (input@[i],), #[trigger] r@[i]),
{
    if !uses_parallel(input.len(), threshold) {
        let ghost orig = input@;
        let mut result: Vec<R> = Vec::new();
        for x in it: input.into_iter()
            invariant
                it.seq() == orig,
                result@.len() == it.index(),
                forall|i: int|
                    0 <= i < it.index() ==> call_ensures(func, (orig[i],), #[trigger] result@[i]),
                forall|i: int| 0 <= i < orig.len() ==> call_requires(func, (orig[i],)),
        {
            result.push(func(x));
        }
        result
    } else {
        par_map(input, func)
    }
}

/// Order preservation across strategies: when `func`'s contract determines
/// its output uniquely — `g` names the one value `func` may return for each
/// input — any result meeting the dispatcher's contract equals the
/// element-for-element sequential map of `g` over the input, so the
/// sequential and the parallel branch agree on the whole output.
pub proof fn lemma_dispatch_is_sequential_map<T, R, F: Fn(T) -> R>(
    func: F,
    input: Seq<T>,
    out: Seq<R>,
    g: spec_fn(T) -> R,
)
    requires
        forall|x: T, y: R| call_ensures(func, (x,), y) ==> y == g(x),
        out.len() == input.len(),
        forall|i: int| 0 <= i < input.len() ==> call_ensures(func, (input[i],), #[trigger] out[i]),
    ensures
        out == input.map_values(g),
{
    assert(out =~= input.map_values(g));
}

} // verus!
