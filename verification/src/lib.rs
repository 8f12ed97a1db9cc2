use vstd::prelude::*;

mod dispatch;
mod transform;

pub use dispatch::lemma_dispatch_is_sequential_map;
pub use dispatch::parallel_process;
pub use dispatch::uses_parallel;
pub use transform::collatz_step;
pub use transform::collatz_steps;
pub use transform::collatz_value;
pub use transform::lemma_transform_one;
pub use transform::lemma_transform_zero_budget;
pub use transform::transform_number;
pub use transform::transform_spec;

verus! {

/// What a whole run returns: each input element replaced by its transform
/// under the given step budget.
pub open spec fn transform_all_spec(input: Seq<u64>, fuel: nat) -> Seq<u64> {
    input.map_values(|n: u64| transform::transform_spec(n, fuel))
}

/// Transform every element of `input` under the step budget
/// `max_iterations`, dispatching sequentially or in parallel according to
/// `threshold`. The result is the element-for-element transform of the
/// input, in input order, whichever strategy ran; an empty input gives an
/// empty result.
pub fn apply_transformations(input: Vec<u64>, max_iterations: usize, threshold: usize) -> (r: Vec<
    u64,
>)
    ensures
        r@ == transform_all_spec(input@, max_iterations as nat),
{
    let ghost orig = input@;
    let transformation = move |num: u64| -> (t: u64)
        ensures
            t == transform::transform_spec(num, max_iterations as nat),
        { transform::transform_number(num, max_iterations) };
    let r = dispatch::parallel_process(input, threshold, transformation);
    proof {
        dispatch::lemma_dispatch_is_sequential_map(
            transformation,
            orig,
            r@,
            |n: u64| transform::transform_spec(n, max_iterations as nat),
        );
    }
    r
}

/// The step budget used when the caller supplies none.
pub const DEFAULT_MAX_ITERATIONS: usize = 8;

/// Relies on num_cpus::get: the number of logical CPUs of the machine,
/// documented to be at least 1.
#[verifier::external_body]
fn logical_cpu_count() -> (n: usize)
    ensures
        n >= 1,
{
    num_cpus::get()
}

/// Transform every element of `input` with the default step budget and a
/// dispatch threshold of twice the machine's logical CPU count (saturating
/// at the largest `usize`). The threshold only picks the strategy, so the
/// result is the same element-for-element transform as with any other
/// threshold.
pub fn apply_transformations_with_defaults(input: Vec<u64>) -> (r: Vec<u64>)
    ensures
        r@ == transform_all_spec(input@, DEFAULT_MAX_ITERATIONS as nat),
{
    let cpus = logical_cpu_count();
    let threshold = if cpus <= usize::MAX / 2 {
        cpus * 2
    } else {
        usize::MAX
    };
    apply_transformations(input, DEFAULT_MAX_ITERATIONS, threshold)
}

} // verus!
