//! Building the global worker pool of the rayon crate. The exactly-once gate
//! around it is a process-wide static, and the query of the pool's size can
//! panic when an earlier build failed; both stand with the host side.
use vstd::prelude::*;

verus! {

/// Relies on rayon's `ThreadPoolBuilder::new().build_global()`: builds the
/// global pool with automatic sizing; `true` when this call built it.
#[verifier::external_body]
fn build_global_pool_default() -> (r: bool) {
    rayon::ThreadPoolBuilder::new().build_global().is_ok()
}

/// Relies on rayon's `ThreadPoolBuilder::new().num_threads(n).build_global()`:
/// builds the global pool with at most `n` workers; `true` when this call
/// built it.
#[verifier::external_body]
fn build_global_pool_sized(n: usize) -> (r: bool) {
    rayon::ThreadPoolBuilder::new().num_threads(n).build_global().is_ok()
}

/// The pool size asked of rayon: the count when it is positive, automatic
/// sizing (`None`) otherwise.
pub fn requested_pool_size(num_threads: i32) -> (r: Option<usize>)
    ensures
        num_threads > 0 ==> r == Some(num_threads as usize),
        num_threads <= 0 ==> r is None,
{
    if num_threads > 0 {
        Some(num_threads as usize)
    } else {
        None
    }
}

/// Tries to build the global pool with the requested size; `true` when this
/// call built it.
pub fn build_pool(num_threads: i32) -> bool {
    match requested_pool_size(num_threads) {
        Some(n) => build_global_pool_sized(n),
        None => build_global_pool_default(),
    }
}

/// Whether a usable pool exists: one that this call built, or one whose
/// worker count was read (`workers`, absent when the query was not made or
/// failed) and is positive.
pub fn pool_reported(built: bool, workers: Option<usize>) -> (r: bool)
    ensures
        r == (built || (workers matches Some(w) && w > 0)),
{
    if built {
        return true;
    }
    match workers {
        Some(w) => w > 0,
        None => false,
    }
}

} // verus!
