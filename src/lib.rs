//! Bridge between native asynchronous computations and a foreign,
//! host-driven event loop: a readiness reactor, a deadline timer, a task
//! executor state machine, the stream step rules they share, the column
//! kinds that query results decode into, and the shared pool lease.

pub mod bridge;
pub mod cache;
pub mod column;
pub mod executor;
pub mod laws;
pub mod pool;
pub mod reactor;
pub mod stream;
pub mod timer;

use vstd::prelude::*;

verus! {

/// Relies on std::hint::black_box: an identity function, documented to
/// return its argument, that the optimiser has to treat as opaque.
#[verifier::external_body]
fn opaque_identity(x: usize) -> (r: usize)
    ensures
        r == x,
{
    std::hint::black_box(x)
}

/// Returns its argument: the cost of one call across the bridge.
pub fn no_op(arg: usize) -> (r: usize)
    ensures
        r == arg,
{
    arg
}

/// One unit of work that the optimiser cannot remove.
fn one() -> (r: usize)
    ensures
        r == 1,
{
    opaque_identity(1)
}

/// Runs `arg` units of work in one call and returns the last iteration
/// counter, as `arg` separate `no_op` calls would have.
pub fn batch_no_op(arg: usize) -> (r: usize)
    requires
        arg >= 1,
    ensures
        r == arg - 1,
{
    let mut i: usize = 0;
    while i < arg
        invariant
            i <= arg,
        decreases arg - i,
    {
        one();
        i = i + 1;
    }
    arg - 1
}

} // verus!
