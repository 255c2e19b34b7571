//! The calling convention for the engine's non-reentrant entry points.
//!
//! The engine's plan-creation and plan-teardown calls (not execution) must
//! never run concurrently; a program that drives the engine wraps each of
//! them in one process-wide critical section.  The verified core never
//! reaches the engine itself, so this module only fixes the gateway's shape:
//! every such call is phrased as a closure handed to [`run`], and the
//! embedding program holds its process-wide lock for the duration of the
//! gateway.

use vstd::prelude::*;

verus! {

/// Run the given closure once and hand back exactly its result.
pub fn run<A, F: FnOnce() -> A>(f: F) -> (r: A)
    requires
        call_requires(f, ()),
    ensures
        call_ensures(f, (), r),
{
    f()
}

} // verus!
