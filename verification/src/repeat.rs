//! The counted-repetition rule set: a count and a block expand into a loop
//! that invokes the block that many times.  The block updates one value, so
//! its expansion here threads that value through a function argument.

use vstd::prelude::*;

verus! {

/// `s` is the trace of one run that starts at `init`, applies `f` exactly
/// `n` times, and ends at `r`: every step is a possible result of `f` on
/// the value before it.
pub open spec fn iter_trace<F: Fn(u64) -> u64>(
    f: F,
    s: Seq<u64>,
    n: nat,
    init: u64,
    r: u64,
) -> bool {
    &&& s.len() == n + 1
    &&& s[0] == init
    &&& s[n as int] == r
    &&& forall|j: int| 0 <= j < n ==> call_ensures(f, (s[j],), #[trigger] s[j + 1])
}

/// Expansion of the counted-repetition rule set: invokes the block `n`
/// times, handing each invocation the value the one before it produced.
/// The result is reachable from `init` by a trace of exactly `n` steps of
/// the block.
pub fn n_times<F: Fn(u64) -> u64>(n: u64, init: u64, f: F) -> (r: u64)
    requires
        forall|x: u64| #[trigger] call_requires(f, (x,)),
    ensures
        exists|s: Seq<u64>| iter_trace(f, s, n as nat, init, r),
{
    let mut cur: u64 = init;
    let ghost mut trace: Seq<u64> = seq![init];
    let mut i: u64 = 0;
    while i < n
        invariant
            i <= n,
            forall|x: u64| #[trigger] call_requires(f, (x,)),
            trace.len() == i + 1,
            trace[0] == init,
            trace[i as int] == cur,
            forall|j: int| 0 <= j < i ==> call_ensures(f, (trace[j],), #[trigger] trace[j + 1]),
        decreases n - i,
    {
        cur = f(cur);
        proof {
            trace = trace.push(cur);
        }
        i = i + 1;
    }
    assert(iter_trace(f, trace, n as nat, init, cur));
    cur
}

} // verus!
