//! The shared shutdown signal.
//!
//! A single boolean, initially unset, set at most once and never reset: the
//! one-way `Running -> ShutdownRequested` transition every loop of a client
//! observes cooperatively. The lemmas below state the signal's two laws:
//! it is monotonic along any sequence of steps, and triggering it twice is
//! the same as triggering it once.

use vstd::prelude::*;

verus! {

/// The shutdown signal. `requested` starts false and only ever turns true.
#[derive(Clone, Copy, PartialEq, Eq, Structural, Debug)]
pub struct ShutdownFlag {
    /// Whether shutdown has been requested.
    pub requested: bool,
}

impl ShutdownFlag {
    /// The flag after a trigger: set, whatever it was before.
    pub open spec fn spec_triggered(self) -> ShutdownFlag {
        ShutdownFlag { requested: true }
    }

    /// A fresh, unset signal.
    pub fn new() -> (r: ShutdownFlag)
        ensures
            r == (ShutdownFlag { requested: false }),
    {
        ShutdownFlag { requested: false }
    }

    /// Request shutdown. One-way: the flag ends set, and a flag that was
    /// already set is left exactly as it was.
    pub fn trigger(&mut self)
        ensures
            *final(self) == old(self).spec_triggered(),
    {
        self.requested = true;
    }

    /// Observe the signal.
    pub fn is_set(&self) -> (r: bool)
        ensures
            r == self.requested,
    {
        self.requested
    }
}

/// One step a holder of the signal can take: leave it alone (any read, or
/// unrelated work) or trigger it. No step resets it.
pub open spec fn spec_flag_step(pre: ShutdownFlag, post: ShutdownFlag) -> bool {
    post == pre || post == pre.spec_triggered()
}

/// A single step never unsets the signal.
pub proof fn lemma_step_monotonic(pre: ShutdownFlag, post: ShutdownFlag)
    requires
        spec_flag_step(pre, post),
        pre.requested,
    ensures
        post.requested,
{
}

/// Monotonicity along a whole history: in any sequence of signal states
/// where each state follows from the previous by one step, once the signal
/// is observed set it is observed set at every later point.
pub proof fn lemma_trace_monotonic(trace: Seq<ShutdownFlag>, i: int, j: int)
    requires
        forall|k: int| 0 <= k < trace.len() - 1 ==> #[trigger] spec_flag_step(
            trace[k],
            trace[k + 1],
        ),
        0 <= i <= j < trace.len(),
        trace[i].requested,
    ensures
        trace[j].requested,
    decreases j - i,
{
    if i < j {
        lemma_trace_monotonic(trace, i, j - 1);
        assert(spec_flag_step(trace[j - 1], trace[(j - 1) + 1]));
    }
}

/// Triggering is idempotent: a second trigger changes nothing.
pub proof fn lemma_trigger_idempotent(f: ShutdownFlag)
    ensures
        f.spec_triggered().spec_triggered() == f.spec_triggered(),
{
}

} // verus!
