//! Where plans enqueue their steps, and when they wait.

use crate::plan::{Op, Step};
use vstd::prelude::*;

verus! {

/// The step is enqueued on another stream than the one that is given, or waits
/// although the pass is not timed.
pub open spec fn stray(stream: u64, timed: bool) -> spec_fn(Step) -> bool {
    |x: Step|
        match x {
            Step::On(st, op) => st != stream || (op is Synchronize && !timed),
            _ => false,
        }
}

} // verus!
