//! The operations of a plan that compute something.

use crate::plan::{timed, Op, Step};
use vstd::prelude::*;

verus! {

/// Whether an operation computes: all do but waits, uploads, the bounds of a
/// capture and the upkeep of other parts of the model.
pub open spec fn computes(op: Op) -> bool {
    match op {
        Op::Synchronize => false,
        Op::Upload(..) => false,
        Op::BeginCapture => false,
        Op::EndCapture => false,
        Op::CaptureDecode(..) => false,
        Op::CapturePrefill(..) => false,
        Op::NormalizeSsmStates => false,
        _ => true,
    }
}

/// Whether an operation saves what a layer put out.
pub open spec fn saves(op: Op) -> bool {
    op is CaptureDecode || op is CapturePrefill
}

/// The operations of a plan that compute, in order.
pub open spec fn work(s: Seq<Step>) -> Seq<Op>
    decreases s.len(),
{
    if s.len() == 0 {
        Seq::empty()
    } else {
        let w = work(s.drop_last());
        match s.last() {
            Step::On(_, op) => if computes(op) {
                w.push(op)
            } else {
                w
            },
            Step::AllReduce(p, n) => w.push(Op::AllReduceAsync(p, n)),
        }
    }
}

/// The operations of a plan that save what layers put out, in order.
pub open spec fn saved(s: Seq<Step>) -> Seq<Op>
    decreases s.len(),
{
    if s.len() == 0 {
        Seq::empty()
    } else {
        let w = saved(s.drop_last());
        match s.last() {
            Step::On(_, op) => if saves(op) {
                w.push(op)
            } else {
                w
            },
            _ => w,
        }
    }
}

pub broadcast proof fn lemma_work_push(s: Seq<Step>, stream: u64, op: Op)
    ensures
        #[trigger] work(s.push(Step::On(stream, op))) == if computes(op) {
            work(s).push(op)
        } else {
            work(s)
        },
{
    assert(s.push(Step::On(stream, op)).drop_last() =~= s);
}

pub broadcast proof fn lemma_saved_push(s: Seq<Step>, stream: u64, op: Op)
    ensures
        #[trigger] saved(s.push(Step::On(stream, op))) == if saves(op) {
            saved(s).push(op)
        } else {
            saved(s)
        },
{
    assert(s.push(Step::On(stream, op)).drop_last() =~= s);
}

pub broadcast proof fn lemma_work_timed(s: Seq<Step>, profile: bool, stream: u64)
    ensures
        #[trigger] work(timed(s, profile, stream)) == work(s),
        saved(timed(s, profile, stream)) == saved(s),
{
    lemma_work_push(s, stream, Op::Synchronize);
    lemma_saved_push(s, stream, Op::Synchronize);
}

pub broadcast group group_work {
    lemma_work_push,
    lemma_saved_push,
    lemma_work_timed,
}

} // verus!
