//! Runs: what becomes of a builder that takes one instruction after another.

use vstd::prelude::*;
use crate::builder::DomBuilder;
use crate::instruction::{Fault, Instruction, Reply};
use crate::model::Op;

verus! {

/// One step of a run: the instruction that the builder takes, what comes of
/// it, and the builder after it.
pub struct Step<'d> {
    pub instruction: Instruction<'d>,
    pub outcome: Result<Reply<'d>, Fault>,
    pub after: DomBuilder<'d>,
}

/// The builder that takes step `i` of the run: `start` for the first step,
/// and for every other what the step before has left. With the number of
/// steps for `i`, the builder at the end of the run.
pub open spec fn builder_at<'d>(start: DomBuilder<'d>, steps: Seq<Step<'d>>, i: int) -> DomBuilder<
    'd,
> {
    if i <= 0 {
        start
    } else {
        steps[i - 1].after
    }
}

/// Is `steps` a run of `start`: is every step what `apply` makes of the
/// builder that takes it?
pub open spec fn is_run<'d>(start: DomBuilder<'d>, steps: Seq<Step<'d>>) -> bool {
    forall|i: int|
        0 <= i < steps.len() ==> builder_at(start, steps, i).leads_to(
            (#[trigger] steps[i]).instruction,
            steps[i].outcome,
            steps[i].after,
        )
}

/// Do two steps read the same: do their instructions ask the same of the
/// tree, nodes named by their numbers, is one a `Finish` when the other is,
/// and is one carried out when the other is?
pub open spec fn same_step(first: Step<'_>, second: Step<'_>) -> bool {
    &&& first.instruction.op() == second.instruction.op()
    &&& first.instruction is Finish <==> second.instruction is Finish
    &&& first.outcome is Ok <==> second.outcome is Ok
}

/// What the steps that were carried out ask of the tree, in their order. A
/// step that met a fault asks nothing.
pub open spec fn carried_out(steps: Seq<Step<'_>>) -> Seq<Op>
    decreases steps.len(),
{
    if steps.len() == 0 {
        Seq::empty()
    } else if steps.last().outcome is Ok {
        carried_out(steps.drop_last()).push(steps.last().instruction.op())
    } else {
        carried_out(steps.drop_last())
    }
}

} // verus!
