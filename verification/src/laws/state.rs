//! The two states of the builder, and that building is repeatable.

use vstd::prelude::*;
use crate::builder::DomBuilder;
use crate::instruction::{Fault, Instruction, Reply};
use crate::handle::{Handle, NodeOrText};
use crate::model::Tree;
use crate::name::{Attribute, QualName};
use crate::run::{builder_at, carried_out, is_run, same_step, Step};

verus! {

/// Building is repeatable. Two runs that start from equal trees in the same
/// state and whose steps read the same, one by one, go through equal trees
/// and the same states, and end with equal trees, whichever stores hold
/// them: the tree is a function of the instructions, and a builder carries
/// nothing over from another run.
pub proof fn same_run_same_tree(
    first: DomBuilder<'_>,
    first_steps: Seq<Step<'_>>,
    second: DomBuilder<'_>,
    second_steps: Seq<Step<'_>>,
    i: int,
)
    requires
        first.tree() == second.tree(),
        first.is_finished() == second.is_finished(),
        is_run(first, first_steps),
        is_run(second, second_steps),
        first_steps.len() == second_steps.len(),
        forall|k: int|
            0 <= k < first_steps.len() ==> same_step(#[trigger] first_steps[k], second_steps[k]),
        0 <= i <= first_steps.len(),
    ensures
        builder_at(first, first_steps, i).tree() == builder_at(second, second_steps, i).tree(),
        builder_at(first, first_steps, i).is_finished() == builder_at(
            second,
            second_steps,
            i,
        ).is_finished(),
    decreases i,
{
    if i > 0 {
        same_run_same_tree(first, first_steps, second, second_steps, i - 1);
        assert(same_step(first_steps[i - 1], second_steps[i - 1]));
        assert(builder_at(first, first_steps, i - 1).leads_to(
            first_steps[i - 1].instruction,
            first_steps[i - 1].outcome,
            first_steps[i - 1].after,
        ));
        assert(builder_at(second, second_steps, i - 1).leads_to(
            second_steps[i - 1].instruction,
            second_steps[i - 1].outcome,
            second_steps[i - 1].after,
        ));
    }
}

/// Two runs from the empty tree whose steps read the same end with equal
/// trees.
pub proof fn same_run_from_nothing_same_tree(
    first: DomBuilder<'_>,
    first_steps: Seq<Step<'_>>,
    second: DomBuilder<'_>,
    second_steps: Seq<Step<'_>>,
)
    requires
        first.tree() == Tree::empty(),
        second.tree() == Tree::empty(),
        !first.is_finished(),
        !second.is_finished(),
        is_run(first, first_steps),
        is_run(second, second_steps),
        first_steps.len() == second_steps.len(),
        forall|k: int|
            0 <= k < first_steps.len() ==> same_step(#[trigger] first_steps[k], second_steps[k]),
    ensures
        builder_at(first, first_steps, first_steps.len() as int).tree() == builder_at(
            second,
            second_steps,
            second_steps.len() as int,
        ).tree(),
{
    same_run_same_tree(first, first_steps, second, second_steps, first_steps.len() as int);
}

/// The tree at any point of a run is the tree at the start after the
/// instructions that were carried out up to there, in their order.
pub proof fn run_follows_instructions(start: DomBuilder<'_>, steps: Seq<Step<'_>>, i: int)
    requires
        is_run(start, steps),
        0 <= i <= steps.len(),
    ensures
        builder_at(start, steps, i).tree() == start.tree().after_all(carried_out(steps.take(i))),
    decreases i,
{
    if i > 0 {
        run_follows_instructions(start, steps, i - 1);
        let before = builder_at(start, steps, i - 1);
        let step = steps[i - 1];
        assert(before.leads_to(step.instruction, step.outcome, step.after));
        assert(steps.take(i).drop_last() =~= steps.take(i - 1));
        assert(steps.take(i).last() == step);
        let ops = carried_out(steps.take(i));
        if step.outcome is Ok {
            assert(ops.drop_last() =~= carried_out(steps.take(i - 1)));
            assert(ops.last() == step.instruction.op());
        }
    } else {
        assert(steps.take(0) =~= Seq::<Step<'_>>::empty());
    }
}

/// Finish is final over a whole run: once a step has finished the builder,
/// every later step meets the fault `Finished`, and the builder, its tree
/// with it, stays as the finishing step left it.
pub proof fn nothing_after_finish(start: DomBuilder<'_>, steps: Seq<Step<'_>>, i: int, j: int)
    requires
        is_run(start, steps),
        0 <= i < j < steps.len(),
        steps[i].after.is_finished(),
    ensures
        steps[j].outcome == Err::<Reply<'_>, Fault>(Fault::Finished),
        steps[j].after == steps[i].after,
        steps[j].after.tree() == steps[i].after.tree(),
    decreases j,
{
    if i + 1 < j {
        nothing_after_finish(start, steps, i, j - 1);
    }
    assert(builder_at(start, steps, j).leads_to(
        steps[j].instruction,
        steps[j].outcome,
        steps[j].after,
    ));
}

/// The nodes that two builders create on the same instruction have the same
/// number where the trees are equal, so that what follows reads the same for
/// both.
pub proof fn same_instruction_same_node(
    first: DomBuilder<'_>,
    second: DomBuilder<'_>,
    first_instruction: Instruction<'_>,
    second_instruction: Instruction<'_>,
    first_reply: Reply<'_>,
    second_reply: Reply<'_>,
)
    requires
        first.tree() == second.tree(),
        first_instruction.op() == second_instruction.op(),
        first_instruction.op() is CreateElement || first_instruction.op() is CreateComment,
        first.answers(first_instruction, first_reply),
        second.answers(second_instruction, second_reply),
    ensures
        first_reply is Node,
        second_reply is Node,
        first_reply->Node_0.as_child() == second_reply->Node_0.as_child(),
        first.tree().after(first_instruction.op()) == second.tree().after(
            second_instruction.op(),
        ),
{
}

/// Two builders with equal trees, in the same state, that take the same
/// instruction with the same outcome end with equal trees, in the same
/// state: the builder keeps nothing that the tree and the state do not show.
pub proof fn same_instruction_same_outcome(
    first: DomBuilder<'_>,
    second: DomBuilder<'_>,
    first_instruction: Instruction<'_>,
    second_instruction: Instruction<'_>,
    first_outcome: Result<Reply<'_>, Fault>,
    second_outcome: Result<Reply<'_>, Fault>,
    first_after: DomBuilder<'_>,
    second_after: DomBuilder<'_>,
)
    requires
        first.tree() == second.tree(),
        first.is_finished() == second.is_finished(),
        first_instruction.op() == second_instruction.op(),
        first_instruction is Finish <==> second_instruction is Finish,
        first_outcome is Ok <==> second_outcome is Ok,
        first.leads_to(first_instruction, first_outcome, first_after),
        second.leads_to(second_instruction, second_outcome, second_after),
    ensures
        first_after.tree() == second_after.tree(),
        first_after.is_finished() == second_after.is_finished(),
{
}

/// Finish is final: whatever instruction a finished builder takes, the
/// instruction meets the fault `Finished` and the builder, its document with
/// it, is as it was.
pub proof fn finished_builder_takes_nothing(
    before: DomBuilder<'_>,
    instruction: Instruction<'_>,
    outcome: Result<Reply<'_>, Fault>,
    after: DomBuilder<'_>,
)
    requires
        before.is_finished(),
        before.leads_to(instruction, outcome, after),
    ensures
        outcome == Err::<Reply<'_>, Fault>(Fault::Finished),
        after == before,
        after.tree() == before.tree(),
{
}

/// No append reaches a finished document: whatever the parent and the child,
/// the instruction meets the fault `Finished`, no child is linked and no
/// text is extended.
pub proof fn append_after_finish_faults(
    before: DomBuilder<'_>,
    parent: Handle<'_>,
    child: NodeOrText<'_>,
    outcome: Result<Reply<'_>, Fault>,
    after: DomBuilder<'_>,
)
    requires
        before.is_finished(),
        before.leads_to(Instruction::Append { parent, child }, outcome, after),
    ensures
        outcome == Err::<Reply<'_>, Fault>(Fault::Finished),
        after.tree() == before.tree(),
        after == before,
{
}

/// No element is created in a finished document: whatever the name and the
/// attributes, the instruction meets the fault `Finished` and the document
/// has no node more.
pub proof fn create_element_after_finish_faults(
    before: DomBuilder<'_>,
    name: QualName,
    attrs: Vec<Attribute>,
    outcome: Result<Reply<'_>, Fault>,
    after: DomBuilder<'_>,
)
    requires
        before.is_finished(),
        before.leads_to(Instruction::CreateElement { name, attrs }, outcome, after),
    ensures
        outcome == Err::<Reply<'_>, Fault>(Fault::Finished),
        after.tree() == before.tree(),
        after == before,
{
}

/// Only `Finish` finishes: a builder is finished after an instruction exactly
/// when it was finished before or the instruction is a `Finish` that is
/// carried out.
pub proof fn only_finish_finishes(
    before: DomBuilder<'_>,
    instruction: Instruction<'_>,
    outcome: Result<Reply<'_>, Fault>,
    after: DomBuilder<'_>,
)
    requires
        before.leads_to(instruction, outcome, after),
    ensures
        after.is_finished() <==> before.is_finished() || (instruction is Finish && outcome is Ok),
        before.is_finished() ==> after.is_finished(),
{
}

/// What the builder does not implement it refuses, and changes nothing.
pub proof fn unsupported_instruction_faults(
    before: DomBuilder<'_>,
    instruction: Instruction<'_>,
    outcome: Result<Reply<'_>, Fault>,
    after: DomBuilder<'_>,
)
    requires
        !before.is_finished(),
        !instruction.is_supported(),
        before.leads_to(instruction, outcome, after),
    ensures
        outcome == Err::<Reply<'_>, Fault>(Fault::Unsupported),
        after == before,
{
}

/// What reaches the builder of parse errors, doctype, quirks mode, scripts,
/// forms and line numbers is taken and changes nothing in the document.
pub proof fn absorbed_instruction_changes_nothing(
    before: DomBuilder<'_>,
    instruction: Instruction<'_>,
    outcome: Result<Reply<'_>, Fault>,
    after: DomBuilder<'_>,
)
    requires
        !before.is_finished(),
        instruction is ParseError || instruction is AppendDoctypeToDocument || instruction
            is SetQuirksMode || instruction is MarkScriptAlreadyStarted || instruction is Pop
            || instruction is AssociateWithForm || instruction is SetCurrentLine || instruction
            is CompleteScript,
        before.leads_to(instruction, outcome, after),
    ensures
        outcome is Ok,
        after.tree() == before.tree(),
        !after.is_finished(),
{
}

} // verus!
