//! The instructions of the tree builder as values, and the one entry point
//! that takes any of them in any state of the builder.

use vstd::prelude::*;
use sxd_document::dom::Document;
use crate::builder::{moves_no_node, DomBuilder};
use crate::handle::{Handle, NextParserState, NodeOrText, QuirksMode};
use crate::model::Op;
use crate::name::{pairs_of, Attribute, QualName};
use crate::store::{comment_index, comment_store, doc_id, element_index, element_store};

verus! {

/// One instruction of the tree builder.
#[derive(Debug)]
#[allow(inconsistent_fields)]
pub enum Instruction<'d> {
    GetDocument,
    CreateElement { name: QualName, attrs: Vec<Attribute> },
    CreateComment { text: String },
    CreatePi { target: String, data: String },
    Append { parent: Handle<'d>, child: NodeOrText<'d> },
    AppendBasedOnParentNode {
        element: Handle<'d>,
        prev_element: Handle<'d>,
        child: NodeOrText<'d>,
    },
    AppendDoctypeToDocument { name: String, public_id: String, system_id: String },
    ElemName { target: Handle<'d> },
    GetTemplateContents { target: Handle<'d> },
    SameNode { x: Handle<'d>, y: Handle<'d> },
    SetQuirksMode { mode: QuirksMode },
    AppendBeforeSibling { sibling: Handle<'d>, new_node: NodeOrText<'d> },
    AddAttrsIfMissing { target: Handle<'d>, attrs: Vec<Attribute> },
    RemoveFromParent { target: Handle<'d> },
    ReparentChildren { node: Handle<'d>, new_parent: Handle<'d> },
    MarkScriptAlreadyStarted { node: Handle<'d> },
    Pop { node: Handle<'d> },
    AssociateWithForm {
        target: Handle<'d>,
        form: Handle<'d>,
        element: Handle<'d>,
        prev_element: Option<Handle<'d>>,
    },
    SetCurrentLine { line_number: u64 },
    CompleteScript { node: Handle<'d> },
    ParseError { message: String },
    Finish,
}

/// What the builder answers to an instruction that it has carried out.
#[derive(Debug)]
pub enum Reply<'d> {
    /// The instruction asks for no answer.
    Done,
    /// The handle asked for, or the handle of the node created.
    Node(Handle<'d>),
    /// The qualified name of the element asked about.
    Name(QualName),
    /// What the tree builder does next.
    Next(NextParserState),
    /// The finished document.
    Document(Document<'d>),
}

/// Why the builder has not carried out an instruction. The document is then
/// as it was.
#[derive(Clone, Copy, Debug, PartialEq, Eq)]
pub enum Fault {
    /// The instruction came after `Finish`.
    Finished,
    /// The builder does not implement the instruction.
    Unsupported,
    /// The instruction names a handle that cannot stand where it stands.
    Inconsistent,
}

impl<'d> Instruction<'d> {
    /// Does the builder implement the instruction? It does not implement
    /// processing instructions, template contents, the comparison of nodes,
    /// nor any change to nodes that are already in the tree.
    pub open spec fn is_supported(self) -> bool {
        !(self is CreatePi || self is AppendBasedOnParentNode || self is GetTemplateContents
            || self is SameNode || self is AppendBeforeSibling || self is AddAttrsIfMissing
            || self is RemoveFromParent || self is ReparentChildren)
    }

    /// What the instruction asks of the tree.
    pub open spec fn op(self) -> Op {
        match self {
            Instruction::CreateElement { name, attrs } => Op::CreateElement {
                name: name.local@,
                attrs: pairs_of(attrs@),
            },
            Instruction::CreateComment { text } => Op::CreateComment { text: text@ },
            Instruction::Append { parent, child: NodeOrText::AppendNode(node) } => Op::AppendNode {
                parent: parent.as_parent().unwrap(),
                child: node.as_child().unwrap(),
            },
            Instruction::Append { parent, child: NodeOrText::AppendText(text) } => Op::AppendText {
                element: element_index(parent->Element_0.sxd),
                text: text@,
            },
            _ => Op::Nothing,
        }
    }

    /// Whether the builder implements the instruction.
    pub fn supported(&self) -> (yes: bool)
        ensures
            yes == self.is_supported(),
    {
        match self {
            Instruction::CreatePi { .. } => false,
            Instruction::AppendBasedOnParentNode { .. } => false,
            Instruction::GetTemplateContents { .. } => false,
            Instruction::SameNode { .. } => false,
            Instruction::AppendBeforeSibling { .. } => false,
            Instruction::AddAttrsIfMissing { .. } => false,
            Instruction::RemoveFromParent { .. } => false,
            Instruction::ReparentChildren { .. } => false,
            _ => true,
        }
    }
}

impl<'d> DomBuilder<'d> {
    /// Do the handles of the instruction stand where they can? The parent and
    /// the child of an append go together, and a name is asked of an element.
    pub open spec fn agrees_with(&self, instruction: Instruction<'d>) -> bool {
        match instruction {
            Instruction::Append { parent, child } => self.accepts(parent, child),
            Instruction::ElemName { target } => target is Element,
            _ => true,
        }
    }

    /// The fault that the instruction meets in this state, if any.
    pub open spec fn fault_on(&self, instruction: Instruction<'d>) -> Option<Fault> {
        if self.is_finished() {
            Some(Fault::Finished)
        } else if !instruction.is_supported() {
            Some(Fault::Unsupported)
        } else if !self.agrees_with(instruction) {
            Some(Fault::Inconsistent)
        } else {
            None
        }
    }

    /// Is `reply` the answer that this builder owes to the instruction?
    pub open spec fn answers(&self, instruction: Instruction<'d>, reply: Reply<'d>) -> bool {
        match instruction {
            Instruction::GetDocument => reply == Reply::Node(Handle::Doc),
            Instruction::CreateElement { name, attrs } => {
                &&& reply matches Reply::Node(Handle::Element(e))
                &&& e.name == name
                &&& element_store(e.sxd) == self.store()
                &&& element_index(e.sxd) == self.tree().elements.len()
            },
            Instruction::CreateComment { text } => {
                &&& reply matches Reply::Node(Handle::Comment(c))
                &&& comment_store(c) == self.store()
                &&& comment_index(c) == self.tree().comments.len()
            },
            Instruction::ElemName { target } => reply == Reply::Name(target->Element_0.name),
            Instruction::CompleteScript { node } => reply == Reply::Next(NextParserState::Continue),
            Instruction::Finish => {
                &&& reply matches Reply::Document(doc)
                &&& doc_id(doc) == self.store()
            },
            _ => reply is Done,
        }
    }

    /// Is `after`, with `outcome`, what becomes of this builder when it takes
    /// the instruction? An instruction that meets a fault changes nothing.
    /// Any other is carried out: the tree is what the instruction asks for,
    /// the answer is the one owed, and the builder is finished from `Finish`
    /// on.
    pub open spec fn leads_to(
        &self,
        instruction: Instruction<'d>,
        outcome: Result<Reply<'d>, Fault>,
        after: Self,
    ) -> bool {
        match outcome {
            Err(fault) => self.fault_on(instruction) == Some(fault) && after == *self,
            Ok(reply) => {
                &&& self.fault_on(instruction) is None
                &&& after.store() == self.store()
                &&& after.tree() == self.tree().after(instruction.op())
                &&& after.is_finished() == (instruction is Finish)
                &&& self.answers(instruction, reply)
            },
        }
    }

    /// Takes one instruction, whatever the state of the builder, and carries
    /// it out unless it meets a fault.
    pub fn apply(&mut self, instruction: Instruction<'d>) -> (outcome: Result<Reply<'d>, Fault>)
        ensures
            old(self).leads_to(instruction, outcome, *final(self)),
            old(self).is_finished() ==> outcome == Err::<Reply<'d>, Fault>(Fault::Finished)
                && *final(self) == *old(self),
            forall|h: Handle<'d>| old(self).owns(h) ==> final(self).owns(h),
            old(self).sound() ==> final(self).sound(),
            old(self).tree().text_merged() && (instruction matches Instruction::Append {
                child,
                ..
            } ==> moves_no_node(old(self).tree(), child)) ==> final(self).tree().text_merged(),
    {
        if self.finished() {
            return Err(Fault::Finished);
        }
        match instruction {
            Instruction::GetDocument => Ok(Reply::Node(self.get_document())),
            Instruction::CreateElement { name, attrs } => Ok(
                Reply::Node(self.create_element(name, attrs)),
            ),
            Instruction::CreateComment { text } => Ok(Reply::Node(self.create_comment(text))),
            Instruction::Append { parent, child } => {
                if !self.can_append(&parent, &child) {
                    return Err(Fault::Inconsistent);
                }
                self.append(&parent, child);
                Ok(Reply::Done)
            },
            Instruction::AppendDoctypeToDocument { name, public_id, system_id } => {
                self.append_doctype_to_document(
                    name.as_str(),
                    public_id.as_str(),
                    system_id.as_str(),
                );
                Ok(Reply::Done)
            },
            Instruction::ElemName { target } => {
                if !target.is_element() {
                    return Err(Fault::Inconsistent);
                }
                Ok(Reply::Name(self.elem_name(&target).clone()))
            },
            Instruction::SetQuirksMode { mode } => {
                self.set_quirks_mode(mode);
                Ok(Reply::Done)
            },
            Instruction::MarkScriptAlreadyStarted { node } => {
                self.mark_script_already_started(&node);
                Ok(Reply::Done)
            },
            Instruction::Pop { node } => {
                self.pop(&node);
                Ok(Reply::Done)
            },
            Instruction::AssociateWithForm { target, form, element, prev_element } => {
                self.associate_with_form(&target, &form, (&element, prev_element.as_ref()));
                Ok(Reply::Done)
            },
            Instruction::SetCurrentLine { line_number } => {
                self.set_current_line(line_number);
                Ok(Reply::Done)
            },
            Instruction::CompleteScript { node } => Ok(Reply::Next(self.complete_script(&node))),
            Instruction::ParseError { message } => {
                self.parse_error(message.as_str());
                Ok(Reply::Done)
            },
            Instruction::Finish => Ok(Reply::Document(self.finish())),
            _ => Err(Fault::Unsupported),
        }
    }
}

} // verus!
