//! The builder: one method for each instruction of the tree builder.

use vstd::pervasive::unreached;
use vstd::prelude::*;
use vstd::string::StringExecFns;
use sxd_document::dom::{Document, Element, Text};
use sxd_document::Package;
use crate::handle::{ElementHandle, Handle, NextParserState, NodeOrText, QuirksMode};
use crate::laws::attributes::attribute_on_new_element;
use crate::laws::links::{append_keeps_links, empty_tree_is_sound, links_stay, root_stays_textless};
use crate::laws::text::{append_keeps_text_merged, text_stays_merged};
use crate::model::{attrs_map, Op, Pair, Tree};
use crate::name::{pairs_of, Attribute, QualName};
use crate::store;
use crate::store::{
    comment_index, comment_store, doc_id, element_index, element_store, holds_comment,
    holds_element, holds_text, package_is_blank, stands_for, store_id, text_index, tree_of,
    ChildRef, Store,
};

verus! {

/// Builds one document. The builder is either building or finished; only
/// `finish` takes it from the first state to the second, and nothing takes it
/// back.
pub struct DomBuilder<'d> {
    store: Store<'d>,
    finished: bool,
}

/// The tree after `child` has been appended under `parent`: a node becomes
/// the last child of `parent`; characters are merged into the element's last
/// child where that is a text node, and become a new text node otherwise.
pub open spec fn after_append(tree: Tree, parent: Handle<'_>, child: NodeOrText<'_>) -> Tree {
    match child {
        NodeOrText::AppendNode(node) => tree.with_child(
            parent.as_parent().unwrap(),
            node.as_child().unwrap(),
        ),
        NodeOrText::AppendText(text) => tree.with_text_appended(
            element_index(parent->Element_0.sxd),
            text@,
        ),
    }
}

/// Does the append move no node: does it append characters, or a node that
/// has not been appended before?
pub open spec fn moves_no_node(tree: Tree, child: NodeOrText<'_>) -> bool {
    child matches NodeOrText::AppendNode(node) ==> tree.parent_of(node.as_child().unwrap()) is None
}

/// The text node that is the last of the children, if there are children
/// and the last of them is a text node.
pub fn last_text<'d>(children: &Vec<ChildRef<'d>>) -> (last: Option<Text<'d>>)
    ensures
        match last {
            Some(t) => children@.len() > 0 && children@.last() == ChildRef::Text(t),
            None => children@.len() == 0 || !(children@.last() is Text),
        },
{
    let count = children.len();
    if count == 0 {
        return None;
    }
    match &children[count - 1] {
        ChildRef::Text(t) => Some(*t),
        _ => None,
    }
}

/// A package in which nothing has been created yet, for a builder to build
/// in.
pub fn new_package() -> (package: Package)
    ensures
        package_is_blank(package),
{
    Package::new()
}

impl<'d> DomBuilder<'d> {
    /// The store that the builder works on, in the state it is in.
    pub closed spec fn storage(&self) -> Store<'d> {
        self.store
    }

    /// Has `finish` been called?
    pub closed spec fn is_finished(&self) -> bool {
        self.finished
    }

    /// What the document holds.
    pub open spec fn tree(&self) -> Tree {
        tree_of(self.storage())
    }

    /// The storage of the document.
    pub open spec fn store(&self) -> int {
        store_id(self.storage())
    }

    /// Is the document in order: well linked, and without text directly under
    /// the root? It is so from the start, and stays so.
    pub open spec fn sound(&self) -> bool {
        self.tree().well_linked() && self.tree().root_textless()
    }

    /// Does the handle name a node of the builder's document?
    pub open spec fn owns(&self, handle: Handle<'d>) -> bool {
        match handle {
            Handle::Doc => true,
            Handle::Element(e) => holds_element(self.storage(), e.sxd),
            Handle::Comment(c) => holds_comment(self.storage(), c),
        }
    }

    /// Can `child` be appended under `parent`? A node goes under the root or
    /// under an element, and is itself an element or a comment; characters go
    /// under an element only. The nodes are nodes of the builder's document.
    pub open spec fn accepts(&self, parent: Handle<'d>, child: NodeOrText<'d>) -> bool {
        &&& self.owns(parent)
        &&& match child {
            NodeOrText::AppendNode(node) => {
                &&& parent is Doc || parent is Element
                &&& node is Element || node is Comment
                &&& self.owns(node)
            },
            NodeOrText::AppendText(_) => parent is Element,
        }
    }

    /// A builder on the document of a package in which nothing has been
    /// created yet, in the building state. The package is borrowed for as
    /// long as the builder or one of its handles lives.
    pub fn new(package: &'d mut Package) -> (builder: Self)
        requires
            package_is_blank(*old(package)),
        ensures
            !builder.is_finished(),
            builder.tree() == Tree::empty(),
            builder.sound(),
            builder.tree().text_merged(),
    {
        proof {
            empty_tree_is_sound();
        }
        DomBuilder { store: store::open_document(package), finished: false }
    }

    /// Whether `finish` has been called.
    pub fn finished(&self) -> (yes: bool)
        ensures
            yes == self.is_finished(),
    {
        self.finished
    }

    /// Whether the handle names a node of the builder's document.
    pub fn holds(&self, handle: &Handle<'d>) -> (yes: bool)
        ensures
            yes == self.owns(*handle),
    {
        match handle {
            Handle::Doc => true,
            Handle::Element(e) => store::is_element_of(&self.store, &e.sxd),
            Handle::Comment(c) => store::is_comment_of(&self.store, c),
        }
    }

    /// Whether `child` can be appended under `parent`.
    pub fn can_append(&self, parent: &Handle<'d>, child: &NodeOrText<'d>) -> (yes: bool)
        ensures
            yes == self.accepts(*parent, *child),
    {
        if !self.holds(parent) {
            return false;
        }
        match child {
            NodeOrText::AppendNode(node) => {
                (parent.is_document() || parent.is_element()) && (node.is_element()
                    || node.is_comment()) && self.holds(node)
            },
            NodeOrText::AppendText(_) => parent.is_element(),
        }
    }

    /// The text node that is the last child of the element, if the element
    /// has children and the last of them is a text node.
    fn trailing_text_node(&self, parent: &Element<'d>) -> (last: Option<Text<'d>>)
        requires
            holds_element(self.storage(), *parent),
        ensures
            match last {
                Some(t) => {
                    &&& self.tree().trailing_text(element_index(*parent)) == Some(text_index(t))
                    &&& holds_text(self.storage(), t)
                },
                None => self.tree().trailing_text(element_index(*parent)) is None,
            },
    {
        let children = store::children_of(&self.store, parent);
        let last = last_text(&children);
        proof {
            let list = self.tree().elements[element_index(*parent)].children;
            if list.len() > 0 {
                assert(stands_for(
                    self.store,
                    children@[children@.len() - 1],
                    list[list.len() - 1],
                ));
            }
        }
        last
    }

    /// The handle of the document root.
    pub fn get_document(&mut self) -> (handle: Handle<'d>)
        requires
            !old(self).is_finished(),
        ensures
            handle is Doc,
            *final(self) == *old(self),
    {
        Handle::Doc
    }

    /// Creates an element named by the local part of `name` and sets each
    /// attribute in turn, by the local part of its name. The handle keeps
    /// `name` beside the new element.
    pub fn create_element(&mut self, name: QualName, attrs: Vec<Attribute>) -> (handle: Handle<'d>)
        requires
            !old(self).is_finished(),
        ensures
            !final(self).is_finished(),
            final(self).store() == old(self).store(),
            final(self).tree() == old(self).tree().with_new_element(
                name.local@,
                attrs_map(pairs_of(attrs@)),
            ),
            handle is Element,
            handle->Element_0.name == name,
            element_store(handle->Element_0.sxd) == old(self).store(),
            element_index(handle->Element_0.sxd) == old(self).tree().elements.len(),
            final(self).owns(handle),
            forall|h: Handle<'d>| old(self).owns(h) ==> final(self).owns(h),
            old(self).sound() ==> final(self).sound(),
            old(self).tree().text_merged() ==> final(self).tree().text_merged(),
    {
        let ghost before = self.tree();
        let ghost pairs = pairs_of(attrs@);
        let sxd = store::create_element(&mut self.store, name.local.as_str());
        let mut done: usize = 0;
        proof {
            assert(pairs.take(0) =~= Seq::<Pair>::empty());
            assert(self.tree() == before.with_new_element(name.local@, attrs_map(pairs.take(0))));
        }
        while done < attrs.len()
            invariant
                done <= attrs.len(),
                pairs == pairs_of(attrs@),
                !self.finished,
                self.store() == old(self).store(),
                holds_element(self.store, sxd),
                element_index(sxd) == before.elements.len(),
                self.tree() == before.with_new_element(
                    name.local@,
                    attrs_map(pairs.take(done as int)),
                ),
            decreases attrs.len() - done,
        {
            let attribute = &attrs[done];
            store::set_attribute_value(
                &mut self.store,
                &sxd,
                attribute.name.local.as_str(),
                attribute.value.as_str(),
            );
            proof {
                let shorter = pairs.take(done as int);
                let longer = pairs.take(done + 1);
                assert(longer.drop_last() =~= shorter);
                assert(longer.last() == pairs[done as int]);
                attribute_on_new_element(
                    before,
                    name.local@,
                    attrs_map(shorter),
                    pairs[done as int].0,
                    pairs[done as int].1,
                );
                assert(before.with_new_element(name.local@, attrs_map(shorter)).with_attribute(
                    before.elements.len() as int,
                    pairs[done as int].0,
                    pairs[done as int].1,
                ) == before.with_new_element(name.local@, attrs_map(longer)));
            }
            done += 1;
        }
        proof {
            assert(pairs.take(attrs.len() as int) =~= pairs);
            let op = Op::CreateElement { name: name.local@, attrs: pairs };
            if before.well_linked() {
                links_stay(before, op);
            }
            if before.text_merged() {
                text_stays_merged(before, op);
            }
        }
        Handle::Element(ElementHandle { sxd, name })
    }

    /// Creates a comment with the given text.
    pub fn create_comment(&mut self, text: String) -> (handle: Handle<'d>)
        requires
            !old(self).is_finished(),
        ensures
            !final(self).is_finished(),
            final(self).store() == old(self).store(),
            final(self).tree() == old(self).tree().with_comment(text@),
            handle is Comment,
            comment_store(handle->Comment_0) == old(self).store(),
            comment_index(handle->Comment_0) == old(self).tree().comments.len(),
            final(self).owns(handle),
            forall|h: Handle<'d>| old(self).owns(h) ==> final(self).owns(h),
            old(self).sound() ==> final(self).sound(),
            old(self).tree().text_merged() ==> final(self).tree().text_merged(),
    {
        proof {
            let op = Op::CreateComment { text: text@ };
            if self.tree().well_linked() {
                links_stay(self.tree(), op);
            }
            if self.tree().text_merged() {
                text_stays_merged(self.tree(), op);
            }
        }
        let node = store::create_comment(&mut self.store, text.as_str());
        Handle::Comment(node)
    }

    /// Appends a node or characters under `parent`. A node becomes the last
    /// child of the root or of an element. Characters extend the last child
    /// of the element where that is a text node, and become a new text node
    /// behind the last child otherwise.
    pub fn append(&mut self, parent: &Handle<'d>, child: NodeOrText<'d>)
        requires
            !old(self).is_finished(),
            old(self).accepts(*parent, child),
        ensures
            !final(self).is_finished(),
            final(self).store() == old(self).store(),
            final(self).tree() == after_append(old(self).tree(), *parent, child),
            forall|h: Handle<'d>| old(self).owns(h) ==> final(self).owns(h),
            old(self).sound() ==> final(self).sound(),
            old(self).tree().text_merged() && moves_no_node(old(self).tree(), child)
                ==> final(self).tree().text_merged(),
    {
        proof {
            if self.tree().well_linked() {
                append_keeps_links(*self, *parent, child);
            }
            if self.tree().root_textless() {
                root_stays_textless(*self, *parent, child);
            }
            if self.tree().text_merged() && moves_no_node(self.tree(), child) {
                append_keeps_text_merged(*self, *parent, child);
            }
        }
        match child {
            NodeOrText::AppendNode(child_handle) => match parent {
                Handle::Doc => match child_handle {
                    Handle::Comment(child_comment) => {
                        store::append_comment_to_root(&mut self.store, &child_comment)
                    },
                    Handle::Element(child_element) => {
                        store::append_element_to_root(&mut self.store, &child_element.sxd)
                    },
                    Handle::Doc => unreached(),
                },
                Handle::Element(parent_element) => match child_handle {
                    Handle::Comment(child_comment) => {
                        store::append_comment_to_element(
                            &mut self.store,
                            &parent_element.sxd,
                            &child_comment,
                        )
                    },
                    Handle::Element(child_element) => {
                        store::append_element_to_element(
                            &mut self.store,
                            &parent_element.sxd,
                            &child_element.sxd,
                        )
                    },
                    Handle::Doc => unreached(),
                },
                Handle::Comment(_) => unreached(),
            },
            NodeOrText::AppendText(new_text) => match parent {
                Handle::Element(parent_element) => {
                    match self.trailing_text_node(&parent_element.sxd) {
                        Some(text_node) => {
                            let mut text = store::text_content(&self.store, &text_node);
                            text.append(new_text.as_str());
                            store::set_text(&mut self.store, &text_node, text.as_str());
                        },
                        None => {
                            let text_node = store::create_text(&mut self.store, new_text.as_str());
                            store::append_text_to_element(
                                &mut self.store,
                                &parent_element.sxd,
                                &text_node,
                            );
                        },
                    }
                },
                _ => unreached(),
            },
        }
    }

    /// The qualified name that the element was created under.
    pub fn elem_name<'a>(&'a self, target: &'a Handle<'d>) -> (name: &'a QualName)
        requires
            !self.is_finished(),
            *target is Element,
        ensures
            *name == target->Element_0.name,
    {
        match target {
            Handle::Element(e) => &e.name,
            _ => unreached(),
        }
    }

    /// Takes note of a doctype declaration. The document keeps nothing of it.
    pub fn append_doctype_to_document(&mut self, name: &str, public_id: &str, system_id: &str)
        requires
            !old(self).is_finished(),
        ensures
            *final(self) == *old(self),
    {
    }

    /// Takes note of a parse error. The tree builder has recovered from it;
    /// the builder reports nothing.
    pub fn parse_error(&mut self, message: &str)
        requires
            !old(self).is_finished(),
        ensures
            *final(self) == *old(self),
    {
    }

    /// Takes note of the quirks mode. The document keeps nothing of it.
    pub fn set_quirks_mode(&mut self, mode: QuirksMode)
        requires
            !old(self).is_finished(),
        ensures
            *final(self) == *old(self),
    {
    }

    /// Takes note that a script has already started. Nothing runs scripts.
    pub fn mark_script_already_started(&mut self, node: &Handle<'d>)
        requires
            !old(self).is_finished(),
        ensures
            *final(self) == *old(self),
    {
    }

    /// Takes note that a node has left the stack of open elements.
    pub fn pop(&mut self, node: &Handle<'d>)
        requires
            !old(self).is_finished(),
        ensures
            *final(self) == *old(self),
    {
    }

    /// Takes note that `target` belongs to `form`. The document keeps
    /// nothing of it.
    pub fn associate_with_form(
        &mut self,
        target: &Handle<'d>,
        form: &Handle<'d>,
        nodes: (&Handle<'d>, Option<&Handle<'d>>),
    )
        requires
            !old(self).is_finished(),
        ensures
            *final(self) == *old(self),
    {
    }

    /// Takes note of the line that the tree builder has reached.
    pub fn set_current_line(&mut self, line_number: u64)
        requires
            !old(self).is_finished(),
        ensures
            *final(self) == *old(self),
    {
    }

    /// Answers that the tree builder goes on after a script.
    pub fn complete_script(&mut self, node: &Handle<'d>) -> (next: NextParserState)
        requires
            !old(self).is_finished(),
        ensures
            next == NextParserState::Continue,
            *final(self) == *old(self),
    {
        NextParserState::Continue
    }

    /// Ends the building and hands over a handle on the document, which
    /// holds what the builder has built.
    pub fn finish(&mut self) -> (doc: Document<'d>)
        requires
            !old(self).is_finished(),
        ensures
            final(self).is_finished(),
            final(self).storage() == old(self).storage(),
            doc_id(doc) == old(self).store(),
    {
        self.finished = true;
        store::document_of(&self.store)
    }
}

} // verus!
