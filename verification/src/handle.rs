//! The handles that the builder hands to the tree builder, and the small
//! values that travel with the instructions.

use vstd::prelude::*;
use sxd_document::dom::{Comment, Element};
use crate::model::{Child, Parent};
use crate::name::QualName;
use crate::store::{comment_index, element_index};

verus! {

/// An element of the document together with the qualified name that it was
/// created under.
#[derive(Debug)]
pub struct ElementHandle<'d> {
    pub sxd: Element<'d>,
    pub name: QualName,
}

/// What the tree builder holds for a node: the document root, an element or
/// a comment. Text nodes have no handle.
#[derive(Debug)]
pub enum Handle<'d> {
    Doc,
    Element(ElementHandle<'d>),
    Comment(Comment<'d>),
}

/// What an append instruction appends: a node that was created before, or
/// characters.
#[derive(Debug)]
pub enum NodeOrText<'d> {
    AppendNode(Handle<'d>),
    AppendText(String),
}

/// The quirks mode that the tree builder reports.
#[derive(Clone, Copy, Debug, PartialEq, Eq)]
pub enum QuirksMode {
    Quirks,
    LimitedQuirks,
    NoQuirks,
}

/// What the tree builder does after a script has completed.
#[derive(Clone, Copy, Debug, PartialEq, Eq)]
pub enum NextParserState {
    Suspend,
    Continue,
}

impl<'d> Clone for ElementHandle<'d> {
    fn clone(&self) -> (copy: Self)
        ensures
            copy == *self,
    {
        ElementHandle { sxd: self.sxd, name: self.name.clone() }
    }
}

impl<'d> Clone for Handle<'d> {
    fn clone(&self) -> (copy: Self)
        ensures
            copy == *self,
    {
        match self {
            Handle::Doc => Handle::Doc,
            Handle::Element(e) => Handle::Element(e.clone()),
            Handle::Comment(c) => Handle::Comment(*c),
        }
    }
}

impl<'d> Clone for NodeOrText<'d> {
    fn clone(&self) -> (copy: Self)
        ensures
            copy == *self,
    {
        match self {
            NodeOrText::AppendNode(node) => NodeOrText::AppendNode(node.clone()),
            NodeOrText::AppendText(text) => NodeOrText::AppendText(text.clone()),
        }
    }
}

impl<'d> Handle<'d> {
    /// The node that the handle names as a parent; a comment has no
    /// children and names none.
    pub open spec fn as_parent(self) -> Option<Parent> {
        match self {
            Handle::Doc => Some(Parent::Root),
            Handle::Element(e) => Some(Parent::Element(element_index(e.sxd))),
            Handle::Comment(_) => None,
        }
    }

    /// The node that the handle names as a child; the root is no child and
    /// names none.
    pub open spec fn as_child(self) -> Option<Child> {
        match self {
            Handle::Doc => None,
            Handle::Element(e) => Some(Child::Element(element_index(e.sxd))),
            Handle::Comment(c) => Some(Child::Comment(comment_index(c))),
        }
    }

    /// Is this the handle of the document root?
    pub fn is_document(&self) -> (yes: bool)
        ensures
            yes == (*self is Doc),
    {
        match self {
            Handle::Doc => true,
            _ => false,
        }
    }

    /// Is this the handle of an element?
    pub fn is_element(&self) -> (yes: bool)
        ensures
            yes == (*self is Element),
    {
        match self {
            Handle::Element(_) => true,
            _ => false,
        }
    }

    /// Is this the handle of a comment?
    pub fn is_comment(&self) -> (yes: bool)
        ensures
            yes == (*self is Comment),
    {
        match self {
            Handle::Comment(_) => true,
            _ => false,
        }
    }
}

} // verus!
