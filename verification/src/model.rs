//! The mathematical model of a document: what it holds, and what each
//! primitive change makes of it.

use vstd::prelude::*;

verus! {

/// A reference to a node that can be a child. Nodes of each kind are numbered
/// in the order in which their document created them, starting at zero.
pub enum Child {
    Element(int),
    Comment(int),
    Text(int),
}

/// A reference to a node that can have children: the document root, or the
/// element with the given number.
pub enum Parent {
    Root,
    Element(int),
}

/// What the document holds of one element.
pub struct ElementModel {
    /// The local part of the element's name.
    pub name: Seq<char>,
    /// The namespace of the element's name, if it has one.
    pub namespace: Option<Seq<char>>,
    /// The values of the attributes whose names have no namespace, keyed by
    /// the local part of the name.
    pub attrs: Map<Seq<char>, Seq<char>>,
    /// The children, first to last.
    pub children: Seq<Child>,
    /// The node that the element was last appended to, if any.
    pub parent: Option<Parent>,
}

/// What the document holds of one comment or of one text node.
pub struct LeafModel {
    /// The characters of the comment or of the text.
    pub text: Seq<char>,
    /// The node that the leaf was last appended to, if any.
    pub parent: Option<Parent>,
}

/// What a document holds.
pub struct Tree {
    /// The elements, in creation order, linked or not.
    pub elements: Seq<ElementModel>,
    /// The comments, in creation order, linked or not.
    pub comments: Seq<LeafModel>,
    /// The text nodes, in creation order, linked or not.
    pub texts: Seq<LeafModel>,
    /// The children of the root, first to last.
    pub root: Seq<Child>,
}

impl ElementModel {
    /// An element as it is right after creation: no namespace, no attribute,
    /// no child, no parent.
    pub open spec fn blank(name: Seq<char>) -> ElementModel {
        ElementModel {
            name,
            namespace: None,
            attrs: Map::empty(),
            children: Seq::empty(),
            parent: None,
        }
    }
}

impl LeafModel {
    /// A comment or a text node as it is right after creation.
    pub open spec fn blank(text: Seq<char>) -> LeafModel {
        LeafModel { text, parent: None }
    }
}

/// An attribute name and its value, as characters.
pub type Pair = (Seq<char>, Seq<char>);

/// The attribute set that setting each pair in turn leaves behind: each name
/// has the value of the last pair that carries it.
pub open spec fn attrs_map(pairs: Seq<Pair>) -> Map<Seq<char>, Seq<char>>
    decreases pairs.len(),
{
    if pairs.len() == 0 {
        Map::empty()
    } else {
        attrs_map(pairs.drop_last()).insert(pairs.last().0, pairs.last().1)
    }
}

/// `list` with `item` at place `i`, and `list` itself where it has no such
/// place.
pub open spec fn replaced<A>(list: Seq<A>, i: int, item: A) -> Seq<A> {
    Seq::new(list.len(), |j: int| if j == i { item } else { list[j] })
}

/// The test that every node but `child` passes.
pub open spec fn is_not(child: Child) -> spec_fn(Child) -> bool {
    |c: Child| c != child
}

/// The test that every node but an element passes.
pub open spec fn is_no_element() -> spec_fn(Child) -> bool {
    |c: Child| !(c is Element)
}

/// `list` without any occurrence of `child`.
pub open spec fn without(list: Seq<Child>, child: Child) -> Seq<Child> {
    list.filter(is_not(child))
}

/// `list` without the elements among its items.
pub open spec fn without_elements(list: Seq<Child>) -> Seq<Child> {
    list.filter(is_no_element())
}

impl Tree {
    /// The document that holds nothing.
    pub open spec fn empty() -> Tree {
        Tree {
            elements: Seq::empty(),
            comments: Seq::empty(),
            texts: Seq::empty(),
            root: Seq::empty(),
        }
    }

    /// Does `child` name a node that this document has created?
    pub open spec fn has(self, child: Child) -> bool {
        match child {
            Child::Element(i) => 0 <= i < self.elements.len(),
            Child::Comment(i) => 0 <= i < self.comments.len(),
            Child::Text(i) => 0 <= i < self.texts.len(),
        }
    }

    /// Does `parent` name the root or an element that this document has
    /// created?
    pub open spec fn has_parent(self, parent: Parent) -> bool {
        match parent {
            Parent::Root => true,
            Parent::Element(e) => 0 <= e < self.elements.len(),
        }
    }

    /// The children of `parent`.
    pub open spec fn children_of(self, parent: Parent) -> Seq<Child> {
        match parent {
            Parent::Root => self.root,
            Parent::Element(e) => self.elements[e].children,
        }
    }

    /// The node that `child` was last appended to, if any.
    pub open spec fn parent_of(self, child: Child) -> Option<Parent> {
        match child {
            Child::Element(i) => self.elements[i].parent,
            Child::Comment(i) => self.comments[i].parent,
            Child::Text(i) => self.texts[i].parent,
        }
    }

    /// The tree with one more element, named `name` and with the attribute
    /// set `attrs`, without namespace or children and not yet linked.
    pub open spec fn with_new_element(
        self,
        name: Seq<char>,
        attrs: Map<Seq<char>, Seq<char>>,
    ) -> Tree {
        Tree {
            elements: self.elements.push(ElementModel { attrs, ..ElementModel::blank(name) }),
            ..self
        }
    }

    /// The tree with one more element, named `name`, without namespace,
    /// attributes or children and not yet linked.
    pub open spec fn with_element(self, name: Seq<char>) -> Tree {
        self.with_new_element(name, Map::empty())
    }

    /// The tree with one more comment, not yet linked.
    pub open spec fn with_comment(self, text: Seq<char>) -> Tree {
        Tree { comments: self.comments.push(LeafModel::blank(text)), ..self }
    }

    /// The tree with one more text node, not yet linked.
    pub open spec fn with_text(self, text: Seq<char>) -> Tree {
        Tree { texts: self.texts.push(LeafModel::blank(text)), ..self }
    }

    /// The tree in which attribute `name` of element `e` has the value
    /// `value`, whether or not it had one before.
    pub open spec fn with_attribute(self, e: int, name: Seq<char>, value: Seq<char>) -> Tree {
        let prev = self.elements[e];
        Tree {
            elements: replaced(
                self.elements,
                e,
                ElementModel { attrs: prev.attrs.insert(name, value), ..prev },
            ),
            ..self
        }
    }

    /// The tree in which text node `t` holds the characters `text`.
    pub open spec fn with_text_set(self, t: int, text: Seq<char>) -> Tree {
        Tree { texts: replaced(self.texts, t, LeafModel { text, ..self.texts[t] }), ..self }
    }

    /// The tree in which the children of `parent` are `list`.
    pub open spec fn with_children(self, parent: Parent, list: Seq<Child>) -> Tree {
        match parent {
            Parent::Root => Tree { root: list, ..self },
            Parent::Element(e) => Tree {
                elements: replaced(
                    self.elements,
                    e,
                    ElementModel { children: list, ..self.elements[e] },
                ),
                ..self
            },
        }
    }

    /// The tree in which `child` records `parent` as the node it was last
    /// appended to.
    pub open spec fn with_parent(self, child: Child, parent: Parent) -> Tree {
        match child {
            Child::Element(i) => Tree {
                elements: replaced(
                    self.elements,
                    i,
                    ElementModel { parent: Some(parent), ..self.elements[i] },
                ),
                ..self
            },
            Child::Comment(i) => Tree {
                comments: replaced(
                    self.comments,
                    i,
                    LeafModel { parent: Some(parent), ..self.comments[i] },
                ),
                ..self
            },
            Child::Text(i) => Tree {
                texts: replaced(
                    self.texts,
                    i,
                    LeafModel { parent: Some(parent), ..self.texts[i] },
                ),
                ..self
            },
        }
    }

    /// The tree in which `child` is no longer among the children of the node
    /// that it records as its parent.
    pub open spec fn unlinked(self, child: Child) -> Tree {
        match self.parent_of(child) {
            Some(p) => self.with_children(p, without(self.children_of(p), child)),
            None => self,
        }
    }

    /// The tree after `child` has been appended to `parent`, in three steps.
    /// The root keeps one element at most: when an element arrives there, the
    /// elements among the root's children leave. Then `child` leaves the
    /// children of the parent it records, if any. Then it records `parent`
    /// and becomes the last of `parent`'s children.
    pub open spec fn with_child(self, parent: Parent, child: Child) -> Tree {
        let cleared = if parent is Root && child is Element {
            Tree { root: without_elements(self.root), ..self }
        } else {
            self
        };
        let moved = cleared.unlinked(child).with_parent(child, parent);
        moved.with_children(parent, moved.children_of(parent).push(child))
    }

    /// The number of the text node that is the last child of element `e`, if
    /// the element has children and the last of them is a text node.
    pub open spec fn trailing_text(self, e: int) -> Option<int> {
        let list = self.elements[e].children;
        if list.len() > 0 && list.last() is Text {
            Some(list.last()->Text_0)
        } else {
            None
        }
    }

    /// The tree after the characters `text` have been appended to element `e`
    /// as text: where the element's last child is a text node, that node's
    /// characters are followed by `text`; otherwise a new text node holds
    /// `text` and is appended to the element.
    pub open spec fn with_text_appended(self, e: int, text: Seq<char>) -> Tree {
        match self.trailing_text(e) {
            Some(t) => self.with_text_set(t, self.texts[t].text + text),
            None => self.with_text(text).with_child(
                Parent::Element(e),
                Child::Text(self.texts.len() as int),
            ),
        }
    }
}

/// Does `list` hold no two text nodes next to each other?
pub open spec fn no_adjacent_texts(list: Seq<Child>) -> bool {
    forall|k: int|
        0 <= k && k + 1 < list.len() ==> !(#[trigger] list[k] is Text && list[k + 1] is Text)
}

impl Tree {
    /// Is text coalesced everywhere: does no element have two text nodes next
    /// to each other among its children?
    pub open spec fn text_merged(self) -> bool {
        forall|e: int|
            0 <= e < self.elements.len() ==> no_adjacent_texts(
                (#[trigger] self.elements[e]).children,
            )
    }

    /// Is the list of `parent`'s children sound: does it name nodes of the
    /// document only, none of them twice, each of which records `parent` as
    /// the node it was last appended to?
    pub open spec fn list_is_sound(self, parent: Parent) -> bool {
        let list = self.children_of(parent);
        &&& list.no_duplicates()
        &&& forall|k: int|
            0 <= k < list.len() ==> self.has(#[trigger] list[k]) && self.parent_of(list[k])
                == Some(parent)
    }

    /// Is the document well linked: is the list of children of the root and
    /// of every element sound? Then no node is a child twice, of one parent
    /// or of two.
    pub open spec fn well_linked(self) -> bool {
        forall|parent: Parent| self.has_parent(parent) ==> #[trigger] self.list_is_sound(parent)
    }

    /// Is there no text directly under the root?
    pub open spec fn root_textless(self) -> bool {
        forall|k: int| 0 <= k < self.root.len() ==> !(#[trigger] self.root[k] is Text)
    }
}

/// What an instruction asks of the tree. Nodes are named by their numbers, so
/// that the same instructions read the same whichever document receives them.
pub enum Op {
    /// An instruction that leaves the tree as it is.
    Nothing,
    /// Create an element with this name and these attributes, in this order.
    CreateElement { name: Seq<char>, attrs: Seq<Pair> },
    /// Create a comment with this text.
    CreateComment { text: Seq<char> },
    /// Append the node `child` under `parent`.
    AppendNode { parent: Parent, child: Child },
    /// Append the characters `text` under the element numbered `element`.
    AppendText { element: int, text: Seq<char> },
}

impl Tree {
    /// The tree after one instruction.
    pub open spec fn after(self, op: Op) -> Tree {
        match op {
            Op::Nothing => self,
            Op::CreateElement { name, attrs } => self.with_new_element(name, attrs_map(attrs)),
            Op::CreateComment { text } => self.with_comment(text),
            Op::AppendNode { parent, child } => self.with_child(parent, child),
            Op::AppendText { element, text } => self.with_text_appended(element, text),
        }
    }

    /// The tree after a sequence of instructions, first to last.
    pub open spec fn after_all(self, ops: Seq<Op>) -> Tree
        decreases ops.len(),
    {
        if ops.len() == 0 {
            self
        } else {
            self.after_all(ops.drop_last()).after(ops.last())
        }
    }
}

} // verus!
