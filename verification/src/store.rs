//! The document store of `sxd_document`, as the builder sees it.
//!
//! Nothing in this file is proved. It declares the store's types, names what
//! a store holds, and states for each primitive of the store that the builder
//! calls what the primitive does to the store.
//!
//! The document handle of `sxd_document` can be copied, and its methods
//! change the storage behind it in place: what such a handle holds is no
//! function of the handle. The state is therefore carried by a `Store`, which
//! wraps the handle and cannot be copied. The functions that change the
//! storage take the store by `&mut`, so that a contract can speak of the
//! store before and after the call. A store comes from `open_document` only,
//! which borrows the package for as long as the store lives, so that no
//! second store stands for the same storage. Of a bare document handle, as
//! `document_of` hands it out, only the identity is named.
//!
//! A node handle knows its storage; a function that takes a store and a node
//! asks that the node be one of that store.

use vstd::prelude::*;
use sxd_document::dom::{ChildOfElement, Comment, Document, Element, Text};
use sxd_document::Package;
use crate::model::{Child, ElementModel, LeafModel, Parent, Tree};

verus! {

/// `sxd_document::Package`, which owns the storage of one document.
#[verifier::external_type_specification]
#[verifier::external_body]
pub struct ExPackage(Package);

/// `sxd_document::dom::Document`, a handle on the storage of a package.
#[verifier::external_type_specification]
#[verifier::external_body]
pub struct ExDocument<'d>(Document<'d>);

/// `sxd_document::dom::Element`, a handle on one element.
#[verifier::external_type_specification]
#[verifier::external_body]
pub struct ExElement<'d>(Element<'d>);

/// `sxd_document::dom::Comment`, a handle on one comment.
#[verifier::external_type_specification]
#[verifier::external_body]
pub struct ExComment<'d>(Comment<'d>);

/// `sxd_document::dom::Text`, a handle on one text node.
#[verifier::external_type_specification]
#[verifier::external_body]
pub struct ExText<'d>(Text<'d>);

/// The storage of one document, in the state it is in. It holds the document
/// handle of `sxd_document` and, unlike that handle, cannot be copied.
#[verifier::external_body]
pub struct Store<'d> {
    doc: Document<'d>,
}

/// One child of an element, as the store hands it out.
pub enum ChildRef<'d> {
    Element(Element<'d>),
    Text(Text<'d>),
    Comment(Comment<'d>),
    /// A child of a kind that the builder never creates.
    Other,
}

/// Has nothing been created in the package yet?
pub uninterp spec fn package_is_blank(package: Package) -> bool;

/// The storage that a document handle refers to. Two handles with the same
/// number here are handles on the same document.
pub uninterp spec fn doc_id(doc: Document<'_>) -> int;

/// The storage that the store stands for, numbered as `doc_id` numbers it.
pub uninterp spec fn store_id(store: Store<'_>) -> int;

/// The elements that have been created in the store, in creation order.
pub uninterp spec fn store_elements(store: Store<'_>) -> Seq<ElementModel>;

/// The comments that have been created in the store, in creation order.
pub uninterp spec fn store_comments(store: Store<'_>) -> Seq<LeafModel>;

/// The text nodes that have been created in the store, in creation order.
pub uninterp spec fn store_texts(store: Store<'_>) -> Seq<LeafModel>;

/// The children of the root of the store's document, first to last.
pub uninterp spec fn store_root(store: Store<'_>) -> Seq<Child>;

/// The storage in which the element was created.
pub uninterp spec fn element_store(e: Element<'_>) -> int;

/// The element's place among the elements of its storage.
pub uninterp spec fn element_index(e: Element<'_>) -> int;

/// The storage in which the comment was created.
pub uninterp spec fn comment_store(c: Comment<'_>) -> int;

/// The comment's place among the comments of its storage.
pub uninterp spec fn comment_index(c: Comment<'_>) -> int;

/// The storage in which the text node was created.
pub uninterp spec fn text_store(t: Text<'_>) -> int;

/// The text node's place among the text nodes of its storage.
pub uninterp spec fn text_index(t: Text<'_>) -> int;

/// All that a store holds.
pub open spec fn tree_of(store: Store<'_>) -> Tree {
    Tree {
        elements: store_elements(store),
        comments: store_comments(store),
        texts: store_texts(store),
        root: store_root(store),
    }
}

/// Is `e` an element of `store`?
pub open spec fn holds_element(store: Store<'_>, e: Element<'_>) -> bool {
    element_store(e) == store_id(store) && 0 <= element_index(e) < store_elements(store).len()
}

/// Is `c` a comment of `store`?
pub open spec fn holds_comment(store: Store<'_>, c: Comment<'_>) -> bool {
    comment_store(c) == store_id(store) && 0 <= comment_index(c) < store_comments(store).len()
}

/// Is `t` a text node of `store`?
pub open spec fn holds_text(store: Store<'_>, t: Text<'_>) -> bool {
    text_store(t) == store_id(store) && 0 <= text_index(t) < store_texts(store).len()
}

/// Is `child` a handle on the node of `store` that `named` names?
pub open spec fn stands_for(store: Store<'_>, child: ChildRef<'_>, named: Child) -> bool {
    match child {
        ChildRef::Element(e) => holds_element(store, e) && named == Child::Element(
            element_index(e),
        ),
        ChildRef::Text(t) => holds_text(store, t) && named == Child::Text(text_index(t)),
        ChildRef::Comment(c) => holds_comment(store, c) && named == Child::Comment(
            comment_index(c),
        ),
        ChildRef::Other => false,
    }
}

/// `Package::new`: a package in which nothing has been created yet.
pub assume_specification[ Package::new ]() -> (package: Package)
    ensures
        package_is_blank(package),
;

/// `Package::as_document`, on a package in which nothing has been created
/// yet: the store of the package, which holds nothing.
#[verifier::external_body]
pub(crate) fn open_document<'d>(package: &'d mut Package) -> (store: Store<'d>)
    requires
        package_is_blank(*old(package)),
    ensures
        store_elements(store) == Seq::<ElementModel>::empty(),
        store_comments(store) == Seq::<LeafModel>::empty(),
        store_texts(store) == Seq::<LeafModel>::empty(),
        store_root(store) == Seq::<Child>::empty(),
{
    Store { doc: package.as_document() }
}

/// A copy of the `Document` that the store wraps: a handle on the store's
/// storage. Nothing is said of what the handle holds.
#[verifier::external_body]
pub(crate) fn document_of<'d>(store: &Store<'d>) -> (doc: Document<'d>)
    ensures
        doc_id(doc) == store_id(*store),
{
    store.doc
}

/// `Document::create_element` with a bare local name: the store has one more
/// element, with the given name, no namespace, no attribute, no child and no
/// parent; the handle returned is a handle on it. Nothing else changes.
#[verifier::external_body]
pub(crate) fn create_element<'d>(store: &mut Store<'d>, name: &str) -> (e: Element<'d>)
    ensures
        store_id(*final(store)) == store_id(*old(store)),
        tree_of(*final(store)) == tree_of(*old(store)).with_element(name@),
        element_store(e) == store_id(*old(store)),
        element_index(e) == store_elements(*old(store)).len(),
{
    store.doc.create_element(name)
}

/// `Document::create_comment`: the store has one more comment, with the
/// given text and no parent; the handle returned is a handle on it. Nothing
/// else changes.
#[verifier::external_body]
pub(crate) fn create_comment<'d>(store: &mut Store<'d>, text: &str) -> (c: Comment<'d>)
    ensures
        store_id(*final(store)) == store_id(*old(store)),
        tree_of(*final(store)) == tree_of(*old(store)).with_comment(text@),
        comment_store(c) == store_id(*old(store)),
        comment_index(c) == store_comments(*old(store)).len(),
{
    store.doc.create_comment(text)
}

/// `Document::create_text`: the store has one more text node, with the given
/// characters and no parent; the handle returned is a handle on it. Nothing
/// else changes.
#[verifier::external_body]
pub(crate) fn create_text<'d>(store: &mut Store<'d>, text: &str) -> (t: Text<'d>)
    ensures
        store_id(*final(store)) == store_id(*old(store)),
        tree_of(*final(store)) == tree_of(*old(store)).with_text(text@),
        text_store(t) == store_id(*old(store)),
        text_index(t) == store_texts(*old(store)).len(),
{
    store.doc.create_text(text)
}

/// `Element::set_attribute_value` with a bare local name: the element's
/// attribute of that name and without namespace has the given value, whether
/// or not the element had such an attribute before. Nothing else changes.
#[verifier::external_body]
pub(crate) fn set_attribute_value<'d>(
    store: &mut Store<'d>,
    e: &Element<'d>,
    name: &str,
    value: &str,
)
    requires
        holds_element(*old(store), *e),
    ensures
        store_id(*final(store)) == store_id(*old(store)),
        tree_of(*final(store)) == tree_of(*old(store)).with_attribute(
            element_index(*e),
            name@,
            value@,
        ),
{
    e.set_attribute_value(name, value);
}

/// `Root::append_child` with an element: the elements among the root's
/// children leave, the element leaves the children of its recorded parent,
/// and it becomes the root's last child.
#[verifier::external_body]
pub(crate) fn append_element_to_root<'d>(store: &mut Store<'d>, child: &Element<'d>)
    requires
        holds_element(*old(store), *child),
    ensures
        store_id(*final(store)) == store_id(*old(store)),
        tree_of(*final(store)) == tree_of(*old(store)).with_child(
            Parent::Root,
            Child::Element(element_index(*child)),
        ),
{
    store.doc.root().append_child(*child);
}

/// `Root::append_child` with a comment: the comment leaves the children of
/// its recorded parent and becomes the root's last child.
#[verifier::external_body]
pub(crate) fn append_comment_to_root<'d>(store: &mut Store<'d>, child: &Comment<'d>)
    requires
        holds_comment(*old(store), *child),
    ensures
        store_id(*final(store)) == store_id(*old(store)),
        tree_of(*final(store)) == tree_of(*old(store)).with_child(
            Parent::Root,
            Child::Comment(comment_index(*child)),
        ),
{
    store.doc.root().append_child(*child);
}

/// `Element::append_child` with an element: the child leaves the children of
/// its recorded parent and becomes the last child of `parent`.
#[verifier::external_body]
pub(crate) fn append_element_to_element<'d>(
    store: &mut Store<'d>,
    parent: &Element<'d>,
    child: &Element<'d>,
)
    requires
        holds_element(*old(store), *parent),
        holds_element(*old(store), *child),
    ensures
        store_id(*final(store)) == store_id(*old(store)),
        tree_of(*final(store)) == tree_of(*old(store)).with_child(
            Parent::Element(element_index(*parent)),
            Child::Element(element_index(*child)),
        ),
{
    parent.append_child(*child);
}

/// `Element::append_child` with a comment: the comment leaves the children of
/// its recorded parent and becomes the last child of `parent`.
#[verifier::external_body]
pub(crate) fn append_comment_to_element<'d>(
    store: &mut Store<'d>,
    parent: &Element<'d>,
    child: &Comment<'d>,
)
    requires
        holds_element(*old(store), *parent),
        holds_comment(*old(store), *child),
    ensures
        store_id(*final(store)) == store_id(*old(store)),
        tree_of(*final(store)) == tree_of(*old(store)).with_child(
            Parent::Element(element_index(*parent)),
            Child::Comment(comment_index(*child)),
        ),
{
    parent.append_child(*child);
}

/// `Element::append_child` with a text node: the text node leaves the
/// children of its recorded parent and becomes the last child of `parent`.
#[verifier::external_body]
pub(crate) fn append_text_to_element<'d>(
    store: &mut Store<'d>,
    parent: &Element<'d>,
    child: &Text<'d>,
)
    requires
        holds_element(*old(store), *parent),
        holds_text(*old(store), *child),
    ensures
        store_id(*final(store)) == store_id(*old(store)),
        tree_of(*final(store)) == tree_of(*old(store)).with_child(
            Parent::Element(element_index(*parent)),
            Child::Text(text_index(*child)),
        ),
{
    parent.append_child(*child);
}

/// `Element::children`: a handle on each child of the element, first to
/// last, each a handle on the node of the store that stands at its place
/// among the element's children. A store holds elements, text nodes and
/// comments only, since its wrappers create nothing else in it and it starts
/// from nothing.
#[verifier::external_body]
pub(crate) fn children_of<'d>(store: &Store<'d>, parent: &Element<'d>) -> (list: Vec<
    ChildRef<'d>,
>)
    requires
        holds_element(*store, *parent),
    ensures
        list@.len() == store_elements(*store)[element_index(*parent)].children.len(),
        forall|i: int|
            0 <= i < list@.len() ==> stands_for(
                *store,
                #[trigger] list@[i],
                store_elements(*store)[element_index(*parent)].children[i],
            ),
{
    let mut list = Vec::new();
    for child in parent.children() {
        list.push(
            match child {
                ChildOfElement::Element(e) => ChildRef::Element(e),
                ChildOfElement::Text(t) => ChildRef::Text(t),
                ChildOfElement::Comment(c) => ChildRef::Comment(c),
                ChildOfElement::ProcessingInstruction(_) => ChildRef::Other,
            },
        );
    }
    list
}

/// `Text::text`: the characters that the text node holds.
#[verifier::external_body]
pub(crate) fn text_content<'d>(store: &Store<'d>, t: &Text<'d>) -> (content: String)
    requires
        holds_text(*store, *t),
    ensures
        content@ == store_texts(*store)[text_index(*t)].text,
{
    t.text().to_owned()
}

/// `Text::set_text`: the text node holds the given characters. Nothing else
/// changes.
#[verifier::external_body]
pub(crate) fn set_text<'d>(store: &mut Store<'d>, t: &Text<'d>, text: &str)
    requires
        holds_text(*old(store), *t),
    ensures
        store_id(*final(store)) == store_id(*old(store)),
        tree_of(*final(store)) == tree_of(*old(store)).with_text_set(text_index(*t), text@),
{
    t.set_text(text);
}

/// `Element::document`, compared with the store's document: whether the
/// element is one of `store`.
#[verifier::external_body]
pub(crate) fn is_element_of<'d>(store: &Store<'d>, e: &Element<'d>) -> (yes: bool)
    ensures
        yes == holds_element(*store, *e),
{
    e.document() == store.doc
}

/// `Comment::document`, compared with the store's document: whether the
/// comment is one of `store`.
#[verifier::external_body]
pub(crate) fn is_comment_of<'d>(store: &Store<'d>, c: &Comment<'d>) -> (yes: bool)
    ensures
        yes == holds_comment(*store, *c),
{
    c.document() == store.doc
}

} // verus!
