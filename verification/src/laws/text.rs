//! Text under an element is coalesced: no two text nodes stand next to each
//! other.

use vstd::prelude::*;
use crate::builder::{after_append, moves_no_node, DomBuilder};
use crate::handle::{Handle, NodeOrText};
use crate::model::{no_adjacent_texts, Child, Op, Parent, Tree};
use crate::store::element_index;

verus! {

/// Text that follows text is merged into it: the text node that is the last
/// child holds its characters followed by the new ones, and the document has
/// no node more than before.
pub proof fn text_after_text_is_merged(tree: Tree, e: int, text: Seq<char>)
    requires
        tree.trailing_text(e) is Some,
        tree.has(Child::Text(tree.trailing_text(e).unwrap())),
    ensures
        tree.with_text_appended(e, text).texts.len() == tree.texts.len(),
        tree.with_text_appended(e, text).texts[tree.trailing_text(e).unwrap()].text
            == tree.texts[tree.trailing_text(e).unwrap()].text + text,
        tree.with_text_appended(e, text).elements == tree.elements,
        tree.with_text_appended(e, text).comments == tree.comments,
        tree.with_text_appended(e, text).root == tree.root,
{
}

/// Text that follows no text becomes a new text node, the last child of the
/// element.
pub proof fn text_after_no_text_is_new(tree: Tree, e: int, text: Seq<char>)
    requires
        0 <= e < tree.elements.len(),
        tree.trailing_text(e) is None,
    ensures
        tree.with_text_appended(e, text).texts.len() == tree.texts.len() + 1,
        tree.with_text_appended(e, text).texts.last().text == text,
        tree.with_text_appended(e, text).elements[e].children == tree.elements[e].children.push(
            Child::Text(tree.texts.len() as int),
        ),
{
}

/// Appending characters never leaves two text nodes next to each other.
pub proof fn appended_text_is_merged(tree: Tree, e: int, text: Seq<char>)
    requires
        tree.text_merged(),
    ensures
        tree.with_text_appended(e, text).text_merged(),
{
    let after = tree.with_text_appended(e, text);
    match tree.trailing_text(e) {
        Some(t) => {
            assert(after.elements == tree.elements);
        },
        None => {
            assert forall|i: int| 0 <= i < after.elements.len() implies no_adjacent_texts(
                (#[trigger] after.elements[i]).children,
            ) by {
                assert(no_adjacent_texts(tree.elements[i].children));
                if i != e {
                    assert(after.elements[i].children == tree.elements[i].children);
                }
            }
        },
    }
}

/// Appending a node that is no text and has not been appended before keeps
/// text coalesced.
pub proof fn appended_node_keeps_text_merged(tree: Tree, parent: Parent, child: Child)
    requires
        tree.text_merged(),
        !(child is Text),
        tree.parent_of(child) is None,
    ensures
        tree.with_child(parent, child).text_merged(),
{
    let after = tree.with_child(parent, child);
    assert forall|i: int| 0 <= i < after.elements.len() implies no_adjacent_texts(
        (#[trigger] after.elements[i]).children,
    ) by {
        assert(no_adjacent_texts(tree.elements[i].children));
        if parent != Parent::Element(i) {
            assert(after.elements[i].children == tree.elements[i].children);
        }
    }
}

/// Text stays coalesced under every instruction that appends no node twice.
pub proof fn text_stays_merged(tree: Tree, op: Op)
    requires
        tree.text_merged(),
        op matches Op::AppendNode { parent, child } ==> !(child is Text) && tree.parent_of(child)
            is None,
    ensures
        tree.after(op).text_merged(),
{
    match op {
        Op::AppendNode { parent, child } => appended_node_keeps_text_merged(tree, parent, child),
        Op::AppendText { element, text } => appended_text_is_merged(tree, element, text),
        _ => {
            assert forall|i: int| 0 <= i < tree.after(op).elements.len() implies no_adjacent_texts(
                (#[trigger] tree.after(op).elements[i]).children,
            ) by {
                if i < tree.elements.len() {
                    assert(no_adjacent_texts(tree.elements[i].children));
                }
            }
        },
    }
}

/// Every append that the builder accepts keeps text coalesced, unless it
/// moves a node that has been appended before.
pub proof fn append_keeps_text_merged(
    builder: DomBuilder<'_>,
    parent: Handle<'_>,
    child: NodeOrText<'_>,
)
    requires
        builder.tree().text_merged(),
        builder.accepts(parent, child),
        moves_no_node(builder.tree(), child),
    ensures
        after_append(builder.tree(), parent, child).text_merged(),
{
    match child {
        NodeOrText::AppendNode(node) => appended_node_keeps_text_merged(
            builder.tree(),
            parent.as_parent().unwrap(),
            node.as_child().unwrap(),
        ),
        NodeOrText::AppendText(text) => appended_text_is_merged(
            builder.tree(),
            element_index(parent->Element_0.sxd),
            text@,
        ),
    }
}

} // verus!
