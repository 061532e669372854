//! How the nodes of a document hang together, and that appending keeps them
//! so.

use vstd::prelude::*;
use crate::builder::{after_append, DomBuilder};
use crate::handle::{Handle, NodeOrText};
use crate::model::{
    is_no_element, is_not, without, without_elements, Child, Op, Parent, Tree,
};
use crate::store::element_index;

verus! {

/// The document that holds nothing is well linked, has text coalesced and no
/// text under the root.
pub proof fn empty_tree_is_sound()
    ensures
        Tree::empty().well_linked(),
        Tree::empty().text_merged(),
        Tree::empty().root_textless(),
{
    let empty = Tree::empty();
    assert forall|p: Parent| empty.has_parent(p) implies #[trigger] empty.list_is_sound(p) by {}
}

/// No instruction creates more than one node of a kind, and none destroys a
/// node: the numbers that name the nodes keep naming them.
pub proof fn nodes_stay(tree: Tree, op: Op)
    ensures
        tree.elements.len() <= tree.after(op).elements.len() <= tree.elements.len() + 1,
        tree.comments.len() <= tree.after(op).comments.len() <= tree.comments.len() + 1,
        tree.texts.len() <= tree.after(op).texts.len() <= tree.texts.len() + 1,
        forall|child: Child| tree.has(child) ==> tree.after(op).has(child),
{
}

/// The characters of a comment are fixed when it is created.
pub proof fn comments_stay(tree: Tree, op: Op, c: int)
    requires
        0 <= c < tree.comments.len(),
    ensures
        tree.after(op).comments[c].text == tree.comments[c].text,
{
}

/// An appended node becomes the last child of its parent.
pub proof fn appended_node_is_last(tree: Tree, parent: Parent, child: Child)
    requires
        tree.has_parent(parent),
    ensures
        tree.with_child(parent, child).children_of(parent).len() > 0,
        tree.with_child(parent, child).children_of(parent).last() == child,
{
}

/// A node that is appended for the first time goes behind the children that
/// its parent has, which stay as they are; under the root an element takes
/// the place of the elements there.
pub proof fn first_append_extends(tree: Tree, parent: Parent, child: Child)
    requires
        tree.has_parent(parent),
        tree.parent_of(child) is None,
    ensures
        tree.with_child(parent, child).children_of(parent) == if parent is Root && child
            is Element {
            without_elements(tree.root).push(child)
        } else {
            tree.children_of(parent).push(child)
        },
{
}

/// Appending a node for the first time leaves the children of every other
/// parent as they are.
pub proof fn first_append_is_local(tree: Tree, parent: Parent, child: Child, other: Parent)
    requires
        tree.has_parent(other),
        other != parent,
        tree.parent_of(child) is None,
    ensures
        tree.with_child(parent, child).children_of(other) == tree.children_of(other),
{
}

/// In a well linked document no node has two parents.
pub proof fn one_parent_at_most(tree: Tree, child: Child, first: Parent, second: Parent)
    requires
        tree.well_linked(),
        tree.has_parent(first),
        tree.has_parent(second),
        tree.children_of(first).contains(child),
        tree.children_of(second).contains(child),
    ensures
        first == second,
{
    assert(tree.list_is_sound(first));
    assert(tree.list_is_sound(second));
    let here = tree.children_of(first);
    let there = tree.children_of(second);
    let i = choose|i: int| 0 <= i < here.len() && here[i] == child;
    let j = choose|j: int| 0 <= j < there.len() && there[j] == child;
    assert(tree.parent_of(here[i]) == Some(first));
    assert(tree.parent_of(there[j]) == Some(second));
}

/// Appending a node keeps the document well linked: the node leaves the list
/// it was in before it joins the list of its new parent.
pub proof fn appended_node_keeps_links(tree: Tree, parent: Parent, child: Child)
    requires
        tree.well_linked(),
        tree.has(child),
        tree.has_parent(parent),
    ensures
        tree.with_child(parent, child).well_linked(),
{
    let cleared = if parent is Root && child is Element {
        Tree { root: without_elements(tree.root), ..tree }
    } else {
        tree
    };
    assert(cleared.well_linked()) by {
        assert forall|p: Parent| cleared.has_parent(p) implies #[trigger] cleared.list_is_sound(
            p,
        ) by {
            assert(tree.list_is_sound(p));
            if p is Root {
                lemma_without_elements(tree.root);
                lemma_sound_sublist(tree, cleared, p);
            }
        }
    }
    let loose = cleared.unlinked(child);
    assert(loose.well_linked() && forall|p: Parent|
        loose.has_parent(p) ==> !(#[trigger] loose.children_of(p)).contains(child)) by {
        lemma_unlinked(cleared, child);
    }
    let moved = loose.with_parent(child, parent);
    assert forall|p: Parent| moved.has_parent(p) implies moved.children_of(p)
        == loose.children_of(p) by {}
    assert(moved.well_linked()) by {
        assert forall|p: Parent| moved.has_parent(p) implies #[trigger] moved.list_is_sound(p) by {
            assert(loose.list_is_sound(p));
            let list = moved.children_of(p);
            assert forall|k: int| 0 <= k < list.len() implies moved.has(#[trigger] list[k])
                && moved.parent_of(list[k]) == Some(p) by {
                assert(loose.has(list[k]) && loose.parent_of(list[k]) == Some(p));
                assert(loose.children_of(p).contains(list[k]));
                assert(list[k] != child);
            }
        }
    }
    let after = tree.with_child(parent, child);
    assert(after == moved.with_children(parent, moved.children_of(parent).push(child)));
    assert forall|p: Parent| after.has_parent(p) implies #[trigger] after.list_is_sound(p) by {
        assert(moved.list_is_sound(p));
        assert(moved.has_parent(parent));
        let list = after.children_of(p);
        if p == parent {
            let before = moved.children_of(parent);
            assert(list == before.push(child));
            assert(!loose.children_of(parent).contains(child));
            assert forall|k: int| 0 <= k < list.len() implies after.has(#[trigger] list[k])
                && after.parent_of(list[k]) == Some(p) by {
                if k < before.len() {
                    assert(list[k] == before[k]);
                    assert(moved.has(before[k]) && moved.parent_of(before[k]) == Some(p));
                }
            }
            assert forall|i: int, j: int| 0 <= i < list.len() && 0 <= j < list.len() && i
                != j implies list[i] != list[j] by {
                if i < before.len() {
                    assert(list[i] == before[i]);
                    assert(before.contains(before[i]));
                }
                if j < before.len() {
                    assert(list[j] == before[j]);
                    assert(before.contains(before[j]));
                }
            }
        } else {
            assert(list == moved.children_of(p));
            assert forall|k: int| 0 <= k < list.len() implies after.has(#[trigger] list[k])
                && after.parent_of(list[k]) == Some(p) by {
                assert(moved.has(list[k]) && moved.parent_of(list[k]) == Some(p));
            }
        }
    }
}

/// A tree that differs from a well linked one only in that the list of `p`
/// has lost items is sound at `p`.
proof fn lemma_sound_sublist(tree: Tree, thinner: Tree, p: Parent)
    requires
        tree.list_is_sound(p),
        thinner.elements.len() == tree.elements.len(),
        thinner.comments == tree.comments,
        thinner.texts == tree.texts,
        forall|i: int|
            0 <= i < tree.elements.len() ==> (#[trigger] thinner.elements[i]).parent
                == tree.elements[i].parent,
        thinner.children_of(p).no_duplicates(),
        forall|k: int|
            0 <= k < thinner.children_of(p).len() ==> tree.children_of(p).contains(
                #[trigger] thinner.children_of(p)[k],
            ),
    ensures
        thinner.list_is_sound(p),
{
    let list = thinner.children_of(p);
    assert forall|k: int| 0 <= k < list.len() implies thinner.has(#[trigger] list[k])
        && thinner.parent_of(list[k]) == Some(p) by {
        let full = tree.children_of(p);
        let j = choose|j: int| 0 <= j < full.len() && full[j] == list[k];
        assert(tree.has(full[j]) && tree.parent_of(full[j]) == Some(p));
    }
}

/// Unlinking a node keeps the document well linked and leaves the node in no
/// list.
proof fn lemma_unlinked(tree: Tree, child: Child)
    requires
        tree.well_linked(),
        tree.has(child),
    ensures
        tree.unlinked(child).well_linked(),
        forall|p: Parent|
            tree.unlinked(child).has_parent(p) ==> !(#[trigger] tree.unlinked(child).children_of(
                p,
            )).contains(child),
{
    let loose = tree.unlinked(child);
    match tree.parent_of(child) {
        Some(was) => {
            lemma_without(tree.children_of(was), child);
            assert forall|p: Parent| loose.has_parent(p) implies #[trigger] loose.list_is_sound(
                p,
            ) by {
                assert(tree.list_is_sound(p));
                if p == was {
                    assert(loose.children_of(p) == without(tree.children_of(was), child));
                    lemma_sound_sublist(tree, loose, p);
                } else {
                    assert(loose.children_of(p) == tree.children_of(p));
                    let list = loose.children_of(p);
                    assert forall|k: int| 0 <= k < list.len() implies loose.has(#[trigger] list[k])
                        && loose.parent_of(list[k]) == Some(p) by {
                        assert(tree.has(list[k]) && tree.parent_of(list[k]) == Some(p));
                    }
                }
            }
            assert forall|p: Parent| loose.has_parent(p) implies !(#[trigger] loose.children_of(
                p,
            )).contains(child) by {
                if loose.children_of(p).contains(child) {
                    let k = choose|k: int|
                        0 <= k < loose.children_of(p).len() && loose.children_of(p)[k] == child;
                    if p == was {
                        assert(without(tree.children_of(was), child)[k] != child);
                    } else {
                        assert(tree.list_is_sound(p));
                        assert(tree.parent_of(tree.children_of(p)[k]) == Some(p));
                    }
                }
            }
        },
        None => {
            assert forall|p: Parent| loose.has_parent(p) implies !(#[trigger] loose.children_of(
                p,
            )).contains(child) by {
                if loose.children_of(p).contains(child) {
                    let k = choose|k: int|
                        0 <= k < loose.children_of(p).len() && loose.children_of(p)[k] == child;
                    assert(tree.list_is_sound(p));
                    assert(tree.parent_of(tree.children_of(p)[k]) == Some(p));
                }
            }
        },
    }
}

/// Every instruction keeps the document well linked, provided that the nodes
/// it names are nodes of the document.
pub proof fn links_stay(tree: Tree, op: Op)
    requires
        tree.well_linked(),
        op matches Op::AppendNode { parent, child } ==> tree.has(child) && tree.has_parent(parent),
        op matches Op::AppendText { element, text } ==> 0 <= element < tree.elements.len(),
    ensures
        tree.after(op).well_linked(),
{
    let after = tree.after(op);
    match op {
        Op::AppendNode { parent, child } => appended_node_keeps_links(tree, parent, child),
        Op::AppendText { element, text } => {
            match tree.trailing_text(element) {
                Some(t) => {
                    lemma_same_links(tree, after);
                },
                None => {
                    let grown = tree.with_text(text);
                    lemma_same_links(tree, grown);
                    appended_node_keeps_links(
                        grown,
                        Parent::Element(element),
                        Child::Text(tree.texts.len() as int),
                    );
                },
            }
        },
        Op::CreateElement { name, attrs } => {
            lemma_same_links(tree, after);
        },
        Op::CreateComment { text } => {
            lemma_same_links(tree, after);
        },
        Op::Nothing => {},
    }
}

/// A tree with the nodes of a well linked one, linked as they are there, and
/// with more nodes that are not linked and have no children, is well linked.
proof fn lemma_same_links(tree: Tree, grown: Tree)
    requires
        tree.well_linked(),
        grown.root == tree.root,
        tree.elements.len() <= grown.elements.len(),
        tree.comments.len() <= grown.comments.len(),
        tree.texts.len() <= grown.texts.len(),
        forall|i: int|
            0 <= i < tree.elements.len() ==> (#[trigger] grown.elements[i]).children
                == tree.elements[i].children && grown.elements[i].parent == tree.elements[i].parent,
        forall|i: int|
            tree.elements.len() <= i < grown.elements.len() ==> (
            #[trigger] grown.elements[i]).children.len() == 0,
        forall|i: int|
            0 <= i < tree.comments.len() ==> (#[trigger] grown.comments[i]).parent
                == tree.comments[i].parent,
        forall|i: int|
            0 <= i < tree.texts.len() ==> (#[trigger] grown.texts[i]).parent
                == tree.texts[i].parent,
    ensures
        grown.well_linked(),
{
    assert forall|p: Parent| grown.has_parent(p) implies #[trigger] grown.list_is_sound(p) by {
        let list = grown.children_of(p);
        if tree.has_parent(p) {
            assert(tree.list_is_sound(p));
            assert(list == tree.children_of(p));
            assert forall|k: int| 0 <= k < list.len() implies grown.has(#[trigger] list[k])
                && grown.parent_of(list[k]) == Some(p) by {
                assert(tree.has(list[k]) && tree.parent_of(list[k]) == Some(p));
            }
        } else {
            assert(list.len() == 0);
        }
    }
}

/// Every append that the builder accepts keeps its document well linked.
pub proof fn append_keeps_links(builder: DomBuilder<'_>, parent: Handle<'_>, child: NodeOrText<'_>)
    requires
        builder.tree().well_linked(),
        builder.accepts(parent, child),
    ensures
        after_append(builder.tree(), parent, child).well_linked(),
{
    match child {
        NodeOrText::AppendNode(node) => links_stay(
            builder.tree(),
            Op::AppendNode {
                parent: parent.as_parent().unwrap(),
                child: node.as_child().unwrap(),
            },
        ),
        NodeOrText::AppendText(text) => links_stay(
            builder.tree(),
            Op::AppendText {
                element: element_index(parent->Element_0.sxd),
                text: text@,
            },
        ),
    }
}

/// No append that the builder accepts puts text directly under the root.
pub proof fn root_stays_textless(builder: DomBuilder<'_>, parent: Handle<'_>, child: NodeOrText<'_>)
    requires
        builder.tree().root_textless(),
        builder.accepts(parent, child),
    ensures
        after_append(builder.tree(), parent, child).root_textless(),
{
    let tree = builder.tree();
    match child {
        NodeOrText::AppendNode(node) => {
            let c = node.as_child().unwrap();
            let p = parent.as_parent().unwrap();
            let cleared = if p is Root && c is Element {
                Tree { root: without_elements(tree.root), ..tree }
            } else {
                tree
            };
            assert(cleared.root_textless()) by {
                lemma_without_elements(tree.root);
                assert forall|k: int| 0 <= k < cleared.root.len() implies !(
                #[trigger] cleared.root[k] is Text) by {
                    lemma_listed_is_no_text(tree.root, cleared.root[k]);
                }
            }
            let loose = cleared.unlinked(c);
            assert(loose.root_textless()) by {
                lemma_without(cleared.root, c);
                assert forall|k: int| 0 <= k < loose.root.len() implies !(#[trigger] loose.root[k]
                    is Text) by {
                    lemma_listed_is_no_text(cleared.root, loose.root[k]);
                }
            }
        },
        NodeOrText::AppendText(text) => {
            let grown = tree.with_text(text@);
            assert(grown.parent_of(Child::Text(tree.texts.len() as int)) is None);
        },
    }
}

/// What a list without text holds is no text.
proof fn lemma_listed_is_no_text(list: Seq<Child>, child: Child)
    requires
        forall|k: int| 0 <= k < list.len() ==> !(#[trigger] list[k] is Text),
        list.contains(child),
    ensures
        !(child is Text),
{
    let k = choose|k: int| 0 <= k < list.len() && list[k] == child;
    assert(!(list[k] is Text));
}

/// What a filter leaves of `list`: items of `list` that pass the test, and
/// none twice where `list` holds none twice.
proof fn lemma_filtered(list: Seq<Child>, keep: spec_fn(Child) -> bool)
    ensures
        forall|k: int|
            0 <= k < list.filter(keep).len() ==> keep(#[trigger] list.filter(keep)[k])
                && list.contains(list.filter(keep)[k]),
        list.no_duplicates() ==> list.filter(keep).no_duplicates(),
    decreases list.len(),
{
    reveal(Seq::filter);
    if list.len() > 0 {
        let front = list.drop_last();
        let last = list.last();
        lemma_filtered(front, keep);
        let rest = front.filter(keep);
        assert forall|k: int| 0 <= k < rest.len() implies list.contains(#[trigger] rest[k]) by {
            let j = choose|j: int| 0 <= j < front.len() && front[j] == rest[k];
            assert(list[j] == rest[k]);
        }
        assert(list[list.len() - 1] == last);
        if list.no_duplicates() {
            assert forall|i: int, j: int| 0 <= i < front.len() && 0 <= j < front.len() && i
                != j implies front[i] != front[j] by {
                assert(front[i] == list[i] && front[j] == list[j]);
            }
            assert forall|k: int| 0 <= k < rest.len() implies (#[trigger] rest[k]) != last by {
                let j = choose|j: int| 0 <= j < front.len() && front[j] == rest[k];
                assert(list[j] == rest[k]);
            }
        }
    }
}

/// What is left of `list` when `child` has left it: items of `list` other
/// than `child`, and none twice where `list` holds none twice.
proof fn lemma_without(list: Seq<Child>, child: Child)
    ensures
        forall|k: int|
            0 <= k < without(list, child).len() ==> (#[trigger] without(list, child)[k]) != child
                && list.contains(without(list, child)[k]),
        list.no_duplicates() ==> without(list, child).no_duplicates(),
{
    lemma_filtered(list, is_not(child));
}

/// What is left of `list` when its elements have left it: items of `list`
/// that are no elements, and none twice where `list` holds none twice.
proof fn lemma_without_elements(list: Seq<Child>)
    ensures
        forall|k: int|
            0 <= k < without_elements(list).len() ==> !(#[trigger] without_elements(list)[k]
                is Element) && list.contains(without_elements(list)[k]),
        list.no_duplicates() ==> without_elements(list).no_duplicates(),
{
    lemma_filtered(list, is_no_element());
}

} // verus!
