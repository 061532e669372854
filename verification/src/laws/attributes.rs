//! The attribute set of a new element, and that an element keeps its name and
//! its attributes.

use vstd::prelude::*;
use crate::model::{attrs_map, Op, Pair, Tree};

verus! {

/// A name is in the attribute set exactly when some pair carries it.
pub proof fn attrs_map_names(pairs: Seq<Pair>, name: Seq<char>)
    ensures
        attrs_map(pairs).contains_key(name) <==> exists|i: int|
            0 <= i < pairs.len() && (#[trigger] pairs[i]).0 == name,
    decreases pairs.len(),
{
    if pairs.len() > 0 {
        let front = pairs.drop_last();
        attrs_map_names(front, name);
        if attrs_map(pairs).contains_key(name) {
            if pairs.last().0 == name {
                assert(pairs[pairs.len() - 1].0 == name);
            } else {
                let i = choose|i: int| 0 <= i < front.len() && (#[trigger] front[i]).0 == name;
                assert(pairs[i] == front[i]);
            }
        }
        if exists|i: int| 0 <= i < pairs.len() && (#[trigger] pairs[i]).0 == name {
            let i = choose|i: int| 0 <= i < pairs.len() && (#[trigger] pairs[i]).0 == name;
            if i < front.len() {
                assert(front[i] == pairs[i]);
            }
        }
    }
}

/// On a repeated name the last pair wins: the pair at `i` gives its name's
/// value in the attribute set when no later pair carries the same name.
pub proof fn attrs_map_last_wins(pairs: Seq<Pair>, i: int)
    requires
        0 <= i < pairs.len(),
        forall|j: int| i < j < pairs.len() ==> (#[trigger] pairs[j]).0 != pairs[i].0,
    ensures
        attrs_map(pairs).contains_key(pairs[i].0),
        attrs_map(pairs)[pairs[i].0] == pairs[i].1,
    decreases pairs.len(),
{
    if i < pairs.len() - 1 {
        let front = pairs.drop_last();
        assert(front[i] == pairs[i]);
        assert forall|j: int| i < j < front.len() implies (#[trigger] front[j]).0 != front[i].0 by {
            assert(front[j] == pairs[j]);
        }
        attrs_map_last_wins(front, i);
        assert(pairs[pairs.len() - 1].0 != pairs[i].0);
    }
}


/// Names and attributes are fixed when an element is created: no later
/// instruction changes them.
pub proof fn names_and_attributes_stay(tree: Tree, op: Op, e: int)
    requires
        0 <= e < tree.elements.len(),
    ensures
        tree.after(op).elements[e].name == tree.elements[e].name,
        tree.after(op).elements[e].namespace == tree.elements[e].namespace,
        tree.after(op).elements[e].attrs == tree.elements[e].attrs,
{
}

/// Setting an attribute on the element created last gives the tree in which
/// that element was created with the attribute in its set.
pub proof fn attribute_on_new_element(
    tree: Tree,
    name: Seq<char>,
    attrs: Map<Seq<char>, Seq<char>>,
    key: Seq<char>,
    value: Seq<char>,
)
    ensures
        tree.with_new_element(name, attrs).with_attribute(tree.elements.len() as int, key, value)
            == tree.with_new_element(name, attrs.insert(key, value)),
{
    let set_later = tree.with_new_element(name, attrs).with_attribute(
        tree.elements.len() as int,
        key,
        value,
    );
    let set_first = tree.with_new_element(name, attrs.insert(key, value));
    assert(set_later.elements =~= set_first.elements);
}

} // verus!
