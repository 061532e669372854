//! Qualified names and attributes, as the tree builder hands them over.

use vstd::prelude::*;
use crate::model::Pair;

verus! {

/// The name of an element or of an attribute: an optional prefix, a
/// namespace and a local name.
#[derive(Debug, PartialEq, Eq)]
pub struct QualName {
    pub prefix: Option<String>,
    pub ns: String,
    pub local: String,
}

/// One attribute of a start tag.
#[derive(Debug, PartialEq, Eq)]
pub struct Attribute {
    pub name: QualName,
    pub value: String,
}

impl Clone for QualName {
    fn clone(&self) -> (copy: Self)
        ensures
            copy == *self,
    {
        let prefix = match &self.prefix {
            Some(p) => Some(p.clone()),
            None => None,
        };
        QualName { prefix, ns: self.ns.clone(), local: self.local.clone() }
    }
}

impl Clone for Attribute {
    fn clone(&self) -> (copy: Self)
        ensures
            copy == *self,
    {
        Attribute { name: self.name.clone(), value: self.value.clone() }
    }
}

impl QualName {
    /// A name without prefix.
    pub fn new(ns: String, local: String) -> (name: QualName)
        ensures
            name.prefix is None,
            name.ns == ns,
            name.local == local,
    {
        QualName { prefix: None, ns, local }
    }
}

/// The local name and the value of each attribute, in the order given.
pub open spec fn pairs_of(attrs: Seq<Attribute>) -> Seq<Pair> {
    Seq::new(attrs.len(), |i: int| (attrs[i].name.local@, attrs[i].value@))
}

} // verus!
