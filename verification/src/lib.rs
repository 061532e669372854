//! Builds an `sxd_document` tree from the construction instructions of an
//! HTML tree builder.
//!
//! The [`builder::DomBuilder`] takes one instruction at a time (create an
//! element, create a comment, append a node or text, finish) and turns it
//! into node creation and child linking on the document it was given. What
//! each instruction does to the document is stated over the mathematical
//! [`model::Tree`] of that document; [`laws`] holds what follows for single
//! instructions and for whole runs of them.

pub mod builder;
pub mod handle;
pub mod instruction;
pub mod laws;
pub mod model;
pub mod name;
pub mod run;
pub mod store;
