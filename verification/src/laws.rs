//! What holds of the builder and of the trees it builds, whatever the
//! instructions are.

pub mod attributes;
pub mod links;
pub mod state;
pub mod text;
