//! Analysis and emission core of a builder generator for record types.
pub mod naming;
mod text;
pub mod shape;
pub mod record;
pub mod template;
pub mod instance;
pub mod laws;
