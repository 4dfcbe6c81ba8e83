//! Staging of Debian package trees: classification of packaging artifacts,
//! scan policy, destination layout and template substitution.

pub mod args;
pub mod forge;
pub mod text;
