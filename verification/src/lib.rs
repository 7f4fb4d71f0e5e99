//! Command layer of a desktop editor: the open project's root path, the
//! commands file derived from it, and the choice of a file manager to show a
//! directory in.

pub mod opener;
pub mod paths;
pub mod project;
