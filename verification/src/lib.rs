//! A window that holds several workspaces, shows one of them at a time and
//! lists all of them in a sidebar.
//!
//! [`multi_workspace::MultiWorkspace`] is the window's state. Its operations
//! read the editor through a [`context::Context`] and leave in it, in order,
//! the effects that the editor has to carry out.

pub mod actions;
pub mod closing;
pub mod context;
pub mod folders;
pub mod ids;
pub mod laws;
pub mod multi_workspace;
pub mod sidebar;
pub mod text;
pub mod window_model;
pub mod workspace;
