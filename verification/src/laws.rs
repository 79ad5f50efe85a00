//! What holds of a window across its operations.

pub mod changes;
pub mod context;
pub mod flows;
pub mod focus;
pub mod requests;
pub mod sidebar;
pub mod tasks;
pub mod text;
pub mod workspaces;
