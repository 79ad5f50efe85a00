//! Identifiers of things that live outside the window's own state.

use vstd::prelude::*;

verus! {

/// Identifies a workspace or a panel for as long as the editor runs.
#[derive(Clone, Copy, Debug, PartialEq, Eq, Hash, Structural)]
pub struct EntityId(pub u64);

/// Identifies a window of the editor.
#[derive(Clone, Copy, Debug, PartialEq, Eq, Hash, Structural)]
pub struct WindowId(pub u64);

/// Row of a workspace in the database.
#[derive(Clone, Copy, Debug, PartialEq, Eq, Hash, Structural)]
pub struct WorkspaceId(pub i64);

/// Row of a whole window in the database.
#[derive(Clone, Copy, Debug, PartialEq, Eq, Hash, Structural)]
pub struct MultiWorkspaceId(pub u64);

/// Something that can hold the keyboard focus.
#[derive(Clone, Copy, Debug, PartialEq, Eq, Hash, Structural)]
pub struct FocusHandle(pub u64);

/// A task that was started in the background.
#[derive(Clone, Copy, Debug, PartialEq, Eq, Hash, Structural)]
pub struct TaskId(pub u64);

/// The side of a workspace at which a dock stands.
#[derive(Clone, Copy, Debug, PartialEq, Eq, Hash, Structural)]
pub enum DockPosition {
    Left,
    Bottom,
    Right,
}

} // verus!
