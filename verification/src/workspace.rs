//! What the window reads of one workspace.

use vstd::prelude::*;

use crate::ids::{FocusHandle, WorkspaceId};

verus! {

/// The panel that a dock shows.
#[derive(Debug, PartialEq, Eq)]
pub struct Panel {
    pub is_zoomed: bool,
    pub focus_handle: FocusHandle,
}

/// A dock at one side of a workspace.
#[derive(Debug, PartialEq, Eq)]
pub struct Dock {
    pub is_open: bool,
    pub active_panel: Option<Panel>,
}

impl Dock {
    /// The dock is open and shows a zoomed panel.
    pub open spec fn shows_zoomed_panel(self) -> bool {
        self.is_open && self.active_panel is Some && self.active_panel->0.is_zoomed
    }

    /// The focus handle of the zoomed panel, where the dock shows one.
    pub fn zoomed_panel(&self) -> (handle: Option<FocusHandle>)
        ensures
            handle == (if self.shows_zoomed_panel() {
                Some(self.active_panel->0.focus_handle)
            } else {
                None
            }),
    {
        if self.is_open {
            match &self.active_panel {
                Some(panel) => if panel.is_zoomed {
                    Some(panel.focus_handle)
                } else {
                    None
                },
                None => None,
            }
        } else {
            None
        }
    }
}

/// A workspace as the window sees it.
#[derive(Debug, PartialEq, Eq)]
pub struct Workspace {
    /// Row of the workspace in the database, once it has one.
    pub database_id: Option<WorkspaceId>,
    /// The editor session to which the workspace belongs.
    pub session_id: Option<String>,
    /// All docks, in the order in which they are searched for a zoomed panel.
    pub docks: Vec<Dock>,
    /// Focus handle of the active pane in the center.
    pub active_pane: FocusHandle,
}

impl Workspace {
    /// `docks[i]` is the first dock that shows a zoomed panel.
    pub open spec fn first_zoomed_at(docks: Seq<Dock>, i: int) -> bool {
        &&& 0 <= i < docks.len()
        &&& docks[i].shows_zoomed_panel()
        &&& forall|j: int| 0 <= j < i ==> !(#[trigger] docks[j]).shows_zoomed_panel()
    }

    /// Where the focus goes when the workspace is focused: the zoomed panel of
    /// the first dock that shows one, else the active pane.
    pub open spec fn focus_target(self) -> FocusHandle {
        if exists|i: int| Self::first_zoomed_at(self.docks@, i) {
            let i = choose|i: int| Self::first_zoomed_at(self.docks@, i);
            self.docks@[i].active_panel->0.focus_handle
        } else {
            self.active_pane
        }
    }

    /// If a dock shows a zoomed panel, the focus belongs there: focusing the
    /// center pane would close the zoomed dock.
    pub fn focus_handle(&self) -> (handle: FocusHandle)
        ensures
            handle == self.focus_target(),
    {
        let mut i: usize = 0;
        while i < self.docks.len()
            invariant
                i <= self.docks@.len(),
                forall|j: int| 0 <= j < i ==> !(#[trigger] self.docks@[j]).shows_zoomed_panel(),
            decreases self.docks@.len() - i,
        {
            if let Some(handle) = self.docks[i].zoomed_panel() {
                assert(Self::first_zoomed_at(self.docks@, i as int));
                return handle;
            }
            i += 1;
        }
        self.active_pane
    }
}

} // verus!
