//! The actions that a window listens to.

use vstd::prelude::*;

use crate::context::{multi_workspace_enabled, Context, Effect};
use crate::multi_workspace::MultiWorkspace;
use crate::window_model::WindowModel;

verus! {

/// An action that is sent to a window.
#[derive(Clone, Copy, Debug, PartialEq, Eq)]
pub enum WindowAction {
    /// Closes the window.
    CloseWindow,
    /// Creates a new workspace within the current window.
    NewWorkspaceInWindow,
    /// Switches to the next workspace within the current window.
    NextWorkspaceInWindow,
    /// Switches to the previous workspace within the current window.
    PreviousWorkspaceInWindow,
    /// Toggles the workspace switcher sidebar.
    ToggleWorkspaceSidebar,
    /// Moves focus to or from the workspace sidebar without closing it.
    FocusWorkspaceSidebar,
    /// Opens multiple folders, each as its own workspace in the current window.
    OpenFoldersAsWorkspaces,
}

/// What is left to do after a window took an action.
#[derive(Clone, Copy, Debug, PartialEq, Eq)]
pub enum ActionOutcome {
    /// Nothing.
    Done,
    /// Create a workspace and hand it to [`MultiWorkspace::create_workspace`].
    CreateWorkspace,
    /// Close the window, beginning with [`MultiWorkspace::close_window`].
    CloseWindow,
    /// Let the user choose folders and open them, beginning with
    /// [`MultiWorkspace::open_folders_as_workspaces`].
    OpenFolders,
}

impl MultiWorkspace {
    /// Takes an action.
    pub fn on_action(&mut self, action: WindowAction, cx: &mut Context) -> (outcome: ActionOutcome)
        requires
            old(self)@.wf(),
            old(self)@.readable_in(old(cx)@),
            old(cx)@.can_spawn(1),
        ensures
            final(self)@.wf(),
            outcome == (match action {
                WindowAction::CloseWindow => ActionOutcome::CloseWindow,
                WindowAction::NewWorkspaceInWindow => if old(cx)@.multi_workspace_enabled() {
                    ActionOutcome::CreateWorkspace
                } else {
                    ActionOutcome::Done
                },
                WindowAction::NextWorkspaceInWindow => ActionOutcome::Done,
                WindowAction::PreviousWorkspaceInWindow => ActionOutcome::Done,
                WindowAction::ToggleWorkspaceSidebar => ActionOutcome::Done,
                WindowAction::FocusWorkspaceSidebar => ActionOutcome::Done,
                WindowAction::OpenFoldersAsWorkspaces => ActionOutcome::OpenFolders,
            }),
            match action {
                WindowAction::ToggleWorkspaceSidebar => {
                    &&& final(self)@ == old(self)@.with_sidebar(!old(self)@.sidebar_visible)
                    &&& final(cx)@ == old(cx)@.after(0, seq![Effect::Notify])
                },
                WindowAction::FocusWorkspaceSidebar => {
                    &&& final(self)@ == old(self)@
                    &&& final(cx)@ == old(cx)@.after(
                        0,
                        old(self)@.sidebar_focus_effects(old(cx)@),
                    )
                },
                WindowAction::NextWorkspaceInWindow if old(self)@.workspaces.len() > 1 => {
                    &&& final(self)@ == old(self)@.with_active(old(self)@.next_index()).saved_by(
                        old(cx)@.task(0),
                    )
                    &&& final(cx)@ == old(cx)@.after(
                        1,
                        old(self)@.activate_index_effects(old(self)@.next_index(), old(cx)@),
                    )
                },
                WindowAction::PreviousWorkspaceInWindow if old(self)@.workspaces.len() > 1 => {
                    &&& final(self)@ == old(self)@.with_active(
                        old(self)@.previous_index(),
                    ).saved_by(old(cx)@.task(0))
                    &&& final(cx)@ == old(cx)@.after(
                        1,
                        old(self)@.activate_index_effects(old(self)@.previous_index(), old(cx)@),
                    )
                },
                _ => final(self)@ == old(self)@ && final(cx)@ == old(cx)@,
            },
    {
        match action {
            WindowAction::CloseWindow => ActionOutcome::CloseWindow,
            WindowAction::NewWorkspaceInWindow => if multi_workspace_enabled(cx) {
                ActionOutcome::CreateWorkspace
            } else {
                ActionOutcome::Done
            },
            WindowAction::NextWorkspaceInWindow => {
                self.activate_next_workspace(cx);
                ActionOutcome::Done
            },
            WindowAction::PreviousWorkspaceInWindow => {
                self.activate_previous_workspace(cx);
                ActionOutcome::Done
            },
            WindowAction::ToggleWorkspaceSidebar => {
                self.toggle_sidebar(cx);
                ActionOutcome::Done
            },
            WindowAction::FocusWorkspaceSidebar => {
                self.focus_sidebar(cx);
                ActionOutcome::Done
            },
            WindowAction::OpenFoldersAsWorkspaces => ActionOutcome::OpenFolders,
        }
    }
}

} // verus!
