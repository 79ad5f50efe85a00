//! Operations that have to ask workspaces whether they can be closed: closing
//! the window and opening a project in it.

use std::path::PathBuf;
use vstd::prelude::*;

use crate::context::{multi_workspace_enabled, Context};
use crate::ids::EntityId;
use crate::multi_workspace::MultiWorkspace;

verus! {

/// Why a workspace is asked whether it can be closed.
#[derive(Clone, Copy, Debug, PartialEq, Eq, Structural)]
pub enum CloseIntent {
    /// The window is to be closed.
    CloseWindow,
    /// Another project is to take the workspace's place.
    ReplaceWindow,
}

/// What came of asking a workspace whether it can be closed.
#[derive(Clone, Copy, Debug, PartialEq, Eq, Structural)]
pub enum CloseAnswer {
    /// It can be closed.
    Proceed,
    /// The user wants to keep it open.
    Cancel,
    /// The question could not be asked or answered.
    Failed,
}

/// What to do next to close a window.
#[derive(Clone, Copy, Debug, PartialEq, Eq, Structural)]
pub enum CloseStep {
    /// Ask the workspace whether it can be closed.
    PrepareToClose { workspace: EntityId, intent: CloseIntent },
    /// Close the window.
    RemoveWindow,
    /// Leave the window open.
    Stop,
}

/// The closing of a window, which asks the workspaces one after the other.
pub struct WindowClosing {
    workspaces: Vec<EntityId>,
    agreed: usize,
    stopped: bool,
}

/// The value of a [`WindowClosing`].
#[verifier::ext_equal]
pub struct ClosingModel {
    /// The workspaces that the window had when the closing began.
    pub workspaces: Seq<EntityId>,
    /// How many of them can be closed.
    pub agreed: int,
    /// One of them is to stay open.
    pub stopped: bool,
}

impl View for WindowClosing {
    type V = ClosingModel;

    closed spec fn view(&self) -> ClosingModel {
        ClosingModel {
            workspaces: self.workspaces@,
            agreed: self.agreed as int,
            stopped: self.stopped,
        }
    }
}

impl ClosingModel {
    pub open spec fn wf(self) -> bool {
        0 <= self.agreed <= self.workspaces.len()
    }

    /// The closing of a window with these workspaces, before any was asked.
    pub open spec fn begin(workspaces: Seq<EntityId>) -> ClosingModel {
        ClosingModel { workspaces, agreed: 0, stopped: false }
    }

    /// What to do next: ask the first workspace that was not asked yet, and
    /// close the window when all have agreed.
    pub open spec fn step(self) -> CloseStep {
        if self.stopped {
            CloseStep::Stop
        } else if self.agreed < self.workspaces.len() {
            CloseStep::PrepareToClose {
                workspace: self.workspaces[self.agreed],
                intent: CloseIntent::CloseWindow,
            }
        } else {
            CloseStep::RemoveWindow
        }
    }

    /// The closing after an answer of the workspace that was asked.
    pub open spec fn answered(self, answer: CloseAnswer) -> ClosingModel {
        if answer is Proceed {
            ClosingModel { agreed: self.agreed + 1, ..self }
        } else {
            ClosingModel { stopped: true, ..self }
        }
    }

    /// The closing after several answers, as long as a workspace is asked.
    pub open spec fn after_answers(self, answers: Seq<CloseAnswer>) -> ClosingModel
        decreases answers.len(),
    {
        if answers.len() == 0 {
            self
        } else {
            let before = self.after_answers(answers.drop_last());
            if before.step() is PrepareToClose {
                before.answered(answers.last())
            } else {
                before
            }
        }
    }
}

impl MultiWorkspace {
    /// Begins to close the window: every workspace that it has now will be
    /// asked.
    pub fn close_window(&self) -> (closing: WindowClosing)
        ensures
            closing@.wf(),
            closing@ == ClosingModel::begin(self@.workspaces),
    {
        let workspaces = self.workspaces();
        let mut asked: Vec<EntityId> = Vec::new();
        let mut i: usize = 0;
        while i < workspaces.len()
            invariant
                i <= workspaces@.len(),
                asked@ == workspaces@.take(i as int),
            decreases workspaces@.len() - i,
        {
            asked.push(workspaces[i]);
            i += 1;
        }
        assert(workspaces@.take(i as int) =~= workspaces@);
        WindowClosing { workspaces: asked, agreed: 0, stopped: false }
    }
}

impl WindowClosing {
    /// What to do next.
    pub fn step(&self) -> (step: CloseStep)
        requires
            self@.wf(),
        ensures
            step == self@.step(),
    {
        if self.stopped {
            CloseStep::Stop
        } else if self.agreed < self.workspaces.len() {
            CloseStep::PrepareToClose {
                workspace: self.workspaces[self.agreed],
                intent: CloseIntent::CloseWindow,
            }
        } else {
            CloseStep::RemoveWindow
        }
    }

    /// Takes the answer of the workspace that the step asked. Anything but a
    /// plain yes ends the closing.
    pub fn answer(&mut self, answer: CloseAnswer)
        requires
            old(self)@.wf(),
            old(self)@.step() is PrepareToClose,
        ensures
            final(self)@.wf(),
            final(self)@ == old(self)@.answered(answer),
    {
        match answer {
            CloseAnswer::Proceed => {
                assert(self.agreed < self.workspaces.len());
                self.agreed = self.agreed + 1;
            },
            CloseAnswer::Cancel | CloseAnswer::Failed => {
                self.stopped = true;
            },
        }
    }
}

/// What to do next to open a project.
#[allow(inconsistent_fields)]
#[derive(Debug, PartialEq, Eq)]
pub enum OpenProject {
    /// Ask the workspace whether it can be closed, and hand the answer to
    /// [`OpenProject::answered`].
    PrepareToClose { workspace: EntityId, intent: CloseIntent, paths: Vec<PathBuf> },
    /// Let the workspace open the paths; the result is what it returns.
    OpenPaths { workspace: EntityId, replace_current_window: bool, paths: Vec<PathBuf> },
    /// Nothing is opened: the result is the workspace itself.
    Keep { workspace: EntityId },
    /// Nothing is opened: the question failed, and so does the whole.
    Failed,
}

impl MultiWorkspace {
    /// Opens paths in the window. Where a window may hold one workspace only,
    /// the active workspace has to make room and is asked first.
    pub fn open_project(&self, paths: Vec<PathBuf>, cx: &Context) -> (step: OpenProject)
        requires
            self@.wf(),
        ensures
            step == (if cx@.multi_workspace_enabled() {
                OpenProject::OpenPaths {
                    workspace: self@.active_workspace(),
                    replace_current_window: true,
                    paths,
                }
            } else {
                OpenProject::PrepareToClose {
                    workspace: self@.active_workspace(),
                    intent: CloseIntent::ReplaceWindow,
                    paths,
                }
            }),
    {
        let workspace = self.workspace();
        if multi_workspace_enabled(cx) {
            OpenProject::OpenPaths { workspace, replace_current_window: true, paths }
        } else {
            OpenProject::PrepareToClose { workspace, intent: CloseIntent::ReplaceWindow, paths }
        }
    }
}

impl OpenProject {
    /// What to do after the workspace was asked whether it can be closed. The
    /// same as before where no workspace is asked.
    pub open spec fn after_answer(self, answer: CloseAnswer) -> OpenProject {
        match self {
            OpenProject::PrepareToClose { workspace, intent, paths } => match answer {
                CloseAnswer::Proceed => OpenProject::OpenPaths {
                    workspace,
                    replace_current_window: true,
                    paths,
                },
                CloseAnswer::Cancel => OpenProject::Keep { workspace },
                CloseAnswer::Failed => OpenProject::Failed,
            },
            step => step,
        }
    }

    /// Takes the answer of the workspace that was asked.
    pub fn answered(self, answer: CloseAnswer) -> (step: OpenProject)
        ensures
            step == self.after_answer(answer),
    {
        match self {
            OpenProject::PrepareToClose { workspace, intent: _, paths } => match answer {
                CloseAnswer::Proceed => OpenProject::OpenPaths {
                    workspace,
                    replace_current_window: true,
                    paths,
                },
                CloseAnswer::Cancel => OpenProject::Keep { workspace },
                CloseAnswer::Failed => OpenProject::Failed,
            },
            step => step,
        }
    }
}

} // verus!
