//! The editor around a window: what the window reads there, and what it asks
//! the editor to do.

use std::collections::{HashMap, HashSet};
use std::path::PathBuf;
use vstd::prelude::*;

use crate::ids::{DockPosition, EntityId, FocusHandle, TaskId, WindowId, WorkspaceId};
use crate::workspace::Workspace;

verus! {

broadcast use vstd::std_specs::hash::group_hash_axioms;

/// `std::path::PathBuf`, a path in the file system. Nothing is claimed of it: a
/// path is only handed on.
#[verifier::external_type_specification]
#[verifier::external_body]
pub struct ExPathBuf(PathBuf);

/// The switches that decide whether a window may hold several workspaces.
#[derive(Clone, Copy, Debug, PartialEq, Eq)]
pub struct Settings {
    /// The user has the agent feature flag.
    pub agent_v2_flag: bool,
    /// All AI features are switched off.
    pub disable_ai: bool,
    /// Multi-folder workspaces are enabled in the settings.
    pub multi_folder_workspaces_enabled: bool,
}

/// What a window tells those who observe it.
#[derive(Clone, Copy, Debug, PartialEq, Eq)]
pub enum MultiWorkspaceEvent {
    ActiveWorkspaceChanged,
    WorkspaceAdded(EntityId),
    WorkspaceRemoved(EntityId),
}

/// What is written to the database of a window, to be read at the next start.
#[derive(Clone, Copy, Debug, PartialEq, Eq)]
pub struct MultiWorkspaceState {
    pub active_workspace_id: Option<WorkspaceId>,
}

/// Work on the database that runs in the background.
#[allow(inconsistent_fields)]
#[derive(Debug, PartialEq, Eq)]
pub enum Job {
    /// Write the state of a window.
    WriteState { window_id: WindowId, state: MultiWorkspaceState },
    /// Ask for a row for a new workspace and report it to the window.
    NextWorkspaceId { workspace: EntityId },
    /// Delete the row of a workspace.
    DeleteWorkspace { workspace_id: WorkspaceId },
    /// Bind the row of a workspace to a session and a window.
    SetSessionBinding {
        workspace_id: WorkspaceId,
        session_id: Option<String>,
        window_id: Option<u64>,
    },
}

/// One thing that the editor has to do for a window.
#[derive(Debug, PartialEq, Eq)]
pub enum Effect {
    /// Tell the observers of the window.
    Emit(MultiWorkspaceEvent),
    /// Draw the window again.
    Notify,
    /// Report the events of a workspace to the window, for good.
    Subscribe(EntityId),
    /// Call the window's `release` when it goes away.
    ObserveRelease,
    /// Call the window's `app_will_quit` when the editor quits.
    ObserveQuit,
    /// Start a job; the window holds the task.
    Spawn { task: TaskId, job: Job },
    /// The window no longer holds the task: if it still runs, it is cancelled.
    DropTask(TaskId),
    /// The window no longer holds the task, which runs on by itself.
    DetachTask(TaskId),
    /// Move the keyboard focus.
    Focus(FocusHandle),
    /// Move the keyboard focus to the sidebar of the window.
    FocusSidebar,
    /// Give a workspace its row in the database.
    SetDatabaseId { workspace: EntityId, workspace_id: WorkspaceId },
    /// Show a message in a workspace, in place of an earlier one that a window
    /// asked for there.
    ShowToast { workspace: EntityId, message: String },
    /// Open a terminal in the center of a workspace, where `focus` is its
    /// active pane. It works in the given directory, or where terminals of an
    /// empty workspace do if there is none.
    NewCenterTerminal { focus: FocusHandle, local: bool, working_directory: Option<PathBuf> },
    /// Put a panel into a workspace.
    AddPanel { workspace: EntityId, panel: EntityId },
    /// Open or close a dock of a workspace.
    ToggleDock { workspace: EntityId, dock_side: DockPosition },
}

/// The editor during one operation on a window.
pub struct Context {
    /// The window in which the operation runs.
    pub window_id: WindowId,
    pub settings: Settings,
    /// The sidebar of the window has the keyboard focus.
    pub sidebar_focused: bool,
    /// Every workspace that the operation may read, by its entity id.
    pub workspaces: HashMap<u64, Workspace>,
    /// The tasks that have run to their end.
    pub finished_tasks: HashSet<u64>,
    /// The id of the task that is started next.
    pub next_task: u64,
    /// What the editor has to do, in this order.
    pub effects: Vec<Effect>,
}

/// The value of a [`Context`].
#[verifier::ext_equal]
pub struct ContextModel {
    pub window_id: WindowId,
    pub settings: Settings,
    pub sidebar_focused: bool,
    pub workspaces: Map<u64, Workspace>,
    pub finished_tasks: Set<u64>,
    pub next_task: int,
    pub effects: Seq<Effect>,
}

impl View for Context {
    type V = ContextModel;

    open spec fn view(&self) -> ContextModel {
        ContextModel {
            window_id: self.window_id,
            settings: self.settings,
            sidebar_focused: self.sidebar_focused,
            workspaces: self.workspaces@,
            finished_tasks: self.finished_tasks@,
            next_task: self.next_task as int,
            effects: self.effects@,
        }
    }
}

impl ContextModel {
    /// A window may hold several workspaces: either the agent feature is on and
    /// AI is not switched off, or multi-folder workspaces are enabled.
    pub open spec fn multi_workspace_enabled(self) -> bool {
        ||| self.settings.agent_v2_flag && !self.settings.disable_ai
        ||| self.settings.multi_folder_workspaces_enabled
    }

    /// The workspace can be read.
    pub open spec fn has(self, workspace: EntityId) -> bool {
        self.workspaces.contains_key(workspace.0)
    }

    /// The workspace as it is read now.
    pub open spec fn workspace(self, workspace: EntityId) -> Workspace {
        self.workspaces[workspace.0]
    }

    /// The task has run to its end.
    pub open spec fn is_ready(self, task: TaskId) -> bool {
        self.finished_tasks.contains(task.0)
    }

    /// Those of the tasks that still run.
    pub open spec fn unfinished(self, tasks: Seq<TaskId>) -> Seq<TaskId> {
        tasks.filter(|task: TaskId| !self.is_ready(task))
    }

    /// Giving up those of the tasks that have run to their end.
    pub open spec fn drop_finished(self, tasks: Seq<TaskId>) -> Seq<Effect> {
        tasks.filter(|task: TaskId| self.is_ready(task)).map_values(
            |task: TaskId| Effect::DropTask(task),
        )
    }

    /// There are ids for `n` more tasks.
    pub open spec fn can_spawn(self, n: int) -> bool {
        self.next_task + n <= u64::MAX
    }

    /// The id of the task that is started after `k` others.
    pub open spec fn task(self, k: int) -> TaskId {
        TaskId((self.next_task + k) as u64)
    }

    /// The context after `tasks` tasks were started and `effects` were asked for.
    pub open spec fn after(self, tasks: int, effects: Seq<Effect>) -> ContextModel {
        ContextModel {
            next_task: self.next_task + tasks,
            effects: self.effects + effects,
            ..self
        }
    }

    /// The context in which the workspace has its row in the database.
    pub open spec fn with_database_id(
        self,
        workspace: EntityId,
        workspace_id: WorkspaceId,
    ) -> ContextModel {
        ContextModel {
            workspaces: self.workspaces.insert(
                workspace.0,
                (Workspace { database_id: Some(workspace_id), ..self.workspace(workspace) }),
            ),
            ..self
        }
    }
}

/// Whether a window may hold several workspaces.
pub fn multi_workspace_enabled(cx: &Context) -> (enabled: bool)
    ensures
        enabled == cx@.multi_workspace_enabled(),
{
    let agent_v2 = cx.settings.agent_v2_flag && !cx.settings.disable_ai;
    let multi_folder = cx.settings.multi_folder_workspaces_enabled;
    agent_v2 || multi_folder
}

impl Context {
    /// Reads a workspace.
    pub fn workspace(&self, workspace: EntityId) -> (read: &Workspace)
        requires
            self@.has(workspace),
        ensures
            *read == self@.workspace(workspace),
    {
        self.workspaces.get(&workspace.0).unwrap()
    }

    /// Whether a task has run to its end.
    pub fn is_ready(&self, task: TaskId) -> (ready: bool)
        ensures
            ready == self@.is_ready(task),
    {
        self.finished_tasks.contains(&task.0)
    }

    /// Asks the editor for one more effect.
    pub fn request(&mut self, effect: Effect)
        ensures
            final(self)@ == old(self)@.after(0, seq![effect]),
    {
        self.effects.push(effect);
    }

    /// Starts a job in the background and returns the task that runs it.
    pub fn spawn(&mut self, job: Job) -> (task: TaskId)
        requires
            old(self)@.can_spawn(1),
        ensures
            task == old(self)@.task(0),
            final(self)@ == old(self)@.after(1, seq![Effect::Spawn { task, job }]),
    {
        let task = TaskId(self.next_task);
        self.next_task = self.next_task + 1;
        self.effects.push(Effect::Spawn { task, job });
        task
    }

    /// Gives up a task that was held, if there was one.
    pub fn drop_task(&mut self, task: Option<TaskId>)
        ensures
            final(self)@ == old(self)@.after(0, dropped(task)),
    {
        if let Some(task) = task {
            self.effects.push(Effect::DropTask(task));
        }
    }

    /// Gives up the finished ones among the tasks and returns the others.
    pub fn retain_unfinished(&mut self, tasks: &Vec<TaskId>) -> (kept: Vec<TaskId>)
        ensures
            kept@ == old(self)@.unfinished(tasks@),
            final(self)@ == old(self)@.after(0, old(self)@.drop_finished(tasks@)),
    {
        let ghost before = self@;
        let ghost unready = |task: TaskId| !before.is_ready(task);
        let ghost ready = |task: TaskId| before.is_ready(task);
        let ghost give_up = |task: TaskId| Effect::DropTask(task);
        let mut kept: Vec<TaskId> = Vec::new();
        let mut i: usize = 0;
        while i < tasks.len()
            invariant
                i <= tasks@.len(),
                kept@ == tasks@.take(i as int).filter(unready),
                self@ == before.after(0, tasks@.take(i as int).filter(ready).map_values(give_up)),
                unready == (|task: TaskId| !before.is_ready(task)),
                ready == (|task: TaskId| before.is_ready(task)),
                give_up == (|task: TaskId| Effect::DropTask(task)),
            decreases tasks@.len() - i,
        {
            proof {
                reveal(Seq::filter);
                assert(tasks@.take(i + 1).drop_last() =~= tasks@.take(i as int));
            }
            if self.is_ready(tasks[i]) {
                self.request(Effect::DropTask(tasks[i]));
            } else {
                kept.push(tasks[i]);
            }
            i += 1;
        }
        assert(tasks@.take(i as int) =~= tasks@);
        kept
    }

    /// Gives a workspace its row in the database.
    pub fn set_database_id(&mut self, workspace: EntityId, workspace_id: WorkspaceId)
        requires
            old(self)@.has(workspace),
        ensures
            final(self)@ == old(self)@.with_database_id(workspace, workspace_id).after(
                0,
                seq![Effect::SetDatabaseId { workspace, workspace_id }],
            ),
    {
        let mut changed = self.workspaces.remove(&workspace.0).unwrap();
        changed.database_id = Some(workspace_id);
        self.workspaces.insert(workspace.0, changed);
        self.effects.push(Effect::SetDatabaseId { workspace, workspace_id });
    }
}

/// What giving up a held task asks of the editor.
pub open spec fn dropped(task: Option<TaskId>) -> Seq<Effect> {
    match task {
        Some(task) => seq![Effect::DropTask(task)],
        None => seq![],
    }
}

} // verus!
