//! The window as a mathematical value: what its operations make of it and what
//! they ask of the editor.

use vstd::prelude::*;

use crate::context::{
    ContextModel, Effect, Job, MultiWorkspaceEvent, MultiWorkspaceState,
};
use crate::multi_workspace::DEFAULT_SIDEBAR_WIDTH;
use crate::ids::{EntityId, MultiWorkspaceId, TaskId, WindowId, WorkspaceId};

verus! {

/// The value of a window.
#[verifier::ext_equal]
pub struct WindowModel {
    pub window_id: WindowId,
    /// The workspaces of the window, in the order of the sidebar.
    pub workspaces: Seq<EntityId>,
    pub database_id: Option<MultiWorkspaceId>,
    /// Index of the workspace that is shown.
    pub active: int,
    pub sidebar_visible: bool,
    /// In whole pixels.
    pub sidebar_width: u32,
    /// Whether each folder of the sidebar shows its entries.
    pub expanded: Seq<bool>,
    /// Tasks that delete the rows of removed workspaces.
    pub pending_removals: Seq<TaskId>,
    /// The latest task that writes the state of the window.
    pub serialize_task: Option<TaskId>,
    /// The latest task that asks for the row of a new workspace.
    pub create_task: Option<TaskId>,
}

impl WindowModel {
    /// A window that shows one workspace and was never changed.
    pub open spec fn with_only(workspace: EntityId, window_id: WindowId) -> WindowModel {
        WindowModel {
            window_id,
            workspaces: seq![workspace],
            database_id: None,
            active: 0,
            sidebar_visible: false,
            sidebar_width: DEFAULT_SIDEBAR_WIDTH,
            expanded: seq![true],
            pending_removals: seq![],
            serialize_task: None,
            create_task: None,
        }
    }

    /// A new window asks to hear of its own release, of the end of the editor
    /// and of the events of its workspace.
    pub open spec fn new_effects(workspace: EntityId) -> Seq<Effect> {
        seq![Effect::ObserveRelease, Effect::ObserveQuit, Effect::Subscribe(workspace)]
    }

    /// The window has an active workspace (so it has at least one), and every
    /// workspace has a folder in the sidebar.
    pub open spec fn wf(self) -> bool {
        &&& 0 <= self.active < self.workspaces.len()
        &&& self.expanded.len() == self.workspaces.len()
    }

    /// Every workspace of the window can be read.
    pub open spec fn readable_in(self, cx: ContextModel) -> bool {
        forall|i: int| 0 <= i < self.workspaces.len() ==> cx.has(#[trigger] self.workspaces[i])
    }

    /// The workspace that is shown.
    pub open spec fn active_workspace(self) -> EntityId {
        self.workspaces[self.active]
    }

    /// `workspaces[i]` is the first that is `workspace`.
    pub open spec fn first_at(workspaces: Seq<EntityId>, workspace: EntityId, i: int) -> bool {
        &&& 0 <= i < workspaces.len()
        &&& workspaces[i] == workspace
        &&& forall|j: int| 0 <= j < i ==> #[trigger] workspaces[j] != workspace
    }

    /// Index of a workspace of the window.
    pub open spec fn index_of(self, workspace: EntityId) -> int {
        choose|i: int| Self::first_at(self.workspaces, workspace, i)
    }

    // Adding and activating

    /// The window with the workspace in it: at the end, where it is new.
    pub open spec fn with_workspace(self, workspace: EntityId) -> WindowModel {
        if self.workspaces.contains(workspace) {
            self
        } else {
            WindowModel {
                workspaces: self.workspaces.push(workspace),
                expanded: self.expanded.push(true),
                ..self
            }
        }
    }

    /// Only a workspace that is new is subscribed to and announced.
    pub open spec fn add_effects(self, workspace: EntityId) -> Seq<Effect> {
        if self.workspaces.contains(workspace) {
            seq![]
        } else {
            seq![
                Effect::Subscribe(workspace),
                Effect::Emit(MultiWorkspaceEvent::WorkspaceAdded(workspace)),
                Effect::Notify,
            ]
        }
    }

    /// The window with the workspace in it and active.
    pub open spec fn with_active_workspace(self, workspace: EntityId) -> WindowModel {
        WindowModel {
            active: self.with_workspace(workspace).index_of(workspace),
            ..self.with_workspace(workspace)
        }
    }

    /// A change of the active index from `self.active` to `index` is announced.
    pub open spec fn change_effects(self, index: int) -> Seq<Effect> {
        if self.active != index {
            seq![Effect::Emit(MultiWorkspaceEvent::ActiveWorkspaceChanged), Effect::Notify]
        } else {
            seq![Effect::Notify]
        }
    }

    pub open spec fn set_active_effects(self, workspace: EntityId) -> Seq<Effect> {
        self.add_effects(workspace) + self.change_effects(
            self.with_active_workspace(workspace).active,
        )
    }

    /// The window where it may hold one workspace only: `workspace` takes the
    /// first place.
    pub open spec fn with_sole_workspace(self, workspace: EntityId) -> WindowModel {
        WindowModel { workspaces: self.workspaces.update(0, workspace), active: 0, ..self }
    }

    /// The window after its state was given to `task` to be written.
    pub open spec fn saved_by(self, task: TaskId) -> WindowModel {
        WindowModel { serialize_task: Some(task), ..self }
    }

    /// Writing the state: it names the row of the active workspace, and an
    /// earlier write that still runs is given up.
    pub open spec fn save_effects(self, cx: ContextModel, task: TaskId) -> Seq<Effect> {
        seq![
            Effect::Spawn {
                task,
                job: Job::WriteState {
                    window_id: self.window_id,
                    state: MultiWorkspaceState {
                        active_workspace_id: cx.workspace(self.active_workspace()).database_id,
                    },
                },
            },
        ] + crate::context::dropped(self.serialize_task)
    }

    /// The window after the request to show a workspace. Where the active index
    /// changes, the state is written.
    pub open spec fn activating(self, workspace: EntityId, cx: ContextModel) -> WindowModel {
        if !cx.multi_workspace_enabled() {
            self.with_sole_workspace(workspace)
        } else if self.with_active_workspace(workspace).active != self.active {
            self.with_active_workspace(workspace).saved_by(cx.task(0))
        } else {
            self
        }
    }

    pub open spec fn activation_tasks(self, workspace: EntityId, cx: ContextModel) -> int {
        if cx.multi_workspace_enabled() && self.with_active_workspace(workspace).active
            != self.active {
            1
        } else {
            0
        }
    }

    pub open spec fn activation_effects(
        self,
        workspace: EntityId,
        cx: ContextModel,
    ) -> Seq<Effect> {
        if !cx.multi_workspace_enabled() {
            seq![Effect::Emit(MultiWorkspaceEvent::ActiveWorkspaceChanged), Effect::Notify]
        } else if self.with_active_workspace(workspace).active != self.active {
            self.set_active_effects(workspace) + self.with_active_workspace(
                workspace,
            ).save_effects(cx, cx.task(0))
        } else {
            self.set_active_effects(workspace)
        }
    }

    /// The focus goes to the active workspace.
    pub open spec fn focus_effects(self, cx: ContextModel) -> Seq<Effect> {
        seq![Effect::Focus(cx.workspace(self.active_workspace()).focus_target())]
    }

    pub open spec fn with_active(self, index: int) -> WindowModel {
        WindowModel { active: index, ..self }
    }

    /// Activating an index writes the state, moves the focus and announces a
    /// change.
    pub open spec fn activate_index_effects(self, index: int, cx: ContextModel) -> Seq<Effect> {
        self.with_active(index).save_effects(cx, cx.task(0)) + self.with_active(
            index,
        ).focus_effects(cx) + self.change_effects(index)
    }

    /// The workspace after the active one; the first comes after the last.
    pub open spec fn next_index(self) -> int {
        (self.active + 1) % (self.workspaces.len() as int)
    }

    /// The workspace before the active one; the last comes before the first.
    pub open spec fn previous_index(self) -> int {
        (self.active - 1) % (self.workspaces.len() as int)
    }

    // Creating

    /// A created workspace is shown and focused, a terminal opens in its center,
    /// and its row is asked for. An earlier question that is still open is given
    /// up.
    pub open spec fn create_effects(self, workspace: EntityId, cx: ContextModel) -> Seq<Effect> {
        self.set_active_effects(workspace) + self.with_active_workspace(workspace).focus_effects(
            cx,
        ) + seq![
            Effect::NewCenterTerminal {
                focus: cx.workspace(workspace).active_pane,
                local: false,
                working_directory: None,
            },
            Effect::Spawn { task: cx.task(0), job: Job::NextWorkspaceId { workspace } },
        ] + crate::context::dropped(self.create_task)
    }

    /// The context in which a row that was found is that of the created
    /// workspace, unless that is gone.
    pub open spec fn context_with_row(
        workspace: Option<EntityId>,
        workspace_id: WorkspaceId,
        cx: ContextModel,
    ) -> ContextModel {
        match workspace {
            Some(workspace) => cx.with_database_id(workspace, workspace_id),
            None => cx,
        }
    }

    /// A row that was found is given to the created workspace and bound to its
    /// session and the window, or deleted where the workspace is gone. Then the
    /// state is written.
    pub open spec fn row_effects(
        self,
        workspace: Option<EntityId>,
        workspace_id: WorkspaceId,
        cx: ContextModel,
    ) -> Seq<Effect> {
        (match workspace {
            Some(workspace) => seq![
                Effect::SetDatabaseId { workspace, workspace_id },
                Effect::Spawn {
                    task: cx.task(0),
                    job: Job::SetSessionBinding {
                        workspace_id,
                        session_id: cx.workspace(workspace).session_id,
                        window_id: Some(cx.window_id.0),
                    },
                },
                Effect::DetachTask(cx.task(0)),
            ],
            None => seq![
                Effect::Spawn { task: cx.task(0), job: Job::DeleteWorkspace { workspace_id } },
                Effect::DetachTask(cx.task(0)),
            ],
        }) + self.save_effects(
            Self::context_with_row(workspace, workspace_id, cx),
            cx.task(1),
        )
    }

    /// A created workspace is still in the window.
    pub open spec fn holds_created(self, workspace: Option<EntityId>) -> bool {
        workspace is Some && self.workspaces.contains(workspace->0)
    }

    /// The window without a created workspace that found no row.
    pub open spec fn removing_created(
        self,
        workspace: Option<EntityId>,
        cx: ContextModel,
    ) -> WindowModel {
        if self.holds_created(workspace) {
            self.removing(self.index_of(workspace->0), cx)
        } else {
            self
        }
    }

    pub open spec fn context_after_removing_created(
        self,
        workspace: Option<EntityId>,
        cx: ContextModel,
    ) -> ContextModel {
        if self.holds_created(workspace) {
            let index = self.index_of(workspace->0);
            cx.after(self.removal_tasks(index, cx), self.removal_effects(index, cx))
        } else {
            cx
        }
    }

    // Sidebar

    pub open spec fn with_sidebar(self, visible: bool) -> WindowModel {
        WindowModel { sidebar_visible: visible, ..self }
    }

    /// Whether the folder at `index` of the sidebar shows its entries.
    pub open spec fn folder_expanded(self, index: int) -> bool {
        0 <= index < self.expanded.len() ==> self.expanded[index]
    }

    pub open spec fn with_folder_toggled(self, index: int) -> WindowModel {
        if 0 <= index < self.expanded.len() {
            WindowModel { expanded: self.expanded.update(index, !self.expanded[index]), ..self }
        } else {
            self
        }
    }

    // Removing

    /// The workspace at `index` can be removed: it exists and is not the only
    /// one.
    pub open spec fn removable(self, index: int) -> bool {
        self.workspaces.len() > 1 && 0 <= index < self.workspaces.len()
    }

    /// The window without the workspace at `index`. The active workspace stays
    /// active; where it is the one that goes, the workspace that takes its
    /// place follows, or the one before it where it was the last.
    pub open spec fn without(self, index: int) -> WindowModel {
        WindowModel {
            workspaces: self.workspaces.remove(index),
            expanded: self.expanded.remove(index),
            active: if index < self.active || self.active == self.workspaces.len() - 1 {
                self.active - 1
            } else {
                self.active
            },
            ..self
        }
    }

    /// The row of the workspace at `index`, as `cx` has it.
    pub open spec fn record_at(self, index: int, cx: ContextModel) -> Option<WorkspaceId> {
        cx.workspace(self.workspaces[index]).database_id
    }

    /// How many tasks delete a row.
    pub open spec fn delete_tasks(record: Option<WorkspaceId>) -> int {
        if record is Some {
            1
        } else {
            0
        }
    }

    /// The window after the deletion of a row was started: the finished ones
    /// among the pending deletions are forgotten.
    pub open spec fn deleting(self, record: Option<WorkspaceId>, cx: ContextModel) -> WindowModel {
        if record is Some {
            WindowModel {
                pending_removals: cx.unfinished(self.pending_removals).push(cx.task(0)),
                ..self
            }
        } else {
            self
        }
    }

    pub open spec fn delete_effects(
        self,
        record: Option<WorkspaceId>,
        cx: ContextModel,
    ) -> Seq<Effect> {
        match record {
            Some(workspace_id) => cx.drop_finished(self.pending_removals).push(
                Effect::Spawn { task: cx.task(0), job: Job::DeleteWorkspace { workspace_id } },
            ),
            None => seq![],
        }
    }

    /// The window after the request to remove the workspace at `index`, which
    /// changes nothing where the workspace cannot be removed.
    pub open spec fn removing(self, index: int, cx: ContextModel) -> WindowModel {
        if self.removable(index) {
            let record = self.record_at(index, cx);
            self.without(index).deleting(record, cx).saved_by(
                cx.task(Self::delete_tasks(record)),
            )
        } else {
            self
        }
    }

    pub open spec fn removal_tasks(self, index: int, cx: ContextModel) -> int {
        if self.removable(index) {
            Self::delete_tasks(self.record_at(index, cx)) + 1
        } else {
            0
        }
    }

    /// A removal deletes the row of the workspace, if it has one, writes the
    /// state, moves the focus and announces the removal and a change of the
    /// active workspace.
    pub open spec fn removal_effects(self, index: int, cx: ContextModel) -> Seq<Effect> {
        if self.removable(index) {
            let record = self.record_at(index, cx);
            self.delete_effects(record, cx) + self.without(index).save_effects(
                cx,
                cx.task(Self::delete_tasks(record)),
            ) + self.without(index).focus_effects(cx) + seq![
                Effect::Emit(MultiWorkspaceEvent::WorkspaceRemoved(self.workspaces[index])),
                Effect::Emit(MultiWorkspaceEvent::ActiveWorkspaceChanged),
                Effect::Notify,
            ]
        } else {
            seq![]
        }
    }

    // Tasks

    /// At most one task as a sequence.
    pub open spec fn task_or_none(task: Option<TaskId>) -> Seq<TaskId> {
        match task {
            Some(task) => seq![task],
            None => seq![],
        }
    }

    /// All tasks that the window holds.
    pub open spec fn held_tasks(self) -> Seq<TaskId> {
        Self::task_or_none(self.serialize_task) + Self::task_or_none(self.create_task)
            + self.pending_removals
    }

    /// The window without its tasks.
    pub open spec fn without_tasks(self) -> WindowModel {
        WindowModel {
            pending_removals: seq![],
            serialize_task: None,
            create_task: None,
            ..self
        }
    }
}

} // verus!
