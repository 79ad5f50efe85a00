//! A window with several workspaces.

use vstd::prelude::*;
use vstd::string::*;

use crate::context::{
    multi_workspace_enabled, Context, Effect, Job, MultiWorkspaceEvent, MultiWorkspaceState,
};
use crate::ids::{DockPosition, EntityId, MultiWorkspaceId, TaskId, WindowId, WorkspaceId};
use crate::window_model::WindowModel;

verus! {

/// Width of the handle that resizes the sidebar, in pixels.
pub const SIDEBAR_RESIZE_HANDLE_SIZE: u32 = 6;

/// Width of the sidebar of a new window, in pixels.
pub const DEFAULT_SIDEBAR_WIDTH: u32 = 240;

/// The narrowest sidebar, in pixels.
pub const MIN_SIDEBAR_WIDTH: u32 = 150;

/// The widest sidebar, in pixels.
pub const MAX_SIDEBAR_WIDTH: u32 = 500;

/// A task that is handed out to be awaited.
#[derive(Clone, Copy, Debug, PartialEq, Eq)]
pub enum Task {
    /// There is nothing to wait for.
    Ready,
    /// A task that was started.
    Spawned(TaskId),
}

/// What a workspace tells the window that holds it.
#[derive(Clone, Copy, Debug, PartialEq, Eq)]
pub enum WorkspaceEvent {
    /// The workspace asks to be shown.
    Activate,
    /// Anything else.
    Other,
}

/// A window with one or more workspaces, of which one is active.
pub struct MultiWorkspace {
    window_id: WindowId,
    workspaces: Vec<EntityId>,
    database_id: Option<MultiWorkspaceId>,
    active_workspace_index: usize,
    sidebar_visible: bool,
    sidebar_width: u32,
    expanded_folders: Vec<bool>,
    pending_removal_tasks: Vec<TaskId>,
    serialize_task: Option<TaskId>,
    create_task: Option<TaskId>,
}

impl View for MultiWorkspace {
    type V = WindowModel;

    closed spec fn view(&self) -> WindowModel {
        WindowModel {
            window_id: self.window_id,
            workspaces: self.workspaces@,
            database_id: self.database_id,
            active: self.active_workspace_index as int,
            sidebar_visible: self.sidebar_visible,
            sidebar_width: self.sidebar_width,
            expanded: self.expanded_folders@,
            pending_removals: self.pending_removal_tasks@,
            serialize_task: self.serialize_task,
            create_task: self.create_task,
        }
    }
}

impl MultiWorkspace {
    /// A window that shows one workspace. It asks to hear of its own release,
    /// of the end of the editor and of the events of the workspace.
    pub fn new(workspace: EntityId, cx: &mut Context) -> (window: Self)
        ensures
            window@.wf(),
            window@ == WindowModel::with_only(workspace, old(cx)@.window_id),
            final(cx)@ == old(cx)@.after(0, WindowModel::new_effects(workspace)),
    {
        cx.request(Effect::ObserveRelease);
        cx.request(Effect::ObserveQuit);
        Self::subscribe_to_workspace(workspace, cx);
        MultiWorkspace {
            window_id: cx.window_id,
            workspaces: vec![workspace],
            database_id: None,
            active_workspace_index: 0,
            sidebar_visible: false,
            sidebar_width: DEFAULT_SIDEBAR_WIDTH,
            expanded_folders: vec![true],
            pending_removal_tasks: Vec::new(),
            serialize_task: None,
            create_task: None,
        }
    }

    /// Lets every task that the window holds run on by itself. Called when the
    /// window goes away.
    pub fn release(&mut self, cx: &mut Context)
        ensures
            final(self)@ == old(self)@.without_tasks(),
            final(cx)@ == old(cx)@.after(
                0,
                old(self)@.held_tasks().map_values(|task: TaskId| Effect::DetachTask(task)),
            ),
    {
        let ghost before = cx@;
        let ghost detach = |task: TaskId| Effect::DetachTask(task);
        let tasks = self.app_will_quit();
        let mut i: usize = 0;
        while i < tasks.len()
            invariant
                i <= tasks@.len(),
                detach == (|task: TaskId| Effect::DetachTask(task)),
                cx@ == before.after(0, tasks@.take(i as int).map_values(detach)),
            decreases tasks@.len() - i,
        {
            cx.request(Effect::DetachTask(tasks[i]));
            assert(tasks@.take(i + 1) =~= tasks@.take(i as int).push(tasks@[i as int]));
            i += 1;
        }
        assert(tasks@.take(i as int) =~= tasks@);
    }

    /// Asks to hear of the events of a workspace.
    fn subscribe_to_workspace(workspace: EntityId, cx: &mut Context)
        ensures
            final(cx)@ == old(cx)@.after(0, seq![Effect::Subscribe(workspace)]),
    {
        cx.request(Effect::Subscribe(workspace));
    }

    /// Hears of an event of a workspace: one that asks to be shown becomes
    /// active, as by [`MultiWorkspace::activate`].
    pub fn on_workspace_event(
        &mut self,
        workspace: EntityId,
        event: WorkspaceEvent,
        cx: &mut Context,
    )
        requires
            old(self)@.wf(),
            old(cx)@.has(workspace),
            old(cx)@.can_spawn(1),
        ensures
            final(self)@.wf(),
            event is Activate ==> final(self)@ == old(self)@.activating(workspace, old(cx)@),
            event is Activate ==> final(cx)@ == old(cx)@.after(
                old(self)@.activation_tasks(workspace, old(cx)@),
                old(self)@.activation_effects(workspace, old(cx)@),
            ),
            event is Other ==> final(self)@ == old(self)@ && final(cx)@ == old(cx)@,
    {
        match event {
            WorkspaceEvent::Activate => self.activate(workspace, cx),
            WorkspaceEvent::Other => {},
        }
    }

    /// The active workspace.
    pub fn workspace(&self) -> (workspace: EntityId)
        requires
            self@.wf(),
        ensures
            workspace == self@.active_workspace(),
    {
        self.workspaces[self.active_workspace_index]
    }

    /// All workspaces of the window, in the order of the sidebar.
    pub fn workspaces(&self) -> (workspaces: &[EntityId])
        ensures
            workspaces@ == self@.workspaces,
    {
        self.workspaces.as_slice()
    }

    /// Index of the active workspace.
    pub fn active_workspace_index(&self) -> (index: usize)
        ensures
            index == self@.active,
    {
        self.active_workspace_index
    }

    /// Whether the user has the sidebar open.
    pub fn sidebar_visible(&self) -> (visible: bool)
        ensures
            visible == self@.sidebar_visible,
    {
        self.sidebar_visible
    }

    /// Width of the sidebar, in pixels.
    pub fn sidebar_width(&self) -> (width: u32)
        ensures
            width == self@.sidebar_width,
    {
        self.sidebar_width
    }

    /// Shows a workspace, and adds it to the window if it is not yet there.
    /// Where a window may hold one workspace only, the workspace takes the
    /// first place instead.
    pub fn activate(&mut self, workspace: EntityId, cx: &mut Context)
        requires
            old(self)@.wf(),
            old(cx)@.has(workspace),
            old(cx)@.can_spawn(1),
        ensures
            final(self)@.wf(),
            final(self)@.active_workspace() == workspace,
            final(self)@ == old(self)@.activating(workspace, old(cx)@),
            final(cx)@ == old(cx)@.after(
                old(self)@.activation_tasks(workspace, old(cx)@),
                old(self)@.activation_effects(workspace, old(cx)@),
            ),
    {
        if !multi_workspace_enabled(cx) {
            self.workspaces.set(0, workspace);
            self.active_workspace_index = 0;
            cx.request(Effect::Emit(MultiWorkspaceEvent::ActiveWorkspaceChanged));
            cx.request(Effect::Notify);
            return ;
        }
        let old_index: usize = self.active_workspace_index;
        let new_index = self.set_active_workspace(workspace, cx);
        if old_index != new_index {
            self.serialize(cx);
        }
    }

    /// Shows a workspace, and adds it to the window if it is not yet there,
    /// without writing the state of the window. Returns its index.
    pub(crate) fn set_active_workspace(
        &mut self,
        workspace: EntityId,
        cx: &mut Context,
    ) -> (index: usize)
        requires
            old(self)@.wf(),
        ensures
            final(self)@.wf(),
            final(self)@.active_workspace() == workspace,
            index == final(self)@.active,
            final(self)@ == old(self)@.with_active_workspace(workspace),
            final(cx)@ == old(cx)@.after(0, old(self)@.set_active_effects(workspace)),
    {
        let index = self.add_workspace(workspace, cx);
        let changed = self.active_workspace_index != index;
        self.active_workspace_index = index;
        if changed {
            cx.request(Effect::Emit(MultiWorkspaceEvent::ActiveWorkspaceChanged));
        }
        cx.request(Effect::Notify);
        index
    }

    /// Index of a workspace, if the window has it.
    fn position(&self, workspace: EntityId) -> (position: Option<usize>)
        ensures
            position is Some <==> self@.workspaces.contains(workspace),
            position matches Some(i) ==> WindowModel::first_at(
                self@.workspaces,
                workspace,
                i as int,
            ) && i == self@.index_of(workspace),
    {
        let mut i: usize = 0;
        while i < self.workspaces.len()
            invariant
                i <= self.workspaces@.len(),
                forall|j: int| 0 <= j < i ==> #[trigger] self.workspaces@[j] != workspace,
            decreases self.workspaces@.len() - i,
        {
            if self.workspaces[i] == workspace {
                assert(WindowModel::first_at(self.workspaces@, workspace, i as int));
                return Some(i);
            }
            i += 1;
        }
        None
    }

    /// Adds a workspace to this window without changing which workspace is active.
    /// Returns the index of the workspace (existing or newly inserted).
    pub fn add_workspace(&mut self, workspace: EntityId, cx: &mut Context) -> (index: usize)
        requires
            old(self)@.wf(),
        ensures
            final(self)@.wf(),
            final(self)@ == old(self)@.with_workspace(workspace),
            final(self)@.active_workspace() == old(self)@.active_workspace(),
            WindowModel::first_at(final(self)@.workspaces, workspace, index as int),
            index == final(self)@.index_of(workspace),
            final(cx)@ == old(cx)@.after(0, old(self)@.add_effects(workspace)),
    {
        if let Some(index) = self.position(workspace) {
            index
        } else {
            Self::subscribe_to_workspace(workspace, cx);
            self.workspaces.push(workspace);
            self.expanded_folders.push(true);
            cx.request(Effect::Emit(MultiWorkspaceEvent::WorkspaceAdded(workspace)));
            cx.request(Effect::Notify);
            assert(WindowModel::first_at(
                self.workspaces@,
                workspace,
                self.workspaces@.len() - 1,
            ));
            self.workspaces.len() - 1
        }
    }

    /// Row of the window in the database, once it has one.
    pub fn database_id(&self) -> (id: Option<MultiWorkspaceId>)
        ensures
            id == self@.database_id,
    {
        self.database_id
    }

    pub fn set_database_id(&mut self, id: Option<MultiWorkspaceId>)
        ensures
            final(self)@ == (WindowModel { database_id: id, ..old(self)@ }),
    {
        self.database_id = id;
    }

    /// Shows the workspace at `index` and moves the focus there.
    pub fn activate_index(&mut self, index: usize, cx: &mut Context)
        requires
            old(self)@.wf(),
            index < old(self)@.workspaces.len(),
            old(cx)@.has(old(self)@.workspaces[index as int]),
            old(cx)@.can_spawn(1),
        ensures
            final(self)@.wf(),
            final(self)@ == old(self)@.with_active(index as int).saved_by(old(cx)@.task(0)),
            final(cx)@ == old(cx)@.after(
                1,
                old(self)@.activate_index_effects(index as int, old(cx)@),
            ),
    {
        let changed = self.active_workspace_index != index;
        self.active_workspace_index = index;
        self.serialize(cx);
        self.focus_active_workspace(cx);
        if changed {
            cx.request(Effect::Emit(MultiWorkspaceEvent::ActiveWorkspaceChanged));
        }
        cx.request(Effect::Notify);
    }

    /// Shows the next workspace; after the last comes the first. A window with
    /// one workspace stays as it is.
    pub fn activate_next_workspace(&mut self, cx: &mut Context)
        requires
            old(self)@.wf(),
            old(self)@.readable_in(old(cx)@),
            old(cx)@.can_spawn(1),
        ensures
            final(self)@.wf(),
            old(self)@.workspaces.len() > 1 ==> {
                &&& final(self)@ == old(self)@.with_active(old(self)@.next_index()).saved_by(
                    old(cx)@.task(0),
                )
                &&& final(cx)@ == old(cx)@.after(
                    1,
                    old(self)@.activate_index_effects(old(self)@.next_index(), old(cx)@),
                )
            },
            old(self)@.workspaces.len() == 1 ==> final(self)@ == old(self)@ && final(cx)@ == old(
                cx,
            )@,
    {
        if self.workspaces.len() > 1 {
            let next_index: usize = (self.active_workspace_index + 1) % self.workspaces.len();
            self.activate_index(next_index, cx);
        }
    }

    /// Shows the previous workspace; before the first comes the last. A window
    /// with one workspace stays as it is.
    pub fn activate_previous_workspace(&mut self, cx: &mut Context)
        requires
            old(self)@.wf(),
            old(self)@.readable_in(old(cx)@),
            old(cx)@.can_spawn(1),
        ensures
            final(self)@.wf(),
            old(self)@.workspaces.len() > 1 ==> {
                &&& final(self)@ == old(self)@.with_active(old(self)@.previous_index()).saved_by(
                    old(cx)@.task(0),
                )
                &&& final(cx)@ == old(cx)@.after(
                    1,
                    old(self)@.activate_index_effects(old(self)@.previous_index(), old(cx)@),
                )
            },
            old(self)@.workspaces.len() == 1 ==> final(self)@ == old(self)@ && final(cx)@ == old(
                cx,
            )@,
    {
        if self.workspaces.len() > 1 {
            let prev_index: usize = if self.active_workspace_index == 0 {
                self.workspaces.len() - 1
            } else {
                self.active_workspace_index - 1
            };
            proof {
                let n = self.workspaces@.len() as int;
                let active = self.active_workspace_index as int;
                if active == 0 {
                    vstd::arithmetic::div_mod::lemma_mod_add_multiples_vanish(-1, n);
                    vstd::arithmetic::div_mod::lemma_small_mod((n - 1) as nat, n as nat);
                } else {
                    vstd::arithmetic::div_mod::lemma_small_mod((active - 1) as nat, n as nat);
                }
            }
            self.activate_index(prev_index, cx);
        }
    }

    /// Starts to write the state of the window. A write that still runs is
    /// given up.
    fn serialize(&mut self, cx: &mut Context)
        requires
            old(self)@.wf(),
            old(cx)@.has(old(self)@.active_workspace()),
            old(cx)@.can_spawn(1),
        ensures
            final(self)@ == old(self)@.saved_by(old(cx)@.task(0)),
            final(cx)@ == old(cx)@.after(1, old(self)@.save_effects(old(cx)@, old(cx)@.task(0))),
    {
        let state = MultiWorkspaceState {
            active_workspace_id: self.active_workspace_database_id(cx),
        };
        let task = cx.spawn(Job::WriteState { window_id: self.window_id, state });
        cx.drop_task(self.serialize_task);
        self.serialize_task = Some(task);
    }

    /// Returns the in-flight serialization task (if any) so the caller can
    /// await it. Used by the quit handler to ensure pending DB writes
    /// complete before the process exits.
    pub fn flush_serialization(&mut self) -> (task: Task)
        ensures
            task == (match old(self)@.serialize_task {
                Some(task) => Task::Spawned(task),
                None => Task::Ready,
            }),
            final(self)@ == (WindowModel { serialize_task: None, ..old(self)@ }),
    {
        match self.serialize_task.take() {
            Some(task) => Task::Spawned(task),
            None => Task::Ready,
        }
    }

    /// Hands out every task that the window holds, for the editor to await
    /// before it quits.
    pub fn app_will_quit(&mut self) -> (tasks: Vec<TaskId>)
        ensures
            tasks@ == old(self)@.held_tasks(),
            final(self)@ == old(self)@.without_tasks(),
    {
        let mut tasks: Vec<TaskId> = Vec::new();
        if let Some(task) = self.serialize_task.take() {
            tasks.push(task);
        }
        if let Some(task) = self.create_task.take() {
            tasks.push(task);
        }
        tasks.append(&mut self.pending_removal_tasks);
        tasks
    }

    /// Moves the focus to the active workspace: to the zoomed panel of its
    /// first dock that shows one, else to its active pane.
    pub fn focus_active_workspace(&self, cx: &mut Context)
        requires
            self@.wf(),
            old(cx)@.has(self@.active_workspace()),
        ensures
            final(cx)@ == old(cx)@.after(0, self@.focus_effects(old(cx)@)),
    {
        let handle = cx.workspace(self.workspace()).focus_handle();
        cx.request(Effect::Focus(handle));
    }

    /// Puts a panel into the active workspace.
    pub fn add_panel(&mut self, panel: EntityId, cx: &mut Context)
        requires
            old(self)@.wf(),
        ensures
            final(self)@ == old(self)@,
            final(cx)@ == old(cx)@.after(
                0,
                seq![Effect::AddPanel { workspace: old(self)@.active_workspace(), panel }],
            ),
    {
        cx.request(Effect::AddPanel { workspace: self.workspace(), panel });
    }

    /// Opens or closes a dock of the active workspace.
    pub fn toggle_dock(&mut self, dock_side: DockPosition, cx: &mut Context)
        requires
            old(self)@.wf(),
        ensures
            final(self)@ == old(self)@,
            final(cx)@ == old(cx)@.after(
                0,
                seq![Effect::ToggleDock { workspace: old(self)@.active_workspace(), dock_side }],
            ),
    {
        cx.request(Effect::ToggleDock { workspace: self.workspace(), dock_side });
    }

    /// Row of the active workspace in the database, once it has one.
    pub fn active_workspace_database_id(&self, cx: &Context) -> (id: Option<WorkspaceId>)
        requires
            self@.wf(),
            cx@.has(self@.active_workspace()),
        ensures
            id == cx@.workspace(self@.active_workspace()).database_id,
    {
        cx.workspace(self.workspace()).database_id
    }

    /// Hands out the tasks that still run among those that delete rows and the
    /// one that asks for a row.
    pub fn take_pending_removal_tasks(&mut self, cx: &mut Context) -> (tasks: Vec<TaskId>)
        ensures
            tasks@ == old(cx)@.unfinished(
                old(self)@.pending_removals + WindowModel::task_or_none(old(self)@.create_task),
            ),
            final(self)@ == (WindowModel {
                pending_removals: seq![],
                create_task: None,
                ..old(self)@
            }),
            final(cx)@ == old(cx)@.after(
                0,
                old(cx)@.drop_finished(
                    old(self)@.pending_removals + WindowModel::task_or_none(old(self)@.create_task),
                ),
            ),
    {
        let mut tasks: Vec<TaskId> = Vec::new();
        tasks.append(&mut self.pending_removal_tasks);
        if let Some(task) = self.create_task.take() {
            tasks.push(task);
        }
        assert(tasks@ =~= old(self)@.pending_removals + WindowModel::task_or_none(
            old(self)@.create_task,
        ));
        cx.retain_unfinished(&tasks)
    }

    /// Gives the active workspace a row that was picked at random. For tests.
    pub fn set_random_database_id(&mut self, random_id: WorkspaceId, cx: &mut Context)
        requires
            old(self)@.wf(),
            old(cx)@.has(old(self)@.active_workspace()),
        ensures
            final(self)@ == old(self)@,
            final(cx)@ == old(cx)@.with_database_id(
                old(self)@.active_workspace(),
                random_id,
            ).after(
                0,
                seq![
                    Effect::SetDatabaseId {
                        workspace: old(self)@.active_workspace(),
                        workspace_id: random_id,
                    },
                ],
            ),
    {
        cx.set_database_id(self.workspace(), random_id);
    }

    /// A window that shows a workspace which was made for a test.
    pub fn test_new(workspace: EntityId, cx: &mut Context) -> (window: Self)
        ensures
            window@.wf(),
            window@ == WindowModel::with_only(workspace, old(cx)@.window_id),
            final(cx)@ == old(cx)@.after(0, WindowModel::new_effects(workspace)),
    {
        Self::new(workspace, cx)
    }

    /// Shows a workspace which was made for a test, as by
    /// [`MultiWorkspace::activate`], and returns it.
    pub fn test_add_workspace(&mut self, workspace: EntityId, cx: &mut Context) -> (added: EntityId)
        requires
            old(self)@.wf(),
            old(cx)@.has(workspace),
            old(cx)@.can_spawn(1),
        ensures
            added == workspace,
            final(self)@.wf(),
            final(self)@.active_workspace() == workspace,
            final(self)@ == old(self)@.activating(workspace, old(cx)@),
            final(cx)@ == old(cx)@.after(
                old(self)@.activation_tasks(workspace, old(cx)@),
                old(self)@.activation_effects(workspace, old(cx)@),
            ),
    {
        self.activate(workspace, cx);
        workspace
    }

    /// Shows a workspace that was just created for the window, opens a terminal
    /// in its center and asks for its row in the database. Does nothing where a
    /// window may hold one workspace only.
    pub fn create_workspace(&mut self, new_workspace: EntityId, cx: &mut Context)
        requires
            old(self)@.wf(),
            old(cx)@.has(new_workspace),
            old(cx)@.can_spawn(1),
        ensures
            final(self)@.wf(),
            !old(cx)@.multi_workspace_enabled() ==> final(self)@ == old(self)@ && final(cx)@
                == old(cx)@,
            old(cx)@.multi_workspace_enabled() ==> {
                &&& final(self)@.active_workspace() == new_workspace
                &&& final(self)@ == (WindowModel {
                    create_task: Some(old(cx)@.task(0)),
                    ..old(self)@.with_active_workspace(new_workspace)
                })
                &&& final(cx)@ == old(cx)@.after(
                    1,
                    old(self)@.create_effects(new_workspace, old(cx)@),
                )
            },
    {
        if !multi_workspace_enabled(cx) {
            return ;
        }
        self.set_active_workspace(new_workspace, cx);
        self.focus_active_workspace(cx);
        let focus = cx.workspace(new_workspace).active_pane;
        cx.request(Effect::NewCenterTerminal { focus, local: false, working_directory: None });
        let task = cx.spawn(Job::NextWorkspaceId { workspace: new_workspace });
        cx.drop_task(self.create_task);
        self.create_task = Some(task);
    }

    /// Hears what became of the row that was asked for when a workspace was
    /// created. `workspace` is that workspace, unless it is gone meanwhile.
    ///
    /// A row that was found is given to the workspace and bound to its session
    /// and this window, or deleted where the workspace is gone. Without a row
    /// the workspace is removed, and the active workspace tells why.
    pub fn finish_create_workspace(
        &mut self,
        workspace: Option<EntityId>,
        result: Result<WorkspaceId, String>,
        cx: &mut Context,
    )
        requires
            old(self)@.wf(),
            old(self)@.readable_in(old(cx)@),
            workspace is Some ==> old(cx)@.has(workspace->0),
            old(cx)@.can_spawn(2),
        ensures
            final(self)@.wf(),
            result matches Ok(workspace_id) ==> {
                &&& final(self)@ == old(self)@.saved_by(old(cx)@.task(1))
                &&& final(cx)@ == WindowModel::context_with_row(
                    workspace,
                    workspace_id,
                    old(cx)@,
                ).after(2, old(self)@.row_effects(workspace, workspace_id, old(cx)@))
            },
            result matches Err(error) ==> {
                let removed = old(self)@.removing_created(workspace, old(cx)@);
                let toast = final(cx)@.effects.last();
                &&& final(self)@ == removed
                &&& final(cx)@ == old(self)@.context_after_removing_created(
                    workspace,
                    old(cx)@,
                ).after(0, seq![toast])
                &&& toast matches Effect::ShowToast { workspace: shown_in, message } && shown_in
                    == removed.active_workspace() && message@
                    == "Failed to create workspace: "@ + error@
            },
    {
        match result {
            Ok(workspace_id) => {
                if let Some(workspace) = workspace {
                    let session_id = cx.workspace(workspace).session_id.clone();
                    cx.set_database_id(workspace, workspace_id);
                    let task = cx.spawn(
                        Job::SetSessionBinding {
                            workspace_id,
                            session_id,
                            window_id: Some(cx.window_id.0),
                        },
                    );
                    cx.request(Effect::DetachTask(task));
                } else {
                    let task = cx.spawn(Job::DeleteWorkspace { workspace_id });
                    cx.request(Effect::DetachTask(task));
                }
                self.serialize(cx);
            },
            Err(error) => {
                if let Some(workspace) = workspace {
                    if let Some(index) = self.position(workspace) {
                        self.remove_workspace(index, cx);
                    }
                }
                let message = "Failed to create workspace: ".to_owned().concat(error.as_str());
                cx.request(Effect::ShowToast { workspace: self.workspace(), message });
            },
        }
    }

    /// Removes the workspace at `index` from the window, unless it is the only
    /// one or there is none. Its row is deleted from the database.
    pub fn remove_workspace(&mut self, index: usize, cx: &mut Context)
        requires
            old(self)@.wf(),
            old(self)@.readable_in(old(cx)@),
            old(cx)@.can_spawn(2),
        ensures
            final(self)@.wf(),
            final(self)@ == old(self)@.removing(index as int, old(cx)@),
            final(cx)@ == old(cx)@.after(
                old(self)@.removal_tasks(index as int, old(cx)@),
                old(self)@.removal_effects(index as int, old(cx)@),
            ),
    {
        if self.workspaces.len() <= 1 || index >= self.workspaces.len() {
            return ;
        }
        let removed_workspace = self.workspaces.remove(index);
        if index < self.expanded_folders.len() {
            self.expanded_folders.remove(index);
        }
        if self.active_workspace_index >= self.workspaces.len() {
            self.active_workspace_index = self.workspaces.len() - 1;
        } else if self.active_workspace_index > index {
            self.active_workspace_index = self.active_workspace_index - 1;
        }
        assert(self@ == old(self)@.without(index as int));
        if let Some(workspace_id) = cx.workspace(removed_workspace).database_id {
            self.pending_removal_tasks = cx.retain_unfinished(&self.pending_removal_tasks);
            let task = cx.spawn(Job::DeleteWorkspace { workspace_id });
            self.pending_removal_tasks.push(task);
        }
        self.serialize(cx);
        self.focus_active_workspace(cx);
        cx.request(Effect::Emit(MultiWorkspaceEvent::WorkspaceRemoved(removed_workspace)));
        cx.request(Effect::Emit(MultiWorkspaceEvent::ActiveWorkspaceChanged));
        cx.request(Effect::Notify);
    }

    /// Opens the sidebar, or closes it.
    pub fn toggle_sidebar(&mut self, cx: &mut Context)
        ensures
            final(self)@ == old(self)@.with_sidebar(!old(self)@.sidebar_visible),
            final(cx)@ == old(cx)@.after(0, seq![Effect::Notify]),
    {
        self.sidebar_visible = !self.sidebar_visible;
        cx.request(Effect::Notify);
    }

    /// Whether the folder at `index` of the sidebar shows its entries.
    pub fn folder_expanded(&self, index: usize) -> (expanded: bool)
        ensures
            expanded == self@.folder_expanded(index as int),
    {
        if index < self.expanded_folders.len() {
            self.expanded_folders[index]
        } else {
            true
        }
    }

    /// Shows or hides the entries of the folder at `index` of the sidebar, if
    /// there is one.
    pub fn toggle_folder_expanded(&mut self, index: usize, cx: &mut Context)
        ensures
            final(self)@ == old(self)@.with_folder_toggled(index as int),
            final(cx)@ == (if index < old(self)@.expanded.len() {
                old(cx)@.after(0, seq![Effect::Notify])
            } else {
                old(cx)@
            }),
    {
        if index < self.expanded_folders.len() {
            let expanded = self.expanded_folders[index];
            self.expanded_folders.set(index, !expanded);
            cx.request(Effect::Notify);
        }
    }

    /// Shows the sidebar if, and only if, the window has more than one
    /// workspace.
    pub(crate) fn show_sidebar_for_many(&mut self)
        ensures
            final(self)@ == old(self)@.with_sidebar(old(self)@.workspaces.len() > 1),
    {
        self.sidebar_visible = self.workspaces.len() > 1;
    }
}

} // verus!
