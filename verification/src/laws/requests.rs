//! What each operation asks of the editor, said of the window that it leaves:
//! what is written names the workspace that is then active, and what is started
//! is what the window then holds.

use std::path::PathBuf;
use vstd::prelude::*;

use crate::context::{ContextModel, Effect, Job, MultiWorkspaceEvent, MultiWorkspaceState};
use crate::ids::{EntityId, TaskId, WorkspaceId};
use crate::sidebar::SidebarClick;
use crate::window_model::WindowModel;

verus! {

/// The state of `window` is being written by the task that it holds for that.
pub open spec fn writing(window: WindowModel, cx: ContextModel) -> Effect {
    Effect::Spawn {
        task: window.serialize_task->0,
        job: Job::WriteState {
            window_id: window.window_id,
            state: MultiWorkspaceState {
                active_workspace_id: cx.workspaces[window.workspaces[window.active].0].database_id,
            },
        },
    }
}

/// A task that was held, and is replaced by another, is given up.
pub open spec fn giving_up(task: Option<TaskId>) -> Seq<Effect> {
    if task is Some {
        seq![Effect::DropTask(task->0)]
    } else {
        seq![]
    }
}


/// Writing the state starts one task, which names the row of the active
/// workspace, and gives up the one before it.
pub proof fn writing_names_the_active_row(window: WindowModel, cx: ContextModel, task: TaskId)
    ensures
        window.save_effects(cx, task) == seq![writing(window.saved_by(task), cx)] + giving_up(
            window.serialize_task,
        ),
{
    assert(window.save_effects(cx, task) =~= seq![writing(window.saved_by(task), cx)] + giving_up(
        window.serialize_task,
    ));
}

/// Adding a workspace that is new subscribes to it, announces it and draws the
/// window again; adding one that is there asks for nothing.
pub proof fn what_is_new_is_announced(window: WindowModel, workspace: EntityId)
    ensures
        ({
            let effects = window.add_effects(workspace);
            &&& window.workspaces.contains(workspace) ==> effects.len() == 0
            &&& !window.workspaces.contains(workspace) ==> effects == seq![
                Effect::Subscribe(workspace),
                Effect::Emit(MultiWorkspaceEvent::WorkspaceAdded(workspace)),
                Effect::Notify,
            ]
        }),
{
}

/// Making a workspace active announces it where it is new, then the change of
/// the active index where there is one, and draws the window again.
pub proof fn a_change_is_announced(window: WindowModel, workspace: EntityId)
    ensures
        ({
            let effects = window.set_active_effects(workspace);
            let added = window.add_effects(workspace);
            let after = window.with_active_workspace(workspace);
            &&& after.active != window.active ==> effects == added + seq![
                Effect::Emit(MultiWorkspaceEvent::ActiveWorkspaceChanged),
                Effect::Notify,
            ]
            &&& after.active == window.active ==> effects == added + seq![Effect::Notify]
        }),
{
}

/// A workspace that asks to be shown is announced as by making it active, and
/// the state is written exactly where the active index changes. In a window for
/// one workspace a change is announced each time, and nothing is written.
pub proof fn activating_writes_a_change(
    window: WindowModel,
    workspace: EntityId,
    cx: ContextModel,
)
    ensures
        ({
            let effects = window.activation_effects(workspace, cx);
            let after = window.activating(workspace, cx);
            let shown = window.set_active_effects(workspace);
            &&& !cx.multi_workspace_enabled() ==> effects == seq![
                Effect::Emit(MultiWorkspaceEvent::ActiveWorkspaceChanged),
                Effect::Notify,
            ]
            &&& cx.multi_workspace_enabled() && after.active == window.active ==> effects == shown
            &&& cx.multi_workspace_enabled() && after.active != window.active ==> effects == shown
                + seq![writing(after, cx)] + giving_up(window.serialize_task)
        }),
{
    let effects = window.activation_effects(workspace, cx);
    let after = window.activating(workspace, cx);
    if cx.multi_workspace_enabled() && after.active != window.active {
        assert(effects =~= window.set_active_effects(workspace) + seq![writing(after, cx)]
            + giving_up(window.serialize_task));
    }
}

/// Activating an index writes the state, moves the focus, announces a change
/// where there is one and draws the window again, in this order.
pub proof fn activating_an_index_writes_and_announces(
    window: WindowModel,
    index: int,
    cx: ContextModel,
)
    ensures
        ({
            let effects = window.activate_index_effects(index, cx);
            let after = WindowModel {
                active: index,
                serialize_task: Some(TaskId(cx.next_task as u64)),
                ..window
            };
            let first = seq![writing(after, cx)] + giving_up(window.serialize_task)
                + after.focus_effects(cx);
            &&& index != window.active ==> effects == first + seq![
                Effect::Emit(MultiWorkspaceEvent::ActiveWorkspaceChanged),
                Effect::Notify,
            ]
            &&& index == window.active ==> effects == first + seq![Effect::Notify]
        }),
{
    let effects = window.activate_index_effects(index, cx);
    let after = WindowModel {
        active: index,
        serialize_task: Some(TaskId(cx.next_task as u64)),
        ..window
    };
    let first = seq![writing(after, cx)] + giving_up(window.serialize_task) + after.focus_effects(
        cx,
    );
    assert(effects =~= first + window.change_effects(index));
}

/// A removal starts the deletion of the row that the removed workspace has,
/// having forgotten the deletions that are finished, and no deletion where it
/// has no row. It writes the state that it leaves, moves the focus, announces
/// the workspace that is gone and a change, and draws the window again, in this
/// order.
pub proof fn removing_deletes_the_row_and_announces(
    window: WindowModel,
    index: int,
    cx: ContextModel,
)
    requires
        window.workspaces.len() > 1,
        0 <= index < window.workspaces.len(),
    ensures
        ({
            let effects = window.removal_effects(index, cx);
            let after = window.removing(index, cx);
            let removed = window.workspaces[index];
            let row = cx.workspaces[removed.0].database_id;
            let last = seq![writing(after, cx)] + giving_up(window.serialize_task)
                + after.focus_effects(cx) + seq![
                Effect::Emit(MultiWorkspaceEvent::WorkspaceRemoved(removed)),
                Effect::Emit(MultiWorkspaceEvent::ActiveWorkspaceChanged),
                Effect::Notify,
            ];
            &&& row is None ==> effects == last
            &&& row is Some ==> effects == cx.drop_finished(window.pending_removals) + seq![
                Effect::Spawn {
                    task: after.pending_removals.last(),
                    job: Job::DeleteWorkspace { workspace_id: row->0 },
                },
            ] + last
        }),
{
    let effects = window.removal_effects(index, cx);
    let after = window.removing(index, cx);
    let removed = window.workspaces[index];
    let row = cx.workspaces[removed.0].database_id;
    let last = seq![writing(after, cx)] + giving_up(window.serialize_task) + after.focus_effects(
        cx,
    ) + seq![
        Effect::Emit(MultiWorkspaceEvent::WorkspaceRemoved(removed)),
        Effect::Emit(MultiWorkspaceEvent::ActiveWorkspaceChanged),
        Effect::Notify,
    ];
    if row is None {
        assert(effects =~= last);
    } else {
        assert(effects =~= cx.drop_finished(window.pending_removals) + seq![
            Effect::Spawn {
                task: after.pending_removals.last(),
                job: Job::DeleteWorkspace { workspace_id: row->0 },
            },
        ] + last);
    }
}

/// The one task that a creation starts asks for a row for the workspace that
/// was just created, whatever task the window held before; that one is given
/// up.
pub proof fn a_creation_asks_for_its_own_row(
    window: WindowModel,
    workspace: EntityId,
    cx: ContextModel,
    i: int,
)
    ensures
        ({
            let effects = window.create_effects(workspace, cx);
            let asking = Effect::Spawn {
                task: TaskId(cx.next_task as u64),
                job: Job::NextWorkspaceId { workspace },
            };
            &&& effects.contains(asking)
            &&& 0 <= i < effects.len() && effects[i] is Spawn ==> effects[i] == asking && i
                == effects.len() - 1 - giving_up(window.create_task).len()
            &&& 0 <= i < effects.len() && effects[i] is DropTask ==> window.create_task is Some
                && effects[i] == Effect::DropTask(window.create_task->0) && i == effects.len() - 1
            &&& window.create_task is Some ==> effects.last() == Effect::DropTask(
                window.create_task->0,
            )
        }),
{
    let effects = window.create_effects(workspace, cx);
    let k = effects.len() - 1 - giving_up(window.create_task).len();
    assert(effects[k] == (Effect::Spawn {
        task: TaskId(cx.next_task as u64),
        job: Job::NextWorkspaceId { workspace },
    }));
}

/// A creation shows and announces the workspace, focuses it, opens a terminal in
/// its center and asks for its row, in this order.
pub proof fn a_creation_shows_its_workspace(
    window: WindowModel,
    workspace: EntityId,
    cx: ContextModel,
)
    ensures
        window.create_effects(workspace, cx) == window.set_active_effects(workspace) + seq![
            Effect::Focus(cx.workspaces[workspace.0].focus_target()),
            Effect::NewCenterTerminal {
                focus: cx.workspaces[workspace.0].active_pane,
                local: false,
                working_directory: None,
            },
            Effect::Spawn {
                task: TaskId(cx.next_task as u64),
                job: Job::NextWorkspaceId { workspace },
            },
        ] + giving_up(window.create_task),
{
    crate::laws::changes::making_active_shows_the_workspace(window, workspace, 0);
    assert(window.create_effects(workspace, cx) =~= window.set_active_effects(workspace) + seq![
        Effect::Focus(cx.workspaces[workspace.0].focus_target()),
        Effect::NewCenterTerminal {
            focus: cx.workspaces[workspace.0].active_pane,
            local: false,
            working_directory: None,
        },
        Effect::Spawn {
            task: TaskId(cx.next_task as u64),
            job: Job::NextWorkspaceId { workspace },
        },
    ] + giving_up(window.create_task));
}

/// A row that was found is given to the created workspace and bound to the
/// session of that workspace and to this window, by a task that runs by itself.
/// Where the workspace is gone the row is deleted again. Then the state is
/// written, with the row where the created workspace is active.
pub proof fn a_found_row_is_bound_or_deleted(
    window: WindowModel,
    workspace: EntityId,
    workspace_id: WorkspaceId,
    cx: ContextModel,
)
    ensures
        ({
            let after = WindowModel {
                serialize_task: Some(TaskId((cx.next_task + 1) as u64)),
                ..window
            };
            let by = TaskId(cx.next_task as u64);
            let named = cx.with_database_id(workspace, workspace_id);
            &&& window.row_effects(Some(workspace), workspace_id, cx) == seq![
                Effect::SetDatabaseId { workspace, workspace_id },
                Effect::Spawn {
                    task: by,
                    job: Job::SetSessionBinding {
                        workspace_id,
                        session_id: cx.workspaces[workspace.0].session_id,
                        window_id: Some(cx.window_id.0),
                    },
                },
                Effect::DetachTask(by),
                writing(after, named),
            ] + giving_up(window.serialize_task)
            &&& window.row_effects(None, workspace_id, cx) == seq![
                Effect::Spawn { task: by, job: Job::DeleteWorkspace { workspace_id } },
                Effect::DetachTask(by),
                writing(after, cx),
            ] + giving_up(window.serialize_task)
            &&& window.workspaces[window.active] == workspace ==> writing(after, named) == (
            Effect::Spawn {
                task: after.serialize_task->0,
                job: Job::WriteState {
                    window_id: window.window_id,
                    state: MultiWorkspaceState { active_workspace_id: Some(workspace_id) },
                },
            })
        }),
{
    let after = WindowModel {
        serialize_task: Some(TaskId((cx.next_task + 1) as u64)),
        ..window
    };
    let by = TaskId(cx.next_task as u64);
    let named = cx.with_database_id(workspace, workspace_id);
    assert(window.row_effects(Some(workspace), workspace_id, cx) =~= seq![
        Effect::SetDatabaseId { workspace, workspace_id },
        Effect::Spawn {
            task: by,
            job: Job::SetSessionBinding {
                workspace_id,
                session_id: cx.workspaces[workspace.0].session_id,
                window_id: Some(cx.window_id.0),
            },
        },
        Effect::DetachTask(by),
        writing(after, named),
    ] + giving_up(window.serialize_task));
    assert(window.row_effects(None, workspace_id, cx) =~= seq![
        Effect::Spawn { task: by, job: Job::DeleteWorkspace { workspace_id } },
        Effect::DetachTask(by),
        writing(after, cx),
    ] + giving_up(window.serialize_task));
}

/// Opening a folder shows or adds its workspace and ends with one terminal, in
/// the center of that workspace and working in that folder.
pub proof fn a_folder_opens_with_its_terminal(
    window: WindowModel,
    first: bool,
    folder: PathBuf,
    workspace: EntityId,
    cx: ContextModel,
)
    ensures
        ({
            let effects = window.folder_effects(first, folder, workspace, cx);
            &&& effects.len() > 0
            &&& effects.last() == (Effect::NewCenterTerminal {
                focus: cx.workspaces[workspace.0].active_pane,
                local: false,
                working_directory: Some(folder),
            })
            &&& first ==> effects.drop_last() == window.set_active_effects(workspace)
            &&& !first ==> effects.drop_last() == window.add_effects(workspace)
        }),
{
    let effects = window.folder_effects(first, folder, workspace, cx);
    if first {
        assert(effects.drop_last() =~= window.set_active_effects(workspace));
    } else {
        assert(effects.drop_last() =~= window.add_effects(workspace));
    }
}

/// A click on a header is the same as activating its index, and one on a chevron
/// the same as toggling its folder, which draws the window again where there is
/// such a folder.
pub proof fn a_click_does_what_its_element_is_for(
    window: WindowModel,
    index: usize,
    cx: ContextModel,
)
    ensures
        window.clicked(SidebarClick::Header(index), cx) == (WindowModel {
            active: index as int,
            serialize_task: Some(TaskId(cx.next_task as u64)),
            ..window
        }),
        window.context_after_click(SidebarClick::Header(index), cx) == cx.after(
            1,
            window.activate_index_effects(index as int, cx),
        ),
        window.clicked(SidebarClick::Chevron(index), cx) == window.with_folder_toggled(
            index as int,
        ),
        index < window.expanded.len() ==> window.context_after_click(
            SidebarClick::Chevron(index),
            cx,
        ) == cx.after(0, seq![Effect::Notify]),
        index >= window.expanded.len() ==> window.context_after_click(
            SidebarClick::Chevron(index),
            cx,
        ) == cx,
{
}

} // verus!
