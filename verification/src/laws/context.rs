//! What a window reads of the editor, and how its requests are written down.

use vstd::prelude::*;

use crate::context::{Context, ContextModel, Effect};
use crate::ids::{EntityId, TaskId, WorkspaceId};

verus! {

/// A window may hold several workspaces if multi-folder workspaces are enabled,
/// and otherwise only with the agent feature, while AI is not switched off.
pub proof fn settings_decide(cx: ContextModel)
    ensures
        cx.settings.multi_folder_workspaces_enabled ==> cx.multi_workspace_enabled(),
        !cx.settings.multi_folder_workspaces_enabled && cx.settings.disable_ai
            ==> !cx.multi_workspace_enabled(),
        !cx.settings.multi_folder_workspaces_enabled && !cx.settings.disable_ai
            ==> cx.multi_workspace_enabled() == cx.settings.agent_v2_flag,
{
}

/// A workspace is read under its own id, and a task is finished if it is among
/// the finished ones.
pub proof fn reading_goes_by_id(cx: ContextModel, workspace: EntityId, task: TaskId)
    ensures
        cx.has(workspace) <==> cx.workspaces.dom().contains(workspace.0),
        cx.workspace(workspace) == cx.workspaces[workspace.0],
        cx.is_ready(task) <==> cx.finished_tasks.contains(task.0),
{
}

/// The context is read as it is.
pub proof fn a_context_is_read_as_it_is(cx: Context)
    ensures
        cx@.window_id == cx.window_id,
        cx@.settings == cx.settings,
        cx@.sidebar_focused == cx.sidebar_focused,
        cx@.workspaces == cx.workspaces@,
        cx@.finished_tasks == cx.finished_tasks@,
        cx@.next_task == cx.next_task,
        cx@.effects == cx.effects@,
{
}

/// Task ids follow each other, and no two tasks that are started one after the
/// other have the same.
pub proof fn task_ids_follow_each_other(cx: ContextModel, k: int)
    requires
        0 <= cx.next_task,
        0 <= k,
        cx.next_task + k <= u64::MAX,
    ensures
        cx.task(k).0 == cx.next_task + k,
        cx.can_spawn(k),
        !cx.can_spawn(u64::MAX - cx.next_task + 1),
{
}

/// Requests are appended to those before them, and of the rest of a context
/// only the number of tasks changes.
pub proof fn requests_are_appended(cx: ContextModel, tasks: int, effects: Seq<Effect>, i: int)
    ensures
        ({
            let after = cx.after(tasks, effects);
            &&& after.effects.len() == cx.effects.len() + effects.len()
            &&& 0 <= i < cx.effects.len() ==> after.effects[i] == cx.effects[i]
            &&& 0 <= i < effects.len() ==> after.effects[cx.effects.len() + i] == effects[i]
            &&& after.next_task == cx.next_task + tasks
            &&& after.window_id == cx.window_id
            &&& after.settings == cx.settings
            &&& after.sidebar_focused == cx.sidebar_focused
            &&& after.workspaces == cx.workspaces
            &&& after.finished_tasks == cx.finished_tasks
        }),
{
}

/// A row that is given to a workspace is what is read of that workspace, and
/// nothing else changes.
pub proof fn a_row_changes_one_workspace(
    cx: ContextModel,
    workspace: EntityId,
    workspace_id: WorkspaceId,
    other: u64,
)
    ensures
        ({
            let after = cx.with_database_id(workspace, workspace_id);
            let before = cx.workspaces[workspace.0];
            let now = after.workspaces[workspace.0];
            &&& after.workspaces.dom() == cx.workspaces.dom().insert(workspace.0)
            &&& now.database_id == Some(workspace_id)
            &&& now.session_id == before.session_id
            &&& now.docks == before.docks
            &&& now.active_pane == before.active_pane
            &&& other != workspace.0 ==> after.workspaces[other] == cx.workspaces[other]
            &&& after.window_id == cx.window_id
            &&& after.settings == cx.settings
            &&& after.sidebar_focused == cx.sidebar_focused
            &&& after.finished_tasks == cx.finished_tasks
            &&& after.next_task == cx.next_task
            &&& after.effects == cx.effects
        }),
{
    assert(cx.with_database_id(workspace, workspace_id).workspaces.dom()
        =~= cx.workspaces.dom().insert(workspace.0));
}

/// Of several tasks, those that still run are kept in their order and the
/// finished ones are given up in theirs: one more task is added to the one or
/// the other.
pub proof fn finished_tasks_are_given_up(cx: ContextModel, tasks: Seq<TaskId>, last: TaskId)
    ensures
        cx.unfinished(seq![]) == Seq::<TaskId>::empty(),
        cx.drop_finished(seq![]) == Seq::<Effect>::empty(),
        cx.finished_tasks.contains(last.0) ==> {
            &&& cx.unfinished(tasks.push(last)) == cx.unfinished(tasks)
            &&& cx.drop_finished(tasks.push(last)) == cx.drop_finished(tasks).push(
                Effect::DropTask(last),
            )
        },
        !cx.finished_tasks.contains(last.0) ==> {
            &&& cx.unfinished(tasks.push(last)) == cx.unfinished(tasks).push(last)
            &&& cx.drop_finished(tasks.push(last)) == cx.drop_finished(tasks)
        },
{
    reveal(Seq::filter);
    assert(tasks.push(last).drop_last() =~= tasks);
    assert(cx.drop_finished(seq![]) =~= Seq::<Effect>::empty());
    if cx.is_ready(last) {
        assert(cx.drop_finished(tasks.push(last)) =~= cx.drop_finished(tasks).push(
            Effect::DropTask(last),
        ));
    }
}

/// A task that was held is given up, and without one nothing is.
pub proof fn a_held_task_is_given_up(task: TaskId)
    ensures
        crate::context::dropped(Some(task)) == seq![Effect::DropTask(task)],
        crate::context::dropped(None) == Seq::<Effect>::empty(),
{
}

} // verus!
