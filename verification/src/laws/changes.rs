//! What each operation makes of a window: which workspaces it has, in which
//! order, which of them is active, and which tasks it holds.

use vstd::prelude::*;

use crate::context::{ContextModel, Effect};
use crate::ids::{EntityId, TaskId, WindowId, WorkspaceId};
use crate::window_model::WindowModel;

verus! {

/// The windows differ at most in their workspaces, which of them is active, the
/// folders and the tasks.
pub open spec fn same_window(a: WindowModel, b: WindowModel) -> bool {
    &&& a.window_id == b.window_id
    &&& a.database_id == b.database_id
    &&& a.sidebar_visible == b.sidebar_visible
    &&& a.sidebar_width == b.sidebar_width
}

/// The windows hold the same tasks.
pub open spec fn same_tasks(a: WindowModel, b: WindowModel) -> bool {
    &&& a.pending_removals == b.pending_removals
    &&& a.serialize_task == b.serialize_task
    &&& a.create_task == b.create_task
}

/// A window is well-formed if it has an active workspace, and a folder for each
/// workspace; it can be read where each of its workspaces can.
pub proof fn a_window_has_an_active_workspace(window: WindowModel, cx: ContextModel, i: int)
    ensures
        window.wf() <==> 0 <= window.active < window.workspaces.len() && window.expanded.len()
            == window.workspaces.len(),
        window.active_workspace() == window.workspaces[window.active],
        window.readable_in(cx) && 0 <= i < window.workspaces.len() ==> cx.workspaces.dom().contains(
            window.workspaces[i].0,
        ),
        (forall|j: int|
            0 <= j < window.workspaces.len() ==> cx.workspaces.dom().contains(
                (#[trigger] window.workspaces[j]).0,
            )) ==> window.readable_in(cx),
{
    if window.readable_in(cx) && 0 <= i < window.workspaces.len() {
        assert(cx.has(window.workspaces[i]));
    }
}

/// A new window has one workspace, shows it with an expanded folder, has its
/// sidebar closed and holds no task.
pub proof fn a_new_window_shows_its_workspace(workspace: EntityId, window_id: WindowId)
    ensures
        ({
            let window = WindowModel::with_only(workspace, window_id);
            &&& window.window_id == window_id
            &&& window.workspaces.len() == 1 && window.workspaces[0] == workspace
            &&& window.active == 0
            &&& window.expanded.len() == 1 && window.expanded[0]
            &&& window.database_id is None
            &&& !window.sidebar_visible
            &&& window.sidebar_width == 240
            &&& window.pending_removals.len() == 0
            &&& window.serialize_task is None
            &&& window.create_task is None
        }),
        WindowModel::new_effects(workspace) == seq![
            Effect::ObserveRelease,
            Effect::ObserveQuit,
            Effect::Subscribe(workspace),
        ],
{
}

/// The index of a workspace is the least at which the window has it.
pub proof fn an_index_is_the_least(window: WindowModel, workspace: EntityId, i: int)
    requires
        0 <= i < window.workspaces.len(),
        window.workspaces[i] == workspace,
    ensures
        0 <= window.index_of(workspace) <= i,
        window.workspaces[window.index_of(workspace)] == workspace,
        WindowModel::first_at(window.workspaces, workspace, i) <==> window.index_of(workspace)
            == i,
{
    assert(window.workspaces.contains(workspace));
    crate::laws::workspaces::workspace_has_index(window, workspace);
}

/// Adding a workspace that a window has changes nothing; one that it has not
/// comes last, with an expanded folder, and nothing else changes.
pub proof fn adding_appends_what_is_new(window: WindowModel, workspace: EntityId)
    ensures
        ({
            let after = window.with_workspace(workspace);
            &&& window.workspaces.contains(workspace) ==> after == window
            &&& !window.workspaces.contains(workspace) ==> {
                &&& after.workspaces == window.workspaces.push(workspace)
                &&& after.expanded == window.expanded.push(true)
            }
            &&& after.active == window.active
            &&& same_window(after, window)
            &&& same_tasks(after, window)
        }),
{
}

/// Making a workspace active adds it and makes the first place where it is the
/// active one; nothing else changes.
pub proof fn making_active_shows_the_workspace(window: WindowModel, workspace: EntityId, j: int)
    ensures
        ({
            let after = window.with_active_workspace(workspace);
            let added = window.with_workspace(workspace);
            &&& after.workspaces == added.workspaces
            &&& after.expanded == added.expanded
            &&& 0 <= after.active < after.workspaces.len()
            &&& after.workspaces[after.active] == workspace
            &&& 0 <= j < after.active ==> after.workspaces[j] != workspace
            &&& same_window(after, window)
            &&& same_tasks(after, window)
        }),
{
    let added = window.with_workspace(workspace);
    if !window.workspaces.contains(workspace) {
        assert(added.workspaces.last() == workspace);
    }
    assert(added.workspaces.contains(workspace));
    crate::laws::workspaces::workspace_has_index(added, workspace);
}

/// A workspace that asks to be shown is shown. Where a window may hold several,
/// it is added if it is new, and a task to write the state is started and held
/// if, and only if, the active index changes.
pub proof fn activating_shows_the_workspace(
    window: WindowModel,
    workspace: EntityId,
    cx: ContextModel,
)
    requires
        0 <= window.active < window.workspaces.len(),
        cx.multi_workspace_enabled(),
    ensures
        ({
            let after = window.activating(workspace, cx);
            let made_active = window.with_active_workspace(workspace);
            &&& after.workspaces == made_active.workspaces
            &&& after.expanded == made_active.expanded
            &&& after.active == made_active.active
            &&& after.workspaces[after.active] == workspace
            &&& same_window(after, window)
            &&& after.pending_removals == window.pending_removals
            &&& after.create_task == window.create_task
            &&& after.active != window.active ==> after.serialize_task == Some(
                TaskId(cx.next_task as u64),
            ) && window.activation_tasks(workspace, cx) == 1
            &&& after.active == window.active ==> after.serialize_task == window.serialize_task
                && window.activation_tasks(workspace, cx) == 0
        }),
{
    making_active_shows_the_workspace(window, workspace, 0);
    if !window.workspaces.contains(workspace) {
        crate::laws::workspaces::added_workspace_is_last(window, workspace);
    }
}

/// Where a window may hold one workspace only, the one that asks to be shown
/// takes the first place and is active; nothing else changes, and nothing is
/// written.
pub proof fn activating_alone_takes_the_first_place(
    window: WindowModel,
    workspace: EntityId,
    cx: ContextModel,
    j: int,
)
    requires
        window.workspaces.len() > 0,
        !cx.multi_workspace_enabled(),
    ensures
        ({
            let after = window.activating(workspace, cx);
            &&& after.workspaces.len() == window.workspaces.len()
            &&& after.workspaces[0] == workspace
            &&& 0 < j < window.workspaces.len() ==> after.workspaces[j] == window.workspaces[j]
            &&& after.active == 0
            &&& after.expanded == window.expanded
            &&& same_window(after, window)
            &&& same_tasks(after, window)
            &&& window.activation_tasks(workspace, cx) == 0
        }),
{
}

/// Each of these changes one thing of a window.
pub proof fn small_changes_change_one_thing(
    window: WindowModel,
    index: int,
    task: TaskId,
    visible: bool,
)
    ensures
        window.with_active(index) == (WindowModel { active: index, ..window }),
        window.saved_by(task) == (WindowModel { serialize_task: Some(task), ..window }),
        window.with_sidebar(visible) == (WindowModel { sidebar_visible: visible, ..window }),
        window.folders_opened() == (WindowModel {
            sidebar_visible: window.workspaces.len() >= 2,
            ..window
        }),
        window.without_tasks() == (WindowModel {
            pending_removals: seq![],
            serialize_task: None,
            create_task: None,
            ..window
        }),
{
}

/// The next and the previous workspace are one place on and one place back,
/// around the ends.
pub proof fn neighbours_are_one_place_away(window: WindowModel)
    requires
        0 <= window.active < window.workspaces.len(),
    ensures
        window.active + 1 < window.workspaces.len() ==> window.next_index() == window.active + 1,
        window.active + 1 == window.workspaces.len() ==> window.next_index() == 0,
        window.active > 0 ==> window.previous_index() == window.active - 1,
        window.active == 0 ==> window.previous_index() == window.workspaces.len() - 1,
{
    let n = window.workspaces.len() as int;
    let a = window.active;
    if a + 1 < n {
        vstd::arithmetic::div_mod::lemma_small_mod((a + 1) as nat, n as nat);
    } else {
        vstd::arithmetic::div_mod::lemma_mod_self_0(n);
    }
    if a > 0 {
        vstd::arithmetic::div_mod::lemma_small_mod((a - 1) as nat, n as nat);
    } else {
        vstd::arithmetic::div_mod::lemma_small_mod((n - 1) as nat, n as nat);
        vstd::arithmetic::div_mod::lemma_mod_add_multiples_vanish(-1, n);
    }
}

/// A removal takes out the workspace at the index and its folder and keeps the
/// order of the others. The workspace that was active stays active, also as one
/// of several equal ones; where it is the one that goes, the one after it
/// follows, or the one before it where it was the last.
pub proof fn removing_takes_out_one_workspace(
    window: WindowModel,
    index: int,
    cx: ContextModel,
    i: int,
)
    requires
        0 <= window.active < window.workspaces.len(),
        window.expanded.len() == window.workspaces.len(),
        window.workspaces.len() > 1,
        0 <= index < window.workspaces.len(),
    ensures
        ({
            let after = window.removing(index, cx);
            let n = window.workspaces.len() as int;
            &&& after.workspaces.len() == n - 1 && after.expanded.len() == n - 1
            &&& 0 <= i < index ==> after.workspaces[i] == window.workspaces[i] && after.expanded[i]
                == window.expanded[i]
            &&& index < i < n ==> after.workspaces[i - 1] == window.workspaces[i]
                && after.expanded[i - 1] == window.expanded[i]
            &&& index < window.active ==> after.active == window.active - 1
            &&& index > window.active ==> after.active == window.active
            &&& index == window.active && index + 1 < n ==> after.active == index
            &&& index == window.active && index + 1 == n ==> after.active == index - 1
            &&& same_window(after, window)
            &&& after.create_task == window.create_task
        }),
{
}

/// A removal starts a task to delete the row of the workspace, if it has one,
/// and then one to write the state, and the window holds both; the deletions
/// that still run stay. It starts no other task.
pub proof fn removing_holds_the_tasks_it_starts(
    window: WindowModel,
    index: int,
    cx: ContextModel,
)
    requires
        window.workspaces.len() > 1,
        0 <= index < window.workspaces.len(),
    ensures
        ({
            let after = window.removing(index, cx);
            let row = cx.workspaces[window.workspaces[index].0].database_id;
            &&& row is None ==> {
                &&& after.pending_removals == window.pending_removals
                &&& after.serialize_task == Some(TaskId(cx.next_task as u64))
                &&& window.removal_tasks(index, cx) == 1
            }
            &&& row is Some ==> {
                &&& after.pending_removals == cx.unfinished(window.pending_removals).push(
                    TaskId(cx.next_task as u64),
                )
                &&& after.serialize_task == Some(TaskId((cx.next_task + 1) as u64))
                &&& window.removal_tasks(index, cx) == 2
            }
        }),
{
}

/// The only workspace of a window, and one that there is not, are not removed:
/// nothing happens.
pub proof fn nothing_is_removed_without_need(window: WindowModel, index: int, cx: ContextModel)
    requires
        window.workspaces.len() <= 1 || index < 0 || index >= window.workspaces.len(),
    ensures
        window.removing(index, cx) == window,
        window.removal_tasks(index, cx) == 0,
        window.removal_effects(index, cx).len() == 0,
{
}

/// A created workspace that found no row is removed from where it first is, as
/// by its index. Where it is gone, or no longer in the window, nothing happens
/// to the window.
pub proof fn a_failed_creation_removes_its_workspace(
    window: WindowModel,
    workspace: EntityId,
    index: int,
    cx: ContextModel,
)
    ensures
        0 <= index < window.workspaces.len() && window.workspaces[index] == workspace && (forall|
            j: int,
        |
            0 <= j < index ==> #[trigger] window.workspaces[j] != workspace) ==> {
            &&& window.removing_created(Some(workspace), cx) == window.removing(index, cx)
            &&& window.context_after_removing_created(Some(workspace), cx) == cx.after(
                window.removal_tasks(index, cx),
                window.removal_effects(index, cx),
            )
        },
        !window.workspaces.contains(workspace) ==> {
            &&& window.removing_created(Some(workspace), cx) == window
            &&& window.context_after_removing_created(Some(workspace), cx) == cx
        },
        window.removing_created(None, cx) == window,
        window.context_after_removing_created(None, cx) == cx,
{
    if 0 <= index < window.workspaces.len() && window.workspaces[index] == workspace && (forall|
        j: int,
    |
        0 <= j < index ==> #[trigger] window.workspaces[j] != workspace) {
        an_index_is_the_least(window, workspace, index);
    }
}

/// A row that was found is given to the created workspace and to no other, and
/// to none where the workspace is gone.
pub proof fn a_row_is_given_to_the_created_workspace(
    workspace: EntityId,
    workspace_id: WorkspaceId,
    cx: ContextModel,
)
    ensures
        WindowModel::context_with_row(Some(workspace), workspace_id, cx) == cx.with_database_id(
            workspace,
            workspace_id,
        ),
        WindowModel::context_with_row(None, workspace_id, cx) == cx,
{
}

/// A folder is expanded or collapsed alone, and one that there is not is left
/// alone. One of which nothing is known is expanded.
pub proof fn one_folder_is_toggled(window: WindowModel, index: int, other: int)
    ensures
        ({
            let after = window.with_folder_toggled(index);
            &&& after.expanded.len() == window.expanded.len()
            &&& 0 <= index < window.expanded.len() ==> after.expanded[index]
                != window.expanded[index]
            &&& other != index && 0 <= other < window.expanded.len() ==> after.expanded[other]
                == window.expanded[other]
            &&& !(0 <= index < window.expanded.len()) ==> after == window
            &&& after.workspaces == window.workspaces
            &&& after.active == window.active
            &&& same_window(after, window)
            &&& same_tasks(after, window)
        }),
        0 <= index < window.expanded.len() ==> window.folder_expanded(index)
            == window.expanded[index],
        !(0 <= index < window.expanded.len()) ==> window.folder_expanded(index),
{
}

/// The tasks of a window are the one that writes the state, then the one that
/// asks for a row, then the pending deletions in their order.
pub proof fn tasks_are_held_in_order(window: WindowModel, task: TaskId)
    ensures
        (WindowModel { serialize_task: None, create_task: None, ..window }).held_tasks()
            == window.pending_removals,
        (WindowModel { serialize_task: None, create_task: Some(task), ..window }).held_tasks()
            == seq![task] + window.pending_removals,
        (WindowModel { serialize_task: Some(task), ..window }).held_tasks() == seq![task] + (
        WindowModel { serialize_task: None, ..window }).held_tasks(),
        WindowModel::task_or_none(Some(task)) == seq![task],
        WindowModel::task_or_none(None) == Seq::<TaskId>::empty(),
{
    assert((WindowModel { serialize_task: None, create_task: None, ..window }).held_tasks()
        =~= window.pending_removals);
    assert((WindowModel { serialize_task: None, create_task: Some(task), ..window }).held_tasks()
        =~= seq![task] + window.pending_removals);
    assert((WindowModel { serialize_task: Some(task), ..window }).held_tasks() =~= seq![task] + (
    WindowModel { serialize_task: None, ..window }).held_tasks());
}

/// The workspace of the first folder becomes active, those of the others are
/// only added.
pub proof fn the_first_folder_becomes_active(window: WindowModel, workspace: EntityId)
    ensures
        window.with_folder(true, workspace) == window.with_active_workspace(workspace),
        window.with_folder(false, workspace) == window.with_workspace(workspace),
        window.with_folder(false, workspace).active == window.active,
{
}

} // verus!
