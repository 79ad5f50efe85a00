//! The workspaces of a window and which of them is active.

use vstd::prelude::*;

use crate::context::{ContextModel, Effect, MultiWorkspaceEvent};
use crate::ids::{EntityId, TaskId};
use crate::window_model::WindowModel;
use crate::workspace::{Dock, Workspace};

verus! {

// Positions

/// A workspace that is in a window has an index there.
pub proof fn workspace_has_index(window: WindowModel, workspace: EntityId)
    requires
        window.workspaces.contains(workspace),
    ensures
        WindowModel::first_at(window.workspaces, workspace, window.index_of(workspace)),
{
    window.workspaces.index_of_first_ensures(workspace);
    let i = window.workspaces.index_of_first(workspace)->0;
    assert(WindowModel::first_at(window.workspaces, workspace, i));
}

/// A workspace that is added to a window is the last.
pub proof fn added_workspace_is_last(window: WindowModel, workspace: EntityId)
    requires
        !window.workspaces.contains(workspace),
    ensures
        window.with_workspace(workspace).index_of(workspace) == window.workspaces.len(),
{
    let added = window.with_workspace(workspace);
    assert(WindowModel::first_at(added.workspaces, workspace, window.workspaces.len() as int));
}

// Moving from workspace to workspace

/// `after` has the workspaces of `before`, and the next one is active.
pub open spec fn is_next(before: WindowModel, after: WindowModel) -> bool {
    after.workspaces == before.workspaces && after.active == before.next_index()
}

/// `after` has the workspaces of `before`, and the previous one is active.
pub open spec fn is_previous(before: WindowModel, after: WindowModel) -> bool {
    after.workspaces == before.workspaces && after.active == before.previous_index()
}

/// Showing the next or the previous workspace is a step in that direction: so
/// it is where the window has several workspaces, and also where it has one and
/// stays as it is.
pub proof fn next_and_previous_are_steps(window: WindowModel, task: TaskId)
    requires
        window.wf(),
    ensures
        is_next(window, window.with_active(window.next_index()).saved_by(task)),
        is_previous(window, window.with_active(window.previous_index()).saved_by(task)),
        window.workspaces.len() == 1 ==> is_next(window, window) && is_previous(window, window),
{
}

/// Going to the next workspace and back again, or to the previous one and on
/// again, leads to the same workspace.
pub proof fn next_and_previous_are_inverse(
    start: WindowModel,
    between: WindowModel,
    end: WindowModel,
)
    requires
        start.wf(),
        is_next(start, between) && is_previous(between, end) || is_previous(start, between)
            && is_next(between, end),
    ensures
        end.active == start.active,
        end.active_workspace() == start.active_workspace(),
{
    let n = start.workspaces.len() as int;
    let a = start.active;
    if a + 1 < n {
        vstd::arithmetic::div_mod::lemma_small_mod((a + 1) as nat, n as nat);
    } else {
        vstd::arithmetic::div_mod::lemma_mod_self_0(n);
        vstd::arithmetic::div_mod::lemma_mod_add_multiples_vanish(-1, n);
    }
    vstd::arithmetic::div_mod::lemma_small_mod((n - 1) as nat, n as nat);
    vstd::arithmetic::div_mod::lemma_small_mod(a as nat, n as nat);
    if a == 0 {
        vstd::arithmetic::div_mod::lemma_mod_add_multiples_vanish(-1, n);
        vstd::arithmetic::div_mod::lemma_mod_self_0(n);
    } else {
        vstd::arithmetic::div_mod::lemma_small_mod((a - 1) as nat, n as nat);
    }
}

/// Each window of the chain is the one before it, one step on.
pub open spec fn chain_of_next(chain: Seq<WindowModel>) -> bool {
    forall|i: int, j: int|
        #![trigger chain[i], chain[j]]
        0 <= i && j == i + 1 && j < chain.len() ==> is_next(chain[i], chain[j])
}

/// Going to the next workspace `k` times moves `k` places on, around the end.
pub proof fn next_moves_one_place(chain: Seq<WindowModel>, k: int)
    requires
        chain_of_next(chain),
        0 <= k < chain.len(),
        chain[0].wf(),
    ensures
        chain[k].workspaces == chain[0].workspaces,
        chain[k].active == (chain[0].active + k) % (chain[0].workspaces.len() as int),
    decreases k,
{
    let start = chain[0];
    let n = start.workspaces.len() as int;
    if k == 0 {
        vstd::arithmetic::div_mod::lemma_small_mod(start.active as nat, n as nat);
    } else {
        next_moves_one_place(chain, k - 1);
        assert(is_next(chain[k - 1], chain[k]));
        vstd::arithmetic::div_mod::lemma_add_mod_noop(start.active + k - 1, 1, n);
        if n > 1 {
            vstd::arithmetic::div_mod::lemma_small_mod(1, n as nat);
        }
    }
}

/// The step after which `index` is active, of the steps once around.
pub open spec fn step_to(window: WindowModel, index: int) -> int {
    if index > window.active {
        index - window.active
    } else {
        index - window.active + window.workspaces.len()
    }
}

/// Going once around, with as many steps as there are workspaces, shows each
/// workspace after exactly one of the steps, and ends where it began.
pub proof fn next_shows_every_workspace_once(chain: Seq<WindowModel>, index: int, k: int)
    requires
        chain_of_next(chain),
        chain.len() == chain[0].workspaces.len() + 1,
        chain[0].wf(),
        0 <= index < chain[0].workspaces.len(),
        1 <= k <= chain[0].workspaces.len(),
    ensures
        1 <= step_to(chain[0], index) <= chain[0].workspaces.len(),
        chain[k].active == index <==> k == step_to(chain[0], index),
        chain.last().active == chain[0].active,
        chain.last().active_workspace() == chain[0].active_workspace(),
{
    let start = chain[0];
    let n = start.workspaces.len() as int;
    next_moves_one_place(chain, k);
    if start.active + k < n {
        vstd::arithmetic::div_mod::lemma_small_mod((start.active + k) as nat, n as nat);
    } else {
        vstd::arithmetic::div_mod::lemma_small_mod((start.active + k - n) as nat, n as nat);
        vstd::arithmetic::div_mod::lemma_mod_add_multiples_vanish(start.active + k - n, n);
    }
    next_moves_one_place(chain, n);
    vstd::arithmetic::div_mod::lemma_small_mod(start.active as nat, n as nat);
    vstd::arithmetic::div_mod::lemma_mod_add_multiples_vanish(start.active, n);
}

// Adding, activating and removing

/// Adding a workspace keeps all others, their order and the active one, and
/// adding it a second time changes nothing.
pub proof fn adding_keeps_the_rest(window: WindowModel, workspace: EntityId)
    requires
        window.wf(),
    ensures
        window.with_workspace(workspace).wf(),
        window.with_workspace(workspace).workspaces.contains(workspace),
        window.workspaces.is_prefix_of(window.with_workspace(workspace).workspaces),
        window.expanded.is_prefix_of(window.with_workspace(workspace).expanded),
        window.with_workspace(workspace).active_workspace() == window.active_workspace(),
        window.with_workspace(workspace).with_workspace(workspace) == window.with_workspace(
            workspace,
        ),
        window.with_workspace(workspace).add_effects(workspace) == Seq::<Effect>::empty(),
{
    let added = window.with_workspace(workspace);
    if !window.workspaces.contains(workspace) {
        assert(added.workspaces.last() == workspace);
    }
}

/// Removing a workspace that was just added leads back to the window as it was,
/// but for the tasks that it holds.
pub proof fn removing_undoes_adding(window: WindowModel, workspace: EntityId, cx: ContextModel)
    requires
        window.wf(),
        !window.workspaces.contains(workspace),
    ensures
        window.with_workspace(workspace).removable(
            window.with_workspace(workspace).index_of(workspace),
        ),
        window.with_workspace(workspace).removing(
            window.with_workspace(workspace).index_of(workspace),
            cx,
        ).without_tasks() == window.without_tasks(),
{
    added_workspace_is_last(window, workspace);
    let added = window.with_workspace(workspace);
    let n = window.workspaces.len() as int;
    assert(added.without(n).workspaces =~= window.workspaces);
    assert(added.without(n).expanded =~= window.expanded);
}

/// Removing a workspace keeps the active one, unless that is the one removed:
/// then the next one becomes active, or the one before where there is no next.
pub proof fn removing_keeps_the_active_workspace(
    window: WindowModel,
    index: int,
    cx: ContextModel,
)
    requires
        window.wf(),
        window.removable(index),
    ensures
        window.removing(index, cx).wf(),
        index != window.active ==> window.removing(index, cx).active_workspace()
            == window.active_workspace(),
        index == window.active && index + 1 < window.workspaces.len() ==> window.removing(
            index,
            cx,
        ).active_workspace() == window.workspaces[index + 1],
        index == window.active && index + 1 == window.workspaces.len() ==> window.removing(
            index,
            cx,
        ).active_workspace() == window.workspaces[index - 1],
{
}

/// The last workspace of a window cannot be removed.
pub proof fn the_last_workspace_stays(window: WindowModel, index: int, cx: ContextModel)
    requires
        window.workspaces.len() == 1,
    ensures
        window.removing(index, cx) == window,
        window.removal_effects(index, cx) == Seq::<Effect>::empty(),
{
}

/// Showing a workspace that is already shown changes nothing: the window is
/// only drawn again.
pub proof fn activating_twice_is_activating_once(
    window: WindowModel,
    workspace: EntityId,
    cx: ContextModel,
    later: ContextModel,
)
    requires
        window.wf(),
        cx.multi_workspace_enabled(),
        later.multi_workspace_enabled(),
    ensures
        window.activating(workspace, cx).activating(workspace, later) == window.activating(
            workspace,
            cx,
        ),
        window.activating(workspace, cx).activation_effects(workspace, later) == seq![
            Effect::Notify,
        ],
{
    let once = window.activating(workspace, cx);
    adding_keeps_the_rest(window, workspace);
    workspace_has_index(window.with_workspace(workspace), workspace);
    let shown = window.with_active_workspace(workspace);
    if shown.active == window.active && !window.workspaces.contains(workspace) {
        added_workspace_is_last(window, workspace);
    }
    assert(once.workspaces == shown.workspaces);
    assert(once.index_of(workspace) == shown.active);
}

/// Where a window may hold one workspace only, it goes on holding one: the
/// workspace that is shown takes the place of the other.
pub proof fn a_sole_workspace_is_replaced(
    window: WindowModel,
    workspace: EntityId,
    cx: ContextModel,
)
    requires
        window.wf(),
        window.workspaces.len() == 1,
        !cx.multi_workspace_enabled(),
    ensures
        window.activating(workspace, cx).workspaces == seq![workspace],
        window.activating(workspace, cx).active == 0,
{
    assert(window.workspaces.update(0, workspace) =~= seq![workspace]);
}

// What is announced

/// A workspace is announced as added if it was not there before, and as removed
/// if it goes; a change of the active workspace is announced if its index
/// changes, and at every removal.
pub proof fn announcements_are_true(
    window: WindowModel,
    workspace: EntityId,
    index: int,
    cx: ContextModel,
)
    requires
        window.wf(),
    ensures
        window.add_effects(workspace).contains(
            Effect::Emit(MultiWorkspaceEvent::WorkspaceAdded(workspace)),
        ) <==> !window.workspaces.contains(workspace),
        window.set_active_effects(workspace).contains(
            Effect::Emit(MultiWorkspaceEvent::ActiveWorkspaceChanged),
        ) <==> window.with_active_workspace(workspace).active != window.active,
        window.activate_index_effects(index, cx).contains(
            Effect::Emit(MultiWorkspaceEvent::ActiveWorkspaceChanged),
        ) <==> index != window.active,
        window.removal_effects(index, cx).contains(
            Effect::Emit(MultiWorkspaceEvent::WorkspaceRemoved(workspace)),
        ) <==> window.removable(index) && window.workspaces[index] == workspace,
        window.removal_effects(index, cx).contains(
            Effect::Emit(MultiWorkspaceEvent::ActiveWorkspaceChanged),
        ) <==> window.removable(index),
{
    let changed = Effect::Emit(MultiWorkspaceEvent::ActiveWorkspaceChanged);
    let added = window.add_effects(workspace);
    let add = Effect::Emit(MultiWorkspaceEvent::WorkspaceAdded(workspace));
    if !window.workspaces.contains(workspace) {
        assert(added[1] == add);
    }
    let shown = window.with_active_workspace(workspace).active;
    let setting = window.set_active_effects(workspace);
    if shown != window.active {
        assert(setting[added.len() as int] == changed);
    }
    let moving = window.activate_index_effects(index, cx);
    if index != window.active {
        assert(moving[moving.len() - 2] == changed);
    }
    let removing = window.removal_effects(index, cx);
    if window.removable(index) {
        let n = removing.len() as int;
        let remove = Effect::Emit(MultiWorkspaceEvent::WorkspaceRemoved(window.workspaces[index]));
        assert(removing[n - 3] == remove);
        assert(removing[n - 2] == changed);
        let record = window.record_at(index, cx);
        let deletion = window.delete_effects(record, cx);
        assert forall|i: int| 0 <= i < n && i != n - 3 implies #[trigger] removing[i]
            != Effect::Emit(MultiWorkspaceEvent::WorkspaceRemoved(workspace)) by {
            if i < deletion.len() {
                assert(removing[i] == deletion[i]);
            }
        }
    }
}

/// The focus of a workspace goes to a zoomed panel whenever a dock shows one,
/// and to its active pane only where none does.
pub proof fn focus_prefers_a_zoomed_panel(workspace: Workspace)
    ensures
        (exists|i: int|
            0 <= i < workspace.docks@.len() && (
            #[trigger] workspace.docks@[i]).shows_zoomed_panel()) ==> exists|i: int| #[trigger]
            Workspace::first_zoomed_at(workspace.docks@, i) && workspace.focus_target()
                == workspace.docks@[i].active_panel->0.focus_handle,
        (forall|i: int|
            0 <= i < workspace.docks@.len() ==> !(
            #[trigger] workspace.docks@[i]).shows_zoomed_panel()) ==> workspace.focus_target()
            == workspace.active_pane,
{
    let docks = workspace.docks@;
    if exists|i: int| 0 <= i < docks.len() && (#[trigger] docks[i]).shows_zoomed_panel() {
        let i = choose|i: int|
            0 <= i < docks.len() && (#[trigger] docks[i]).shows_zoomed_panel();
        first_zoomed_dock_exists(docks, i);
        let first = choose|first: int| Workspace::first_zoomed_at(docks, first);
        assert(Workspace::first_zoomed_at(docks, first));
    }
}

proof fn first_zoomed_dock_exists(docks: Seq<Dock>, i: int)
    requires
        0 <= i < docks.len(),
        docks[i].shows_zoomed_panel(),
    ensures
        exists|first: int| Workspace::first_zoomed_at(docks, first),
    decreases i,
{
    if forall|j: int| 0 <= j < i ==> !(#[trigger] docks[j]).shows_zoomed_panel() {
        assert(Workspace::first_zoomed_at(docks, i));
    } else {
        let j = choose|j: int| 0 <= j < i && (#[trigger] docks[j]).shows_zoomed_panel();
        first_zoomed_dock_exists(docks, j);
    }
}

// No workspace twice

/// No workspace is in the window twice.
pub open spec fn distinct(window: WindowModel) -> bool {
    window.workspaces.no_duplicates()
}

/// Adding, activating, removing and creating never put a workspace into a
/// window twice.
pub proof fn workspaces_stay_distinct(
    window: WindowModel,
    workspace: EntityId,
    index: int,
    cx: ContextModel,
)
    requires
        window.wf(),
        distinct(window),
    ensures
        distinct(window.with_workspace(workspace)),
        distinct(window.with_active_workspace(workspace)),
        distinct(window.removing(index, cx)),
        distinct(window.removing_created(Some(workspace), cx)),
        cx.multi_workspace_enabled() ==> distinct(window.activating(workspace, cx)),
{
    if !window.workspaces.contains(workspace) {
        let added = window.workspaces.push(workspace);
        assert forall|i: int, j: int|
            0 <= i < added.len() && 0 <= j < added.len() && i != j implies added[i]
            != added[j] by {
            if i == window.workspaces.len() {
                assert(window.workspaces.contains(window.workspaces[j]));
            }
            if j == window.workspaces.len() {
                assert(window.workspaces.contains(window.workspaces[i]));
            }
        }
    }
}

/// Where a window may hold one workspace only, showing a workspace does not
/// put it there twice either, unless it is already there in another place than
/// the first.
pub proof fn replacing_keeps_workspaces_distinct(
    window: WindowModel,
    workspace: EntityId,
    cx: ContextModel,
)
    requires
        window.wf(),
        distinct(window),
        !cx.multi_workspace_enabled(),
        !window.workspaces.skip(1).contains(workspace),
    ensures
        distinct(window.activating(workspace, cx)),
{
    let replaced = window.workspaces.update(0, workspace);
    assert forall|i: int, j: int|
        0 <= i < replaced.len() && 0 <= j < replaced.len() && i != j implies replaced[i]
        != replaced[j] by {
        if i == 0 {
            assert(window.workspaces.skip(1)[j - 1] == window.workspaces[j]);
        }
        if j == 0 {
            assert(window.workspaces.skip(1)[i - 1] == window.workspaces[i]);
        }
    }
}

} // verus!
