//! The tasks that a window holds, and the state that it writes.

use vstd::prelude::*;

use crate::context::{ContextModel, Effect, Job, MultiWorkspaceState};
use crate::ids::{EntityId, TaskId, WorkspaceId};
use crate::window_model::WindowModel;

verus! {

// What a filter keeps

proof fn filter_keeps_what_fits<A>(s: Seq<A>, pred: spec_fn(A) -> bool, x: A)
    ensures
        s.filter(pred).contains(x) <==> s.contains(x) && pred(x),
    decreases s.len(),
{
    reveal(Seq::filter);
    if s.len() > 0 {
        let rest = s.drop_last();
        filter_keeps_what_fits(rest, pred, x);
        assert(s =~= rest.push(s.last()));
        contains_after_push(rest, s.last(), x);
        contains_after_push(rest.filter(pred), s.last(), x);
    }
}

proof fn contains_after_push<A>(s: Seq<A>, last: A, x: A)
    ensures
        s.push(last).contains(x) <==> s.contains(x) || x == last,
{
    if s.contains(x) {
        let i = choose|i: int| 0 <= i < s.len() && s[i] == x;
        assert(s.push(last)[i] == x);
    }
    assert(s.push(last)[s.len() as int] == last);
    if s.push(last).contains(x) && x != last {
        let i = choose|i: int| 0 <= i < s.push(last).len() && s.push(last)[i] == x;
        assert(s[i] == x);
    }
}

proof fn contains_after_add<A>(a: Seq<A>, b: Seq<A>, x: A)
    ensures
        (a + b).contains(x) <==> a.contains(x) || b.contains(x),
{
    if a.contains(x) {
        let i = choose|i: int| 0 <= i < a.len() && a[i] == x;
        assert((a + b)[i] == x);
    }
    if b.contains(x) {
        let i = choose|i: int| 0 <= i < b.len() && b[i] == x;
        assert((a + b)[a.len() + i] == x);
    }
    if (a + b).contains(x) {
        let i = choose|i: int| 0 <= i < (a + b).len() && (a + b)[i] == x;
        if i < a.len() {
            assert(a[i] == x);
        } else {
            assert(b[i - a.len()] == x);
        }
    }
}

proof fn filter_keeps_distinct<A>(s: Seq<A>, pred: spec_fn(A) -> bool)
    requires
        s.no_duplicates(),
    ensures
        s.filter(pred).no_duplicates(),
    decreases s.len(),
{
    reveal(Seq::filter);
    if s.len() > 0 {
        let rest = s.drop_last();
        filter_keeps_distinct(rest, pred);
        filter_keeps_what_fits(rest, pred, s.last());
        assert(!rest.contains(s.last())) by {
            if rest.contains(s.last()) {
                let i = choose|i: int| 0 <= i < rest.len() && rest[i] == s.last();
                assert(s[i] == s[s.len() - 1]);
            }
        }
        push_keeps_distinct(rest.filter(pred), s.last());
    }
}

proof fn push_keeps_distinct<A>(s: Seq<A>, x: A)
    requires
        s.no_duplicates(),
        !s.contains(x),
    ensures
        s.push(x).no_duplicates(),
{
    let pushed = s.push(x);
    assert forall|i: int, j: int|
        0 <= i < pushed.len() && 0 <= j < pushed.len() && i != j implies pushed[i]
        != pushed[j] by {
        if i < s.len() {
            assert(s.contains(s[i]));
        }
        if j < s.len() {
            assert(s.contains(s[j]));
        }
    }
}

/// Giving up finished tasks gives up exactly these.
proof fn drop_finished_drops_the_finished(cx: ContextModel, tasks: Seq<TaskId>, task: TaskId)
    ensures
        cx.drop_finished(tasks).contains(Effect::DropTask(task)) <==> tasks.contains(task)
            && cx.is_ready(task),
{
    let ready = |task: TaskId| cx.is_ready(task);
    let finished = tasks.filter(ready);
    filter_keeps_what_fits(tasks, ready, task);
    let effects = cx.drop_finished(tasks);
    if finished.contains(task) {
        let i = choose|i: int| 0 <= i < finished.len() && finished[i] == task;
        assert(effects[i] == Effect::DropTask(task));
    }
    if effects.contains(Effect::DropTask(task)) {
        let i = choose|i: int| 0 <= i < effects.len() && effects[i] == Effect::DropTask(task);
        assert(finished[i] == task);
    }
}

// Deletions

/// A deletion that still runs is not given up when another workspace is
/// removed: it stays pending.
pub proof fn running_deletions_stay_pending(
    window: WindowModel,
    index: int,
    cx: ContextModel,
    task: TaskId,
)
    requires
        window.pending_removals.contains(task),
        !cx.is_ready(task),
    ensures
        window.removing(index, cx).pending_removals.contains(task),
{
    filter_keeps_what_fits(window.pending_removals, |task: TaskId| !cx.is_ready(task), task);
    contains_after_push(cx.unfinished(window.pending_removals), cx.task(0), task);
}

/// Where a workspace with a row is removed, its row is deleted, and the window
/// holds the task that does it.
pub proof fn a_removed_workspace_loses_its_row(
    window: WindowModel,
    index: int,
    cx: ContextModel,
    workspace_id: WorkspaceId,
)
    requires
        window.removable(index),
        window.record_at(index, cx) == Some(workspace_id),
    ensures
        window.removing(index, cx).pending_removals.contains(cx.task(0)),
        window.removal_effects(index, cx).contains(
            Effect::Spawn { task: cx.task(0), job: Job::DeleteWorkspace { workspace_id } },
        ),
{
    let record = Some(workspace_id);
    contains_after_push(cx.unfinished(window.pending_removals), cx.task(0), cx.task(0));
    let delete = Effect::Spawn { task: cx.task(0), job: Job::DeleteWorkspace { workspace_id } };
    let deletion = window.delete_effects(record, cx);
    assert(deletion.last() == delete);
    let effects = window.removal_effects(index, cx);
    assert(effects[deletion.len() - 1] == delete);
}

// No task is lost

/// Each task that the window held, it still holds or has given up.
pub open spec fn no_task_is_lost(
    before: WindowModel,
    after: WindowModel,
    effects: Seq<Effect>,
) -> bool {
    forall|task: TaskId| #[trigger]
        before.held_tasks().contains(task) ==> after.held_tasks().contains(task)
            || effects.contains(Effect::DropTask(task))
}

/// What the tasks of a window are.
proof fn held_tasks_contain(window: WindowModel, task: TaskId)
    ensures
        window.held_tasks().contains(task) <==> window.serialize_task == Some(task)
            || window.create_task == Some(task) || window.pending_removals.contains(task),
{
    let serialize = WindowModel::task_or_none(window.serialize_task);
    let create = WindowModel::task_or_none(window.create_task);
    contains_after_add(serialize + create, window.pending_removals, task);
    contains_after_add(serialize, create, task);
    one_task_contains(window.serialize_task, task);
    one_task_contains(window.create_task, task);
}

proof fn one_task_contains(held: Option<TaskId>, task: TaskId)
    ensures
        WindowModel::task_or_none(held).contains(task) <==> held == Some(task),
{
    if held == Some(task) {
        assert(WindowModel::task_or_none(held)[0] == task);
    }
}

proof fn dropped_contains(held: Option<TaskId>, task: TaskId)
    ensures
        crate::context::dropped(held).contains(Effect::DropTask(task)) <==> held == Some(task),
{
    if held == Some(task) {
        assert(crate::context::dropped(held)[0] == Effect::DropTask(task));
    }
}

/// Writing the state gives up the write before it and nothing else.
proof fn save_effects_contain(window: WindowModel, cx: ContextModel, by: TaskId, task: TaskId)
    ensures
        window.save_effects(cx, by).contains(Effect::DropTask(task)) <==> window.serialize_task
            == Some(task),
{
    let dropped = crate::context::dropped(window.serialize_task);
    let effects = window.save_effects(cx, by);
    let spawn = seq![effects[0]];
    assert(effects =~= spawn + dropped);
    contains_after_add(spawn, dropped, Effect::DropTask(task));
    dropped_contains(window.serialize_task, task);
}

/// Removing a workspace loses no task, and gives up only deletions that are
/// finished and the write that the new one replaces.
pub proof fn removing_loses_no_task(window: WindowModel, index: int, cx: ContextModel)
    ensures
        no_task_is_lost(
            window,
            window.removing(index, cx),
            window.removal_effects(index, cx),
        ),
        forall|task: TaskId| #[trigger]
            window.removal_effects(index, cx).contains(Effect::DropTask(task))
                ==> window.serialize_task == Some(task) || window.pending_removals.contains(task)
                && cx.is_ready(task),
{
    let after = window.removing(index, cx);
    let effects = window.removal_effects(index, cx);
    if window.removable(index) {
        let record = window.record_at(index, cx);
        let by = cx.task(WindowModel::delete_tasks(record));
        let deletion = window.delete_effects(record, cx);
        let saving = window.without(index).save_effects(cx, by);
        let rest = effects.skip((deletion + saving).len() as int);
        assert(effects =~= deletion + saving + rest);
        assert(rest.len() == 4);
        assert forall|task: TaskId|
            #![trigger effects.contains(Effect::DropTask(task))]
            #![trigger window.held_tasks().contains(task)]
            {
                &&& window.held_tasks().contains(task) ==> after.held_tasks().contains(task)
                    || effects.contains(Effect::DropTask(task))
                &&& effects.contains(Effect::DropTask(task)) ==> window.serialize_task == Some(
                    task,
                ) || window.pending_removals.contains(task) && cx.is_ready(task)
            } by {
            let give_up = Effect::DropTask(task);
            contains_after_add(deletion + saving, rest, give_up);
            contains_after_add(deletion, saving, give_up);
            assert(!rest.contains(give_up));
            save_effects_contain(window.without(index), cx, by, task);
            held_tasks_contain(window, task);
            held_tasks_contain(after, task);
            if record is Some {
                drop_finished_drops_the_finished(cx, window.pending_removals, task);
                contains_after_push(
                    cx.drop_finished(window.pending_removals),
                    deletion.last(),
                    give_up,
                );
                filter_keeps_what_fits(
                    window.pending_removals,
                    |task: TaskId| !cx.is_ready(task),
                    task,
                );
                contains_after_push(cx.unfinished(window.pending_removals), cx.task(0), task);
            }
        }
    }
}

/// Activating a workspace loses no task.
pub proof fn activating_loses_no_task(window: WindowModel, workspace: EntityId, cx: ContextModel)
    ensures
        no_task_is_lost(
            window,
            window.activating(workspace, cx),
            window.activation_effects(workspace, cx),
        ),
{
    let after = window.activating(workspace, cx);
    let effects = window.activation_effects(workspace, cx);
    let shown = window.with_active_workspace(workspace);
    assert forall|task: TaskId| #[trigger]
        window.held_tasks().contains(task) implies after.held_tasks().contains(task)
        || effects.contains(Effect::DropTask(task)) by {
        held_tasks_contain(window, task);
        held_tasks_contain(after, task);
        if cx.multi_workspace_enabled() && shown.active != window.active {
            save_effects_contain(shown, cx, cx.task(0), task);
            contains_after_add(
                window.set_active_effects(workspace),
                shown.save_effects(cx, cx.task(0)),
                Effect::DropTask(task),
            );
        }
    }
}

/// Activating an index loses no task.
pub proof fn activating_an_index_loses_no_task(window: WindowModel, index: int, cx: ContextModel)
    ensures
        no_task_is_lost(
            window,
            window.with_active(index).saved_by(cx.task(0)),
            window.activate_index_effects(index, cx),
        ),
{
    let moved = window.with_active(index);
    let after = moved.saved_by(cx.task(0));
    let saving = moved.save_effects(cx, cx.task(0));
    let focusing = moved.focus_effects(cx);
    let effects = window.activate_index_effects(index, cx);
    assert forall|task: TaskId| #[trigger]
        window.held_tasks().contains(task) implies after.held_tasks().contains(task)
        || effects.contains(Effect::DropTask(task)) by {
        held_tasks_contain(window, task);
        held_tasks_contain(after, task);
        save_effects_contain(moved, cx, cx.task(0), task);
        contains_after_add(saving + focusing, window.change_effects(index), Effect::DropTask(task));
        contains_after_add(saving, focusing, Effect::DropTask(task));
    }
}

/// Creating a workspace loses no task.
pub proof fn creating_loses_no_task(window: WindowModel, workspace: EntityId, cx: ContextModel)
    ensures
        no_task_is_lost(
            window,
            (WindowModel {
                create_task: Some(cx.task(0)),
                ..window.with_active_workspace(workspace)
            }),
            window.create_effects(workspace, cx),
        ),
{
    let after = WindowModel {
        create_task: Some(cx.task(0)),
        ..window.with_active_workspace(workspace)
    };
    let effects = window.create_effects(workspace, cx);
    let dropped = crate::context::dropped(window.create_task);
    let first = effects.take(effects.len() - dropped.len());
    assert(effects =~= first + dropped);
    assert forall|task: TaskId| #[trigger]
        window.held_tasks().contains(task) implies after.held_tasks().contains(task)
        || effects.contains(Effect::DropTask(task)) by {
        held_tasks_contain(window, task);
        held_tasks_contain(after, task);
        dropped_contains(window.create_task, task);
        contains_after_add(first, dropped, Effect::DropTask(task));
    }
}

/// Finding a row for a created workspace loses no task.
pub proof fn finding_a_row_loses_no_task(
    window: WindowModel,
    workspace: Option<EntityId>,
    workspace_id: WorkspaceId,
    cx: ContextModel,
)
    ensures
        no_task_is_lost(
            window,
            window.saved_by(cx.task(1)),
            window.row_effects(workspace, workspace_id, cx),
        ),
{
    let after = window.saved_by(cx.task(1));
    let effects = window.row_effects(workspace, workspace_id, cx);
    let named = WindowModel::context_with_row(workspace, workspace_id, cx);
    let saving = window.save_effects(named, cx.task(1));
    let first = effects.take(effects.len() - saving.len());
    assert(effects =~= first + saving);
    assert forall|task: TaskId| #[trigger]
        window.held_tasks().contains(task) implies after.held_tasks().contains(task)
        || effects.contains(Effect::DropTask(task)) by {
        held_tasks_contain(window, task);
        held_tasks_contain(after, task);
        save_effects_contain(window, named, cx.task(1), task);
        contains_after_add(first, saving, Effect::DropTask(task));
    }
}

// No started task goes astray

/// Each task that was started, the window holds or lets run by itself.
pub open spec fn started_tasks_are_kept(after: WindowModel, effects: Seq<Effect>) -> bool {
    forall|task: TaskId, job: Job| #[trigger]
        effects.contains(Effect::Spawn { task, job }) ==> after.held_tasks().contains(task)
            || effects.contains(Effect::DetachTask(task))
}

/// Every task that an operation starts is held by the window afterwards, but
/// for those that bind or delete the row of a created workspace, which run by
/// themselves.
pub proof fn no_started_task_goes_astray(
    window: WindowModel,
    workspace: EntityId,
    found_for: Option<EntityId>,
    workspace_id: WorkspaceId,
    index: int,
    cx: ContextModel,
)
    ensures
        started_tasks_are_kept(window.removing(index, cx), window.removal_effects(index, cx)),
        started_tasks_are_kept(
            window.activating(workspace, cx),
            window.activation_effects(workspace, cx),
        ),
        started_tasks_are_kept(
            window.with_active(index).saved_by(cx.task(0)),
            window.activate_index_effects(index, cx),
        ),
        started_tasks_are_kept(
            (WindowModel {
                create_task: Some(cx.task(0)),
                ..window.with_active_workspace(workspace)
            }),
            window.create_effects(workspace, cx),
        ),
        started_tasks_are_kept(
            window.saved_by(cx.task(1)),
            window.row_effects(found_for, workspace_id, cx),
        ),
{
    removing_keeps_started_tasks(window, index, cx);
    let activated = window.activating(workspace, cx);
    assert forall|task: TaskId, job: Job| #[trigger]
        window.activation_effects(workspace, cx).contains(
            Effect::Spawn { task, job },
        ) implies activated.held_tasks().contains(task) by {
        held_tasks_contain(activated, task);
    }
    let moved = window.with_active(index).saved_by(cx.task(0));
    assert forall|task: TaskId, job: Job| #[trigger]
        window.activate_index_effects(index, cx).contains(
            Effect::Spawn { task, job },
        ) implies moved.held_tasks().contains(task) by {
        held_tasks_contain(moved, task);
    }
    let created = WindowModel {
        create_task: Some(cx.task(0)),
        ..window.with_active_workspace(workspace)
    };
    assert forall|task: TaskId, job: Job| #[trigger]
        window.create_effects(workspace, cx).contains(
            Effect::Spawn { task, job },
        ) implies created.held_tasks().contains(task) by {
        held_tasks_contain(created, task);
    }
    let saved = window.saved_by(cx.task(1));
    let effects = window.row_effects(found_for, workspace_id, cx);
    let detach = Effect::DetachTask(cx.task(0));
    assert(effects.contains(detach)) by {
        if found_for is Some {
            assert(effects[2] == detach);
        } else {
            assert(effects[1] == detach);
        }
    }
    assert forall|task: TaskId, job: Job| #[trigger]
        effects.contains(Effect::Spawn { task, job }) implies saved.held_tasks().contains(task)
        || effects.contains(Effect::DetachTask(task)) by {
        held_tasks_contain(saved, task);
    }
}

proof fn removing_keeps_started_tasks(window: WindowModel, index: int, cx: ContextModel)
    ensures
        started_tasks_are_kept(window.removing(index, cx), window.removal_effects(index, cx)),
{
    let removed = window.removing(index, cx);
    let effects = window.removal_effects(index, cx);
    if window.removable(index) {
        let record = window.record_at(index, cx);
        let deletion = window.delete_effects(record, cx);
        assert forall|task: TaskId, job: Job| #[trigger]
            effects.contains(Effect::Spawn { task, job }) implies removed.held_tasks().contains(
            task,
        ) by {
            held_tasks_contain(removed, task);
            contains_after_push(cx.unfinished(window.pending_removals), cx.task(0), cx.task(0));
            let rest = effects.skip(deletion.len() as int);
            assert(effects =~= deletion + rest);
            contains_after_add(deletion, rest, Effect::Spawn { task, job });
        }
    }
}

// No task is held twice

/// The window holds no task twice, and only tasks that were started.
pub open spec fn tasks_are_distinct(window: WindowModel, cx: ContextModel) -> bool {
    &&& window.held_tasks().no_duplicates()
    &&& forall|task: TaskId| #[trigger]
        window.held_tasks().contains(task) ==> task.0 < cx.next_task
}

/// The same, said of each place where the window holds tasks.
proof fn tasks_are_distinct_by_place(window: WindowModel, cx: ContextModel)
    ensures
        tasks_are_distinct(window, cx) <==> {
            &&& window.pending_removals.no_duplicates()
            &&& forall|task: TaskId| #[trigger]
                window.pending_removals.contains(task) ==> task.0 < cx.next_task
                    && window.serialize_task != Some(task) && window.create_task != Some(task)
            &&& window.serialize_task is Some ==> (window.serialize_task->0).0 < cx.next_task
            &&& window.create_task is Some ==> (window.create_task->0).0 < cx.next_task
            &&& window.serialize_task is Some ==> window.serialize_task != window.create_task
        },
{
    let held = window.held_tasks();
    let pending = window.pending_removals;
    let serialize = WindowModel::task_or_none(window.serialize_task);
    let create = WindowModel::task_or_none(window.create_task);
    let ahead = (serialize + create).len() as int;
    assert forall|task: TaskId|
        #![trigger held.contains(task)]
        #![trigger pending.contains(task)]
        held.contains(task) <==> window.serialize_task == Some(task) || window.create_task == Some(
            task,
        ) || pending.contains(task) by {
        held_tasks_contain(window, task);
    }
    if tasks_are_distinct(window, cx) {
        assert forall|i: int, j: int|
            0 <= i < pending.len() && 0 <= j < pending.len() && i != j implies pending[i]
            != pending[j] by {
            assert(held[ahead + i] == pending[i] && held[ahead + j] == pending[j]);
        }
        assert forall|task: TaskId| #[trigger] pending.contains(task) implies task.0 < cx.next_task
            && window.serialize_task != Some(task) && window.create_task != Some(task) by {
            let i = choose|i: int| 0 <= i < pending.len() && pending[i] == task;
            assert(held[ahead + i] == task);
            assert(held.contains(task));
            if window.serialize_task == Some(task) {
                assert(held[0] == task);
            }
            if window.create_task == Some(task) {
                assert(held[ahead - 1] == task);
            }
        }
        if window.serialize_task is Some {
            assert(held[0] == window.serialize_task->0);
            assert(held.contains(held[0]));
        }
        if window.create_task is Some {
            assert(held[ahead - 1] == window.create_task->0);
            assert(held.contains(held[ahead - 1]));
        }
    }
    if pending.no_duplicates() && (forall|task: TaskId| #[trigger]
        pending.contains(task) ==> window.serialize_task != Some(task) && window.create_task
            != Some(task)) && (window.serialize_task is Some ==> window.serialize_task
        != window.create_task) {
        assert forall|i: int, j: int|
            0 <= i < held.len() && 0 <= j < held.len() && i != j implies held[i] != held[j] by {
            if i >= ahead {
                assert(pending.contains(pending[i - ahead]));
            }
            if j >= ahead {
                assert(pending.contains(pending[j - ahead]));
            }
        }
    }
}

/// Removing, activating and creating keep the tasks of a window distinct.
pub proof fn tasks_stay_distinct(
    window: WindowModel,
    workspace: EntityId,
    found_for: Option<EntityId>,
    workspace_id: WorkspaceId,
    index: int,
    cx: ContextModel,
)
    requires
        tasks_are_distinct(window, cx),
        0 <= cx.next_task,
        cx.can_spawn(2),
    ensures
        tasks_are_distinct(
            window.removing(index, cx),
            cx.after(window.removal_tasks(index, cx), window.removal_effects(index, cx)),
        ),
        tasks_are_distinct(
            window.activating(workspace, cx),
            cx.after(
                window.activation_tasks(workspace, cx),
                window.activation_effects(workspace, cx),
            ),
        ),
        tasks_are_distinct(
            window.with_active(index).saved_by(cx.task(0)),
            cx.after(1, window.activate_index_effects(index, cx)),
        ),
        tasks_are_distinct(
            (WindowModel {
                create_task: Some(cx.task(0)),
                ..window.with_active_workspace(workspace)
            }),
            cx.after(1, window.create_effects(workspace, cx)),
        ),
        tasks_are_distinct(
            window.saved_by(cx.task(1)),
            WindowModel::context_with_row(found_for, workspace_id, cx).after(
                2,
                window.row_effects(found_for, workspace_id, cx),
            ),
        ),
{
    tasks_are_distinct_by_place(
        window.saved_by(cx.task(1)),
        WindowModel::context_with_row(found_for, workspace_id, cx).after(
            2,
            window.row_effects(found_for, workspace_id, cx),
        ),
    );
    tasks_are_distinct_by_place(window, cx);
    let unready = |task: TaskId| !cx.is_ready(task);
    filter_keeps_distinct(window.pending_removals, unready);
    assert forall|task: TaskId| #[trigger]
        window.pending_removals.filter(unready).contains(
            task,
        ) implies window.pending_removals.contains(task) by {
        filter_keeps_what_fits(window.pending_removals, unready, task);
    }
    push_keeps_distinct(cx.unfinished(window.pending_removals), cx.task(0));
    let removed = window.removing(index, cx);
    assert forall|task: TaskId| #[trigger]
        removed.pending_removals.contains(task) implies window.pending_removals.contains(task)
        || task == cx.task(0) by {
        contains_after_push(cx.unfinished(window.pending_removals), cx.task(0), task);
    }
    tasks_are_distinct_by_place(
        removed,
        cx.after(window.removal_tasks(index, cx), window.removal_effects(index, cx)),
    );
    tasks_are_distinct_by_place(
        window.activating(workspace, cx),
        cx.after(window.activation_tasks(workspace, cx), window.activation_effects(workspace, cx)),
    );
    tasks_are_distinct_by_place(
        window.with_active(index).saved_by(cx.task(0)),
        cx.after(1, window.activate_index_effects(index, cx)),
    );
    tasks_are_distinct_by_place(
        (WindowModel {
            create_task: Some(cx.task(0)),
            ..window.with_active_workspace(workspace)
        }),
        cx.after(1, window.create_effects(workspace, cx)),
    );
}

// What is written

/// The write that the window holds was started with these effects, and names
/// the row that the active workspace has.
pub open spec fn writes_active_row(
    window: WindowModel,
    cx: ContextModel,
    effects: Seq<Effect>,
) -> bool {
    window.serialize_task is Some && effects.contains(
        Effect::Spawn {
            task: window.serialize_task->0,
            job: Job::WriteState {
                window_id: window.window_id,
                state: MultiWorkspaceState {
                    active_workspace_id: cx.workspace(window.active_workspace()).database_id,
                },
            },
        },
    )
}

/// Whenever the active index changes, whenever a workspace is removed and
/// whenever a row is found, the state that is written names the row of the
/// workspace that is then active.
pub proof fn the_state_written_is_current(
    window: WindowModel,
    workspace: EntityId,
    found_for: Option<EntityId>,
    workspace_id: WorkspaceId,
    index: int,
    cx: ContextModel,
)
    requires
        window.wf(),
    ensures
        writes_active_row(
            window.with_active(index).saved_by(cx.task(0)),
            cx,
            window.activate_index_effects(index, cx),
        ),
        window.removable(index) ==> writes_active_row(
            window.removing(index, cx),
            cx,
            window.removal_effects(index, cx),
        ),
        cx.multi_workspace_enabled() && window.activating(workspace, cx).active != window.active
            ==> writes_active_row(
            window.activating(workspace, cx),
            cx,
            window.activation_effects(workspace, cx),
        ),
        writes_active_row(
            window.saved_by(cx.task(1)),
            WindowModel::context_with_row(found_for, workspace_id, cx),
            window.row_effects(found_for, workspace_id, cx),
        ),
{
    let moved = window.with_active(index);
    assert(window.activate_index_effects(index, cx)[0] == moved.save_effects(cx, cx.task(0))[0]);
    if window.removable(index) {
        let record = window.record_at(index, cx);
        let deletion = window.delete_effects(record, cx);
        let by = cx.task(WindowModel::delete_tasks(record));
        assert(window.removal_effects(index, cx)[deletion.len() as int] == window.without(
            index,
        ).save_effects(cx, by)[0]);
    }
    let shown = window.with_active_workspace(workspace);
    if cx.multi_workspace_enabled() && shown.active != window.active {
        let setting = window.set_active_effects(workspace);
        assert(window.activation_effects(workspace, cx)[setting.len() as int]
            == shown.save_effects(cx, cx.task(0))[0]);
    }
    let named = WindowModel::context_with_row(found_for, workspace_id, cx);
    let saving = window.save_effects(named, cx.task(1));
    let found = window.row_effects(found_for, workspace_id, cx);
    assert(found[found.len() - saving.len()] == saving[0]);
}

} // verus!
