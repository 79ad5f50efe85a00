//! Operations that take several steps: closing a window, opening a project,
//! opening folders and creating a workspace.

use std::path::PathBuf;
use vstd::prelude::*;

use crate::closing::{CloseAnswer, CloseIntent, CloseStep, ClosingModel, OpenProject};
use crate::context::{ContextModel, Effect};
use crate::folders::OpenFoldersModel;
use crate::ids::{EntityId, TaskId, WorkspaceId};
use crate::window_model::WindowModel;

verus! {

// Closing a window

/// The first `n` answers are all a plain yes.
pub open spec fn all_proceed(answers: Seq<CloseAnswer>, n: int) -> bool {
    answers.len() >= n && forall|i: int| 0 <= i < n ==> #[trigger] answers[i] is Proceed
}

/// As long as every answer was a plain yes, the next workspace is asked; the
/// window is closed when all of them said yes, and left open from the first
/// other answer on.
pub proof fn closing_follows_the_answers(workspaces: Seq<EntityId>, answers: Seq<CloseAnswer>)
    ensures
        ClosingModel::begin(workspaces).after_answers(answers).wf(),
        ClosingModel::begin(workspaces).after_answers(answers).workspaces == workspaces,
        answers.len() < workspaces.len() && all_proceed(answers, answers.len() as int)
            ==> ClosingModel::begin(workspaces).after_answers(answers).step()
            == (CloseStep::PrepareToClose {
            workspace: workspaces[answers.len() as int],
            intent: CloseIntent::CloseWindow,
        }),
        ClosingModel::begin(workspaces).after_answers(answers).step() is RemoveWindow
            <==> all_proceed(answers, workspaces.len() as int),
        ClosingModel::begin(workspaces).after_answers(answers).step() is Stop <==> exists|i: int|
            0 <= i < answers.len() && i < workspaces.len() && !(#[trigger] answers[i] is Proceed),
    decreases answers.len(),
{
    let n = workspaces.len() as int;
    let k = answers.len() as int;
    let now = ClosingModel::begin(workspaces).after_answers(answers);
    if k > 0 {
        let rest = answers.drop_last();
        closing_follows_the_answers(workspaces, rest);
        let before = ClosingModel::begin(workspaces).after_answers(rest);
        closing_counts_the_answers(workspaces, rest);
        assert(forall|i: int| 0 <= i < k - 1 ==> rest[i] == #[trigger] answers[i]);
        if before.step() is Stop {
            let i = choose|i: int|
                0 <= i < rest.len() && i < n && !(#[trigger] rest[i] is Proceed);
            assert(!(answers[i] is Proceed));
        } else if before.step() is RemoveWindow {
            assert(all_proceed(rest, n));
            assert forall|i: int| 0 <= i < n implies #[trigger] answers[i] is Proceed by {
                assert(rest[i] is Proceed);
            }
        } else {
            assert(before.agreed == k - 1 < n);
            assert(forall|i: int| 0 <= i < k - 1 ==> #[trigger] rest[i] is Proceed);
            assert(now == before.answered(answers.last()));
            assert(answers[k - 1] == answers.last());
            assert forall|i: int| 0 <= i < k - 1 implies #[trigger] answers[i] is Proceed by {
                assert(rest[i] is Proceed);
            }
        }
    }
}

/// While workspaces are being asked, as many have agreed as have answered.
proof fn closing_counts_the_answers(workspaces: Seq<EntityId>, answers: Seq<CloseAnswer>)
    ensures
        ({
            let now = ClosingModel::begin(workspaces).after_answers(answers);
            !now.stopped && now.agreed < workspaces.len() ==> now.agreed == answers.len()
                && forall|i: int| 0 <= i < answers.len() ==> #[trigger] answers[i] is Proceed
        }),
        ClosingModel::begin(workspaces).after_answers(answers).workspaces == workspaces,
        0 <= ClosingModel::begin(workspaces).after_answers(answers).agreed <= workspaces.len(),
    decreases answers.len(),
{
    if answers.len() > 0 {
        let rest = answers.drop_last();
        closing_counts_the_answers(workspaces, rest);
        let before = ClosingModel::begin(workspaces).after_answers(rest);
        let now = ClosingModel::begin(workspaces).after_answers(answers);
        if !now.stopped && now.agreed < workspaces.len() {
            assert forall|i: int|
                0 <= i < answers.len() implies #[trigger] answers[i] is Proceed by {
                if i < answers.len() - 1 {
                    assert(rest[i] is Proceed);
                }
            }
        }
    }
}

// Opening folders

/// The workspaces are new to the window and differ from each other.
pub open spec fn fresh(window: WindowModel, workspaces: Seq<EntityId>) -> bool {
    &&& workspaces.no_duplicates()
    &&& forall|i: int|
        0 <= i < workspaces.len() ==> !window.workspaces.contains(#[trigger] workspaces[i])
}

/// Opening folders gives each of them a workspace of its own, at the end and in
/// their order, and expanded in the sidebar; the first of them becomes active.
pub proof fn each_folder_gets_its_workspace(window: WindowModel, workspaces: Seq<EntityId>)
    requires
        window.wf(),
        fresh(window, workspaces),
    ensures
        window.with_folders(workspaces).wf(),
        window.with_folders(workspaces) == (WindowModel {
            workspaces: window.workspaces + workspaces,
            expanded: window.expanded + Seq::new(workspaces.len(), |i: int| true),
            active: if workspaces.len() > 0 {
                window.workspaces.len() as int
            } else {
                window.active
            },
            ..window
        }),
    decreases workspaces.len(),
{
    if workspaces.len() == 0 {
        assert(window.workspaces + workspaces =~= window.workspaces);
        assert(window.expanded + Seq::new(0, |i: int| true) =~= window.expanded);
    } else {
        let rest = workspaces.drop_last();
        let last = workspaces.last();
        assert forall|i: int| 0 <= i < rest.len() implies !window.workspaces.contains(
            #[trigger] rest[i],
        ) by {
            assert(rest[i] == workspaces[i]);
        }
        each_folder_gets_its_workspace(window, rest);
        let before = window.with_folders(rest);
        assert(!before.workspaces.contains(last)) by {
            if before.workspaces.contains(last) {
                let j = choose|j: int|
                    0 <= j < before.workspaces.len() && before.workspaces[j] == last;
                if j < window.workspaces.len() {
                    assert(window.workspaces[j] == last);
                    assert(!window.workspaces.contains(workspaces[workspaces.len() - 1]));
                } else {
                    assert(workspaces[j - window.workspaces.len()] == last);
                }
            }
        }
        crate::laws::workspaces::added_workspace_is_last(before, last);
        let now = window.with_folders(workspaces);
        assert(now.workspaces =~= window.workspaces + workspaces);
        assert(now.expanded =~= window.expanded + Seq::new(workspaces.len(), |i: int| true));
    }
}

/// After new folders were opened the sidebar is visible.
pub proof fn opening_folders_shows_the_sidebar(window: WindowModel, workspaces: Seq<EntityId>)
    requires
        window.wf(),
        fresh(window, workspaces),
        workspaces.len() > 0,
    ensures
        window.with_folders(workspaces).folders_opened().sidebar_visible,
        window.with_folders(workspaces).folders_opened().active_workspace() == workspaces[0],
{
    each_folder_gets_its_workspace(window, workspaces);
}

/// The folders after the first `n` of them got their workspaces.
pub open spec fn after_opened(folders: Seq<PathBuf>, n: nat) -> OpenFoldersModel
    decreases n,
{
    if n == 0 {
        OpenFoldersModel::begin(folders)
    } else {
        after_opened(folders, (n - 1) as nat).next_opened()
    }
}

/// The folders are opened in their order, each of them once.
pub proof fn folders_are_opened_in_order(folders: Seq<PathBuf>, n: nat)
    requires
        n <= folders.len(),
    ensures
        after_opened(folders, n) == (OpenFoldersModel {
            at_first: n == 0,
            left: folders.skip(n as int),
        }),
        n < folders.len() ==> after_opened(folders, n).left[0] == folders[n as int],
    decreases n,
{
    if n == 0 {
        assert(folders.skip(0) =~= folders);
    } else {
        folders_are_opened_in_order(folders, (n - 1) as nat);
        assert(folders.skip(n - 1).drop_first() =~= folders.skip(n as int));
    }
}

/// The context after the first folders got these workspaces.
pub open spec fn context_with_folders(
    window: WindowModel,
    folders: Seq<PathBuf>,
    workspaces: Seq<EntityId>,
    cx: ContextModel,
) -> ContextModel
    decreases workspaces.len(),
{
    if workspaces.len() == 0 {
        cx
    } else {
        let rest = workspaces.drop_last();
        let before = context_with_folders(window, folders, rest, cx);
        let opening = after_opened(folders, rest.len());
        before.after(
            0,
            window.with_folders(rest).folder_effects(
                opening.at_first,
                opening.left[0],
                workspaces.last(),
                before,
            ),
        )
    }
}

/// Opening folders opens a terminal in the center of the workspace of each,
/// with the folder as its working directory.
pub proof fn each_folder_gets_a_terminal(
    window: WindowModel,
    folders: Seq<PathBuf>,
    workspaces: Seq<EntityId>,
    cx: ContextModel,
    i: int,
)
    requires
        0 <= i < workspaces.len() <= folders.len(),
    ensures
        context_with_folders(window, folders, workspaces, cx).effects.contains(
            Effect::NewCenterTerminal {
                focus: cx.workspace(workspaces[i]).active_pane,
                local: false,
                working_directory: Some(folders[i]),
            },
        ),
        context_with_folders(window, folders, workspaces, cx).workspaces == cx.workspaces,
    decreases workspaces.len(),
{
    let rest = workspaces.drop_last();
    let before = context_with_folders(window, folders, rest, cx);
    let now = context_with_folders(window, folders, workspaces, cx);
    let terminal = Effect::NewCenterTerminal {
        focus: cx.workspace(workspaces[i]).active_pane,
        local: false,
        working_directory: Some(folders[i]),
    };
    if rest.len() > 0 {
        each_folder_gets_a_terminal(window, folders, rest, cx, 0);
    }
    assert(before.workspaces == cx.workspaces);
    folders_are_opened_in_order(folders, rest.len());
    if i == workspaces.len() - 1 {
        assert(now.effects.last() == terminal);
    } else {
        each_folder_gets_a_terminal(window, folders, rest, cx, i);
        assert(rest[i] == workspaces[i]);
        let j = choose|j: int| 0 <= j < before.effects.len() && before.effects[j] == terminal;
        assert(now.effects[j] == terminal);
    }
}

/// As many folders are opened as paths were given, each in the place of its
/// path: in the canonical form of the path where it has one, and as the path
/// itself where it has none.
pub proof fn each_path_is_opened_in_its_place(
    paths: Seq<PathBuf>,
    resolved: Seq<Option<PathBuf>>,
    i: int,
)
    requires
        paths.len() == resolved.len(),
        0 <= i < paths.len(),
    ensures
        ({
            let folders = OpenFoldersModel::canonical(paths, resolved);
            let opening = OpenFoldersModel::begin(folders);
            &&& folders.len() == paths.len() && opening.left.len() == paths.len()
            &&& resolved[i] is Some ==> folders[i] == resolved[i]->0 && opening.left[i]
                == resolved[i]->0
            &&& resolved[i] is None ==> folders[i] == paths[i] && opening.left[i] == paths[i]
            &&& opening.at_first
        }),
{
}

/// What a path is opened as does not depend on the other paths: those before it
/// can be opened first and those after it later.
pub proof fn paths_are_opened_independently(
    paths: Seq<PathBuf>,
    resolved: Seq<Option<PathBuf>>,
    more_paths: Seq<PathBuf>,
    more_resolved: Seq<Option<PathBuf>>,
)
    requires
        paths.len() == resolved.len(),
        more_paths.len() == more_resolved.len(),
    ensures
        OpenFoldersModel::canonical(paths + more_paths, resolved + more_resolved)
            == OpenFoldersModel::canonical(paths, resolved) + OpenFoldersModel::canonical(
            more_paths,
            more_resolved,
        ),
{
    assert(OpenFoldersModel::canonical(paths + more_paths, resolved + more_resolved)
        =~= OpenFoldersModel::canonical(paths, resolved) + OpenFoldersModel::canonical(
        more_paths,
        more_resolved,
    ));
}

/// Opening a folder takes the first of those that are left, and keeps the order
/// of the others.
pub proof fn the_next_folder_is_taken(opening: OpenFoldersModel, i: int)
    requires
        opening.left.len() > 0,
    ensures
        !opening.next_opened().at_first,
        opening.next_opened().left.len() == opening.left.len() - 1,
        0 < i < opening.left.len() ==> opening.next_opened().left[i - 1] == opening.left[i],
{
}

/// Without a canonical form for any path, the folders are the paths as given.
pub proof fn paths_without_canonical_form_are_kept(
    paths: Seq<PathBuf>,
    resolved: Seq<Option<PathBuf>>,
)
    requires
        paths.len() == resolved.len(),
        forall|i: int| 0 <= i < resolved.len() ==> #[trigger] resolved[i] is None,
    ensures
        OpenFoldersModel::canonical(paths, resolved) == paths,
{
    assert(OpenFoldersModel::canonical(paths, resolved) =~= paths);
}

// Asking before closing

/// The closing of a window begins with all its workspaces and no answer. It
/// asks the one after those that agreed, with the intent to close the window,
/// until it was stopped or all have agreed.
pub proof fn closing_asks_one_after_the_other(closing: ClosingModel, answer: CloseAnswer)
    ensures
        closing.stopped ==> closing.step() is Stop,
        !closing.stopped && closing.agreed < closing.workspaces.len() ==> closing.step() == (
        CloseStep::PrepareToClose {
            workspace: closing.workspaces[closing.agreed],
            intent: CloseIntent::CloseWindow,
        }),
        !closing.stopped && closing.agreed >= closing.workspaces.len()
            ==> closing.step() is RemoveWindow,
        closing.answered(answer).workspaces == closing.workspaces,
        answer is Proceed ==> closing.answered(answer).agreed == closing.agreed + 1
            && closing.answered(answer).stopped == closing.stopped,
        !(answer is Proceed) ==> closing.answered(answer).stopped
            && closing.answered(answer).agreed == closing.agreed,
        closing.wf() <==> 0 <= closing.agreed <= closing.workspaces.len(),
        ClosingModel::begin(closing.workspaces).workspaces == closing.workspaces,
        ClosingModel::begin(closing.workspaces).agreed == 0,
        !ClosingModel::begin(closing.workspaces).stopped,
{
}

// Opening a project

/// A project is opened, if at all, with the paths that were asked for, and only
/// after a plain yes; after a no the workspace that was asked stays.
pub proof fn a_project_opens_only_after_a_yes(
    workspace: EntityId,
    intent: CloseIntent,
    paths: Vec<PathBuf>,
    answer: CloseAnswer,
)
    ensures
        ({
            let asked = OpenProject::PrepareToClose { workspace, intent, paths };
            let then = asked.after_answer(answer);
            &&& then is OpenPaths <==> answer is Proceed
            &&& answer is Proceed ==> then == (OpenProject::OpenPaths {
                workspace,
                replace_current_window: true,
                paths,
            })
            &&& answer is Cancel ==> then == OpenProject::Keep { workspace }
            &&& answer is Failed ==> then == OpenProject::Failed
        }),
{
}

/// An answer that nobody asked for changes nothing.
pub proof fn an_answer_needs_a_question(step: OpenProject, answer: CloseAnswer)
    requires
        !(step is PrepareToClose),
    ensures
        step.after_answer(answer) == step,
{
}

// Creating a workspace

/// The window after a workspace was created for it.
pub open spec fn with_created(
    window: WindowModel,
    workspace: EntityId,
    task: TaskId,
) -> WindowModel {
    WindowModel { create_task: Some(task), ..window.with_active_workspace(workspace) }
}

/// A created workspace gets a terminal in its center.
pub proof fn a_created_workspace_gets_a_terminal(
    window: WindowModel,
    workspace: EntityId,
    cx: ContextModel,
)
    ensures
        window.create_effects(workspace, cx).contains(
            Effect::NewCenterTerminal {
                focus: cx.workspace(workspace).active_pane,
                local: false,
                working_directory: None,
            },
        ),
{
    let shown = window.set_active_effects(workspace);
    let effects = window.create_effects(workspace, cx);
    assert(effects[shown.len() as int + 1] == (Effect::NewCenterTerminal {
        focus: cx.workspace(workspace).active_pane,
        local: false,
        working_directory: None,
    }));
}

/// Where no row can be had for a created workspace, the window is left with the
/// workspaces that it had before, and the last of them is active.
pub proof fn a_failed_creation_is_undone(
    window: WindowModel,
    workspace: EntityId,
    task: TaskId,
    cx: ContextModel,
)
    requires
        window.wf(),
        !window.workspaces.contains(workspace),
    ensures
        ({
            let failed = with_created(window, workspace, task).removing_created(
                Some(workspace),
                cx,
            );
            &&& failed.workspaces == window.workspaces
            &&& failed.expanded == window.expanded
            &&& failed.active == window.workspaces.len() - 1
        }),
{
    let created = with_created(window, workspace, task);
    let n = window.workspaces.len() as int;
    crate::laws::workspaces::added_workspace_is_last(window, workspace);
    crate::laws::workspaces::removing_undoes_adding(window, workspace, cx);
    assert(created.workspaces.last() == workspace);
    assert(created.index_of(workspace) == n);
    assert(created.without(n).workspaces =~= window.workspaces);
    assert(created.without(n).expanded =~= window.expanded);
}

/// The row that was found for a created workspace is the one that is read of it
/// from then on, and no other workspace changes.
pub proof fn a_found_row_belongs_to_its_workspace(
    workspace: EntityId,
    workspace_id: WorkspaceId,
    other: EntityId,
    cx: ContextModel,
)
    requires
        cx.has(workspace),
        cx.has(other),
        other != workspace,
    ensures
        ({
            let now = WindowModel::context_with_row(Some(workspace), workspace_id, cx);
            &&& now.has(workspace) && now.has(other)
            &&& now.workspace(workspace).database_id == Some(workspace_id)
            &&& now.workspace(workspace).session_id == cx.workspace(workspace).session_id
            &&& now.workspace(other) == cx.workspace(other)
        }),
{
}

} // verus!
