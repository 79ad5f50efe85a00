use std::collections::{HashMap, HashSet};

use multi_workspace::actions::{ActionOutcome, WindowAction};
use multi_workspace::context::{
    multi_workspace_enabled, Context, Effect, Job, MultiWorkspaceEvent, MultiWorkspaceState,
    Settings,
};
use multi_workspace::ids::{
    DockPosition, EntityId, FocusHandle, MultiWorkspaceId, TaskId, WindowId, WorkspaceId,
};
use multi_workspace::multi_workspace::{
    MultiWorkspace, Task, WorkspaceEvent, DEFAULT_SIDEBAR_WIDTH, MAX_SIDEBAR_WIDTH,
    MIN_SIDEBAR_WIDTH, SIDEBAR_RESIZE_HANDLE_SIZE,
};
use multi_workspace::workspace::{Dock, Panel, Workspace};

const A: EntityId = EntityId(1);
const B: EntityId = EntityId(2);
const C: EntityId = EntityId(3);
const D: EntityId = EntityId(4);

/// A context with the workspaces 1 to 4. Workspace `n` has the row `10 n`, if it
/// is odd, and its active pane has the focus handle `100 + n`.
fn context(multi_folder: bool) -> Context {
    let mut workspaces = HashMap::new();
    for n in 1..5u64 {
        workspaces.insert(
            n,
            Workspace {
                database_id: if n % 2 == 1 { Some(WorkspaceId(10 * n as i64)) } else { None },
                session_id: Some(format!("session-{n}")),
                docks: vec![],
                active_pane: FocusHandle(100 + n),
            },
        );
    }
    Context {
        window_id: WindowId(7),
        settings: Settings {
            agent_v2_flag: false,
            disable_ai: false,
            multi_folder_workspaces_enabled: multi_folder,
        },
        sidebar_focused: false,
        workspaces,
        finished_tasks: HashSet::new(),
        next_task: 0,
        effects: vec![],
    }
}

/// A window with the workspaces A, B and C, of which A is active, and no effects.
fn three() -> (MultiWorkspace, Context) {
    let mut cx = context(true);
    let mut window = MultiWorkspace::new(A, &mut cx);
    window.add_workspace(B, &mut cx);
    window.add_workspace(C, &mut cx);
    cx.effects.clear();
    (window, cx)
}

fn changed() -> Effect {
    Effect::Emit(MultiWorkspaceEvent::ActiveWorkspaceChanged)
}

fn write(task: u64, row: Option<i64>) -> Effect {
    Effect::Spawn {
        task: TaskId(task),
        job: Job::WriteState {
            window_id: WindowId(7),
            state: MultiWorkspaceState { active_workspace_id: row.map(WorkspaceId) },
        },
    }
}

#[test]
fn several_workspaces_need_a_flag_or_a_setting() {
    for flag in [false, true] {
        for no_ai in [false, true] {
            for folders in [false, true] {
                let mut cx = context(folders);
                cx.settings.agent_v2_flag = flag;
                cx.settings.disable_ai = no_ai;
                assert_eq!(multi_workspace_enabled(&cx), (flag && !no_ai) || folders);
            }
        }
    }
}

#[test]
fn new_window_shows_its_workspace() {
    let mut cx = context(true);
    let window = MultiWorkspace::new(B, &mut cx);
    assert_eq!(window.workspaces(), &[B]);
    assert_eq!(window.workspace(), B);
    assert_eq!(window.active_workspace_index(), 0);
    assert!(!window.sidebar_visible());
    assert_eq!(window.sidebar_width(), 240);
    assert!(window.folder_expanded(0));
    assert_eq!(window.database_id(), None);
    assert_eq!(
        cx.effects,
        vec![Effect::ObserveRelease, Effect::ObserveQuit, Effect::Subscribe(B)]
    );
    assert_eq!(DEFAULT_SIDEBAR_WIDTH, 240);
    assert_eq!(MIN_SIDEBAR_WIDTH, 150);
    assert_eq!(MAX_SIDEBAR_WIDTH, 500);
    assert_eq!(SIDEBAR_RESIZE_HANDLE_SIZE, 6);
}

#[test]
fn window_for_a_test_is_a_new_window() {
    let mut cx = context(true);
    let mut window = MultiWorkspace::test_new(A, &mut cx);
    assert_eq!(window.workspaces(), &[A]);
    assert_eq!(window.test_add_workspace(B, &mut cx), B);
    assert_eq!(window.workspaces(), &[A, B]);
    assert_eq!(window.workspace(), B);
    window.set_random_database_id(WorkspaceId(99), &mut cx);
    assert_eq!(window.active_workspace_database_id(&cx), Some(WorkspaceId(99)));
}

#[test]
fn adding_a_workspace_keeps_the_active_one() {
    let mut cx = context(true);
    let mut window = MultiWorkspace::new(A, &mut cx);
    cx.effects.clear();
    assert_eq!(window.add_workspace(B, &mut cx), 1);
    assert_eq!(window.workspace(), A);
    assert_eq!(
        cx.effects,
        vec![
            Effect::Subscribe(B),
            Effect::Emit(MultiWorkspaceEvent::WorkspaceAdded(B)),
            Effect::Notify
        ]
    );
}

#[test]
fn adding_a_workspace_again_changes_nothing() {
    let (mut window, mut cx) = three();
    assert_eq!(window.add_workspace(B, &mut cx), 1);
    assert_eq!(window.workspaces(), &[A, B, C]);
    assert!(cx.effects.is_empty());
}

#[test]
fn activating_a_new_workspace_adds_it_and_writes_the_state() {
    let (mut window, mut cx) = three();
    window.activate(D, &mut cx);
    assert_eq!(window.workspaces(), &[A, B, C, D]);
    assert_eq!(window.workspace(), D);
    assert_eq!(
        cx.effects,
        vec![
            Effect::Subscribe(D),
            Effect::Emit(MultiWorkspaceEvent::WorkspaceAdded(D)),
            Effect::Notify,
            changed(),
            Effect::Notify,
            write(0, None),
        ]
    );
}

#[test]
fn activating_the_active_workspace_only_draws() {
    let (mut window, mut cx) = three();
    window.activate(A, &mut cx);
    assert_eq!(window.workspace(), A);
    assert_eq!(cx.effects, vec![Effect::Notify]);
}

#[test]
fn activating_twice_is_the_same_as_once() {
    let (mut window, mut cx) = three();
    window.activate(C, &mut cx);
    assert_eq!(cx.effects, vec![changed(), Effect::Notify, write(0, Some(30))]);
    cx.effects.clear();
    window.activate(C, &mut cx);
    assert_eq!(window.active_workspace_index(), 2);
    assert_eq!(cx.effects, vec![Effect::Notify]);
}

#[test]
fn single_workspace_is_replaced() {
    let mut cx = context(false);
    let mut window = MultiWorkspace::new(A, &mut cx);
    cx.effects.clear();
    window.activate(B, &mut cx);
    assert_eq!(window.workspaces(), &[B]);
    assert_eq!(window.active_workspace_index(), 0);
    assert_eq!(cx.effects, vec![changed(), Effect::Notify]);
}

#[test]
fn replacing_can_show_a_workspace_twice() {
    let (mut window, mut cx) = three();
    cx.settings.multi_folder_workspaces_enabled = false;
    window.activate(C, &mut cx);
    assert_eq!(window.workspaces(), &[C, B, C]);
    assert_eq!(window.active_workspace_index(), 0);
}

#[test]
fn workspace_that_asks_to_be_shown_is_activated() {
    let (mut window, mut cx) = three();
    window.on_workspace_event(B, WorkspaceEvent::Other, &mut cx);
    assert_eq!(window.workspace(), A);
    assert!(cx.effects.is_empty());
    window.on_workspace_event(B, WorkspaceEvent::Activate, &mut cx);
    assert_eq!(window.workspace(), B);
    assert_eq!(cx.effects, vec![changed(), Effect::Notify, write(0, None)]);
}

#[test]
fn activating_an_index_writes_focuses_and_announces() {
    let (mut window, mut cx) = three();
    window.activate_index(2, &mut cx);
    assert_eq!(window.workspace(), C);
    assert_eq!(
        cx.effects,
        vec![write(0, Some(30)), Effect::Focus(FocusHandle(103)), changed(), Effect::Notify]
    );
    cx.effects.clear();
    window.activate_index(2, &mut cx);
    assert_eq!(
        cx.effects,
        vec![
            write(1, Some(30)),
            Effect::DropTask(TaskId(0)),
            Effect::Focus(FocusHandle(103)),
            Effect::Notify
        ]
    );
}

#[test]
fn next_goes_around() {
    let (mut window, mut cx) = three();
    let mut seen = vec![];
    for _ in 0..3 {
        window.activate_next_workspace(&mut cx);
        seen.push(window.active_workspace_index());
    }
    assert_eq!(seen, vec![1, 2, 0]);
}

#[test]
fn previous_goes_around() {
    let (mut window, mut cx) = three();
    let mut seen = vec![];
    for _ in 0..3 {
        window.activate_previous_workspace(&mut cx);
        seen.push(window.active_workspace_index());
    }
    assert_eq!(seen, vec![2, 1, 0]);
}

#[test]
fn next_and_previous_undo_each_other() {
    let (mut window, mut cx) = three();
    for index in 0..3 {
        window.activate_index(index, &mut cx);
        window.activate_next_workspace(&mut cx);
        window.activate_previous_workspace(&mut cx);
        assert_eq!(window.active_workspace_index(), index);
        window.activate_previous_workspace(&mut cx);
        window.activate_next_workspace(&mut cx);
        assert_eq!(window.active_workspace_index(), index);
    }
}

#[test]
fn one_workspace_has_no_next() {
    let mut cx = context(true);
    let mut window = MultiWorkspace::new(A, &mut cx);
    cx.effects.clear();
    window.activate_next_workspace(&mut cx);
    window.activate_previous_workspace(&mut cx);
    assert_eq!(window.workspace(), A);
    assert!(cx.effects.is_empty());
}

#[test]
fn removing_before_the_active_workspace_keeps_it() {
    let (mut window, mut cx) = three();
    window.activate_index(2, &mut cx);
    cx.effects.clear();
    window.remove_workspace(0, &mut cx);
    assert_eq!(window.workspaces(), &[B, C]);
    assert_eq!(window.workspace(), C);
    assert_eq!(
        cx.effects,
        vec![
            Effect::Spawn {
                task: TaskId(1),
                job: Job::DeleteWorkspace { workspace_id: WorkspaceId(10) }
            },
            write(2, Some(30)),
            Effect::DropTask(TaskId(0)),
            Effect::Focus(FocusHandle(103)),
            Effect::Emit(MultiWorkspaceEvent::WorkspaceRemoved(A)),
            changed(),
            Effect::Notify,
        ]
    );
}

#[test]
fn removing_after_the_active_workspace_keeps_it() {
    let (mut window, mut cx) = three();
    window.remove_workspace(1, &mut cx);
    assert_eq!(window.workspaces(), &[A, C]);
    assert_eq!(window.workspace(), A);
    // B has no row, so there is nothing to delete.
    assert_eq!(
        cx.effects,
        vec![
            write(0, Some(10)),
            Effect::Focus(FocusHandle(101)),
            Effect::Emit(MultiWorkspaceEvent::WorkspaceRemoved(B)),
            changed(),
            Effect::Notify,
        ]
    );
}

#[test]
fn removing_the_active_workspace_shows_the_next() {
    let (mut window, mut cx) = three();
    window.activate_index(1, &mut cx);
    window.remove_workspace(1, &mut cx);
    assert_eq!(window.workspaces(), &[A, C]);
    assert_eq!(window.workspace(), C);
}

#[test]
fn removing_the_active_last_workspace_shows_the_one_before() {
    let (mut window, mut cx) = three();
    window.activate_index(2, &mut cx);
    window.remove_workspace(2, &mut cx);
    assert_eq!(window.workspaces(), &[A, B]);
    assert_eq!(window.workspace(), B);
}

#[test]
fn only_workspace_and_missing_index_are_not_removed() {
    let mut cx = context(true);
    let mut window = MultiWorkspace::new(A, &mut cx);
    cx.effects.clear();
    window.remove_workspace(0, &mut cx);
    assert_eq!(window.workspaces(), &[A]);
    window.add_workspace(B, &mut cx);
    cx.effects.clear();
    window.remove_workspace(2, &mut cx);
    assert_eq!(window.workspaces(), &[A, B]);
    assert!(cx.effects.is_empty());
}

#[test]
fn removing_undoes_adding() {
    let (mut window, mut cx) = three();
    window.activate_index(1, &mut cx);
    let index = window.add_workspace(D, &mut cx);
    window.remove_workspace(index, &mut cx);
    assert_eq!(window.workspaces(), &[A, B, C]);
    assert_eq!(window.workspace(), B);
}

#[test]
fn removing_takes_the_folder_of_the_workspace_along() {
    let (mut window, mut cx) = three();
    window.toggle_folder_expanded(1, &mut cx);
    window.remove_workspace(0, &mut cx);
    assert!(!window.folder_expanded(0));
    assert!(window.folder_expanded(1));
}

#[test]
fn focus_goes_to_the_first_zoomed_panel() {
    let (window, mut cx) = three();
    let panel = |zoomed: bool, handle: u64| {
        Some(Panel { is_zoomed: zoomed, focus_handle: FocusHandle(handle) })
    };
    cx.workspaces.get_mut(&1).unwrap().docks = vec![
        Dock { is_open: true, active_panel: None },
        Dock { is_open: false, active_panel: panel(true, 1) },
        Dock { is_open: true, active_panel: panel(false, 2) },
        Dock { is_open: true, active_panel: panel(true, 3) },
        Dock { is_open: true, active_panel: panel(true, 4) },
    ];
    window.focus_active_workspace(&mut cx);
    assert_eq!(cx.effects, vec![Effect::Focus(FocusHandle(3))]);
}

#[test]
fn focus_goes_to_the_center_pane_otherwise() {
    let (window, mut cx) = three();
    window.focus_active_workspace(&mut cx);
    assert_eq!(cx.effects, vec![Effect::Focus(FocusHandle(101))]);
}

#[test]
fn panels_and_docks_go_to_the_active_workspace() {
    let (mut window, mut cx) = three();
    window.activate_index(1, &mut cx);
    cx.effects.clear();
    window.add_panel(EntityId(50), &mut cx);
    window.toggle_dock(DockPosition::Bottom, &mut cx);
    assert_eq!(
        cx.effects,
        vec![
            Effect::AddPanel { workspace: B, panel: EntityId(50) },
            Effect::ToggleDock { workspace: B, dock_side: DockPosition::Bottom },
        ]
    );
}

#[test]
fn window_row_is_kept() {
    let (mut window, _cx) = three();
    window.set_database_id(Some(MultiWorkspaceId(5)));
    assert_eq!(window.database_id(), Some(MultiWorkspaceId(5)));
    window.set_database_id(None);
    assert_eq!(window.database_id(), None);
}

#[test]
fn row_of_the_active_workspace_is_read() {
    let (mut window, mut cx) = three();
    assert_eq!(window.active_workspace_database_id(&cx), Some(WorkspaceId(10)));
    window.activate_index(1, &mut cx);
    assert_eq!(window.active_workspace_database_id(&cx), None);
}

#[test]
fn sidebar_and_folders_toggle_and_toggle_back() {
    let (mut window, mut cx) = three();
    window.toggle_sidebar(&mut cx);
    assert!(window.sidebar_visible());
    window.toggle_sidebar(&mut cx);
    assert!(!window.sidebar_visible());
    window.toggle_folder_expanded(2, &mut cx);
    assert!(!window.folder_expanded(2));
    window.toggle_folder_expanded(2, &mut cx);
    assert!(window.folder_expanded(2));
    assert_eq!(cx.effects, vec![Effect::Notify, Effect::Notify, Effect::Notify, Effect::Notify]);
    cx.effects.clear();
    window.toggle_folder_expanded(3, &mut cx);
    assert!(cx.effects.is_empty());
    assert!(window.folder_expanded(3));
}

#[test]
fn creating_a_workspace_shows_it_and_asks_for_its_row() {
    let (mut window, mut cx) = three();
    window.create_workspace(D, &mut cx);
    assert_eq!(window.workspaces(), &[A, B, C, D]);
    assert_eq!(window.workspace(), D);
    assert_eq!(
        cx.effects,
        vec![
            Effect::Subscribe(D),
            Effect::Emit(MultiWorkspaceEvent::WorkspaceAdded(D)),
            Effect::Notify,
            changed(),
            Effect::Notify,
            Effect::Focus(FocusHandle(104)),
            Effect::NewCenterTerminal {
                focus: FocusHandle(104),
                local: false,
                working_directory: None,
            },
            Effect::Spawn { task: TaskId(0), job: Job::NextWorkspaceId { workspace: D } },
        ]
    );
}

#[test]
fn creating_does_nothing_in_a_window_for_one_workspace() {
    let mut cx = context(false);
    let mut window = MultiWorkspace::new(A, &mut cx);
    cx.effects.clear();
    window.create_workspace(B, &mut cx);
    assert_eq!(window.workspaces(), &[A]);
    assert!(cx.effects.is_empty());
}

#[test]
fn found_row_is_given_to_the_workspace() {
    let (mut window, mut cx) = three();
    window.create_workspace(D, &mut cx);
    cx.effects.clear();
    window.finish_create_workspace(Some(D), Ok(WorkspaceId(44)), &mut cx);
    assert_eq!(cx.workspace(D).database_id, Some(WorkspaceId(44)));
    assert_eq!(
        cx.effects,
        vec![
            Effect::SetDatabaseId { workspace: D, workspace_id: WorkspaceId(44) },
            Effect::Spawn {
                task: TaskId(1),
                job: Job::SetSessionBinding {
                    workspace_id: WorkspaceId(44),
                    session_id: Some("session-4".to_string()),
                    window_id: Some(7),
                },
            },
            Effect::DetachTask(TaskId(1)),
            write(2, Some(44)),
        ]
    );
}

#[test]
fn found_row_is_deleted_when_the_workspace_is_gone() {
    let (mut window, mut cx) = three();
    window.finish_create_workspace(None, Ok(WorkspaceId(44)), &mut cx);
    assert_eq!(
        cx.effects,
        vec![
            Effect::Spawn {
                task: TaskId(0),
                job: Job::DeleteWorkspace { workspace_id: WorkspaceId(44) },
            },
            Effect::DetachTask(TaskId(0)),
            write(1, Some(10)),
        ]
    );
}

#[test]
fn workspace_without_a_row_is_removed() {
    let (mut window, mut cx) = three();
    window.create_workspace(D, &mut cx);
    cx.effects.clear();
    window.finish_create_workspace(Some(D), Err("disk full".to_string()), &mut cx);
    assert_eq!(window.workspaces(), &[A, B, C]);
    assert_eq!(window.workspace(), C);
    assert_eq!(
        cx.effects,
        vec![
            write(1, Some(30)),
            Effect::Focus(FocusHandle(103)),
            Effect::Emit(MultiWorkspaceEvent::WorkspaceRemoved(D)),
            changed(),
            Effect::Notify,
            Effect::ShowToast {
                workspace: C,
                message: "Failed to create workspace: disk full".to_string(),
            },
        ]
    );
}

#[test]
fn failure_for_a_workspace_that_is_gone_is_only_told() {
    let (mut window, mut cx) = three();
    window.finish_create_workspace(Some(D), Err("no".to_string()), &mut cx);
    window.finish_create_workspace(None, Err("".to_string()), &mut cx);
    assert_eq!(window.workspaces(), &[A, B, C]);
    assert_eq!(
        cx.effects,
        vec![
            Effect::ShowToast {
                workspace: A,
                message: "Failed to create workspace: no".to_string(),
            },
            Effect::ShowToast { workspace: A, message: "Failed to create workspace: ".to_string() },
        ]
    );
}

#[test]
fn second_creation_gives_up_the_first_question() {
    let mut cx = context(true);
    let mut window = MultiWorkspace::new(A, &mut cx);
    window.create_workspace(B, &mut cx);
    window.create_workspace(C, &mut cx);
    assert_eq!(cx.effects.last(), Some(&Effect::DropTask(TaskId(0))));
    assert_eq!(window.take_pending_removal_tasks(&mut cx), vec![TaskId(1)]);
}

#[test]
fn flushing_hands_out_the_write() {
    let (mut window, mut cx) = three();
    assert_eq!(window.flush_serialization(), Task::Ready);
    window.activate_index(1, &mut cx);
    assert_eq!(window.flush_serialization(), Task::Spawned(TaskId(0)));
    assert_eq!(window.flush_serialization(), Task::Ready);
    // A write that was handed out is not given up by the next one.
    cx.effects.clear();
    window.activate_index(2, &mut cx);
    assert!(!cx.effects.contains(&Effect::DropTask(TaskId(0))));
}

#[test]
fn finished_deletions_are_forgotten_and_running_ones_kept() {
    let (mut window, mut cx) = three();
    cx.workspaces.get_mut(&2).unwrap().database_id = Some(WorkspaceId(20));
    window.remove_workspace(0, &mut cx); // deletion 0, write 1
    window.add_workspace(D, &mut cx);
    window.remove_workspace(0, &mut cx); // deletion 2, write 3
    cx.finished_tasks.insert(0);
    cx.effects.clear();
    window.remove_workspace(0, &mut cx); // deletion 4, write 5
    assert_eq!(window.workspaces(), &[D]);
    assert_eq!(cx.effects[0], Effect::DropTask(TaskId(0)));
    assert_eq!(
        cx.effects[1],
        Effect::Spawn {
            task: TaskId(4),
            job: Job::DeleteWorkspace { workspace_id: WorkspaceId(30) }
        }
    );
    cx.finished_tasks.insert(4);
    cx.effects.clear();
    assert_eq!(window.take_pending_removal_tasks(&mut cx), vec![TaskId(2)]);
    assert_eq!(cx.effects, vec![Effect::DropTask(TaskId(4))]);
    assert!(window.take_pending_removal_tasks(&mut cx).is_empty());
}

#[test]
fn quitting_waits_for_every_task() {
    let (mut window, mut cx) = three();
    window.remove_workspace(0, &mut cx); // deletion 0, write 1
    window.create_workspace(D, &mut cx); // question 2
    assert_eq!(window.app_will_quit(), vec![TaskId(1), TaskId(2), TaskId(0)]);
    assert!(window.app_will_quit().is_empty());
}

#[test]
fn released_window_lets_its_tasks_run() {
    let (mut window, mut cx) = three();
    window.remove_workspace(0, &mut cx);
    window.create_workspace(D, &mut cx);
    cx.effects.clear();
    window.release(&mut cx);
    assert_eq!(
        cx.effects,
        vec![
            Effect::DetachTask(TaskId(1)),
            Effect::DetachTask(TaskId(2)),
            Effect::DetachTask(TaskId(0)),
        ]
    );
    assert!(window.app_will_quit().is_empty());
}

#[test]
fn actions_reach_their_operations() {
    let (mut window, mut cx) = three();
    assert_eq!(window.on_action(WindowAction::NextWorkspaceInWindow, &mut cx), ActionOutcome::Done);
    assert_eq!(window.workspace(), B);
    assert_eq!(
        window.on_action(WindowAction::PreviousWorkspaceInWindow, &mut cx),
        ActionOutcome::Done
    );
    assert_eq!(window.workspace(), A);
    assert_eq!(
        window.on_action(WindowAction::ToggleWorkspaceSidebar, &mut cx),
        ActionOutcome::Done
    );
    assert!(window.sidebar_visible());
    cx.effects.clear();
    assert_eq!(
        window.on_action(WindowAction::CloseWindow, &mut cx),
        ActionOutcome::CloseWindow
    );
    assert_eq!(
        window.on_action(WindowAction::NewWorkspaceInWindow, &mut cx),
        ActionOutcome::CreateWorkspace
    );
    assert_eq!(
        window.on_action(WindowAction::FocusWorkspaceSidebar, &mut cx),
        ActionOutcome::Done
    );
    assert_eq!(cx.effects, vec![Effect::FocusSidebar]);
    cx.effects.clear();
    assert_eq!(
        window.on_action(WindowAction::OpenFoldersAsWorkspaces, &mut cx),
        ActionOutcome::OpenFolders
    );
    cx.settings.multi_folder_workspaces_enabled = false;
    assert_eq!(
        window.on_action(WindowAction::NewWorkspaceInWindow, &mut cx),
        ActionOutcome::Done
    );
    assert_eq!(
        window.on_action(WindowAction::OpenFoldersAsWorkspaces, &mut cx),
        ActionOutcome::OpenFolders
    );
    assert!(cx.effects.is_empty());
}

#[test]
fn focus_moves_to_the_sidebar_and_back() {
    let (mut window, mut cx) = three();
    window.focus_sidebar(&mut cx);
    assert!(cx.effects.is_empty());
    window.toggle_sidebar(&mut cx);
    cx.effects.clear();
    assert_eq!(window.on_action(WindowAction::FocusWorkspaceSidebar, &mut cx), ActionOutcome::Done);
    assert_eq!(cx.effects, vec![Effect::FocusSidebar]);
    cx.effects.clear();
    cx.sidebar_focused = true;
    assert_eq!(window.on_action(WindowAction::FocusWorkspaceSidebar, &mut cx), ActionOutcome::Done);
    assert_eq!(cx.effects, vec![Effect::Focus(FocusHandle(101))]);
    assert!(window.sidebar_visible());
    cx.effects.clear();
    cx.settings.multi_folder_workspaces_enabled = false;
    window.focus_sidebar(&mut cx);
    assert!(cx.effects.is_empty());
}

#[test]
fn once_around_shows_every_workspace_once() {
    let (mut window, mut cx) = three();
    let mut shown = vec![];
    for _ in 0..3 {
        window.activate_next_workspace(&mut cx);
        shown.push(window.workspace());
    }
    assert_eq!(shown, vec![B, C, A]);
}
