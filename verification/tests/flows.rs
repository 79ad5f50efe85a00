use std::collections::{HashMap, HashSet};
use std::path::PathBuf;

use multi_workspace::closing::{CloseAnswer, CloseIntent, CloseStep, OpenProject, WindowClosing};
use multi_workspace::context::{Context, Effect, MultiWorkspaceEvent, Settings};
use multi_workspace::ids::{EntityId, FocusHandle, WindowId};
use multi_workspace::multi_workspace::MultiWorkspace;
use multi_workspace::workspace::Workspace;

fn plain_context(multi_folder: bool) -> Context {
    let mut workspaces = HashMap::new();
    for n in 1..6u64 {
        workspaces.insert(
            n,
            Workspace {
                database_id: None,
                session_id: None,
                docks: vec![],
                active_pane: FocusHandle(100 + n),
            },
        );
    }
    Context {
        window_id: WindowId(1),
        settings: Settings {
            agent_v2_flag: false,
            disable_ai: false,
            multi_folder_workspaces_enabled: multi_folder,
        },
        sidebar_focused: false,
        workspaces,
        finished_tasks: HashSet::new(),
        next_task: 0,
        effects: vec![],
    }
}

fn paths(names: &[&str]) -> Vec<PathBuf> {
    names.iter().map(PathBuf::from).collect()
}

fn window_of(count: u64, cx: &mut Context) -> MultiWorkspace {
    let mut window = MultiWorkspace::new(EntityId(1), cx);
    for n in 2..count + 1 {
        window.add_workspace(EntityId(n), cx);
    }
    cx.effects.clear();
    window
}

fn asks(closing: &WindowClosing, workspace: u64) -> bool {
    closing.step()
        == CloseStep::PrepareToClose {
            workspace: EntityId(workspace),
            intent: CloseIntent::CloseWindow,
        }
}

#[test]
fn window_closes_when_all_agree() {
    let mut cx = plain_context(true);
    let window = window_of(3, &mut cx);
    let mut closing = window.close_window();
    for n in 1..4 {
        assert!(asks(&closing, n));
        closing.answer(CloseAnswer::Proceed);
    }
    assert_eq!(closing.step(), CloseStep::RemoveWindow);
}

#[test]
fn first_refusal_keeps_the_window_open() {
    for refusal in [CloseAnswer::Cancel, CloseAnswer::Failed] {
        let mut cx = plain_context(true);
        let window = window_of(3, &mut cx);
        let mut closing = window.close_window();
        closing.answer(CloseAnswer::Proceed);
        assert!(asks(&closing, 2));
        closing.answer(refusal);
        assert_eq!(closing.step(), CloseStep::Stop);
    }
}

#[test]
fn closing_asks_the_workspaces_that_there_were() {
    let mut cx = plain_context(true);
    let mut window = window_of(1, &mut cx);
    let mut closing = window.close_window();
    window.add_workspace(EntityId(2), &mut cx);
    assert!(asks(&closing, 1));
    closing.answer(CloseAnswer::Proceed);
    assert_eq!(closing.step(), CloseStep::RemoveWindow);
}

#[test]
fn project_opens_at_once_beside_others() {
    let mut cx = plain_context(true);
    let window = window_of(2, &mut cx);
    assert_eq!(
        window.open_project(paths(&["/a", "/b"]), &cx),
        OpenProject::OpenPaths {
            workspace: EntityId(1),
            replace_current_window: true,
            paths: paths(&["/a", "/b"]),
        }
    );
}

#[test]
fn project_replaces_the_only_workspace_after_a_question() {
    let mut cx = plain_context(false);
    let window = window_of(1, &mut cx);
    let ask = || window.open_project(paths(&["/a"]), &cx);
    assert_eq!(
        ask(),
        OpenProject::PrepareToClose {
            workspace: EntityId(1),
            intent: CloseIntent::ReplaceWindow,
            paths: paths(&["/a"]),
        }
    );
    let opened = OpenProject::OpenPaths {
        workspace: EntityId(1),
        replace_current_window: true,
        paths: paths(&["/a"]),
    };
    assert_eq!(ask().answered(CloseAnswer::Proceed), opened);
    assert_eq!(
        ask().answered(CloseAnswer::Cancel),
        OpenProject::Keep { workspace: EntityId(1) }
    );
    assert_eq!(ask().answered(CloseAnswer::Failed), OpenProject::Failed);
    assert_eq!(opened.answered(CloseAnswer::Cancel), ask().answered(CloseAnswer::Proceed));
}

#[test]
fn folders_open_as_workspaces() {
    let mut cx = plain_context(true);
    let mut window = window_of(2, &mut cx);
    let mut folders = window.open_folders_as_workspaces(
        paths(&["./a", "./b", "./c"]),
        vec![Some(PathBuf::from("/home/a")), None, Some(PathBuf::from("/home/c"))],
    );
    let mut opened = vec![];
    let mut next = 3;
    while let Some(folder) = folders.next_folder() {
        opened.push(folder.clone());
        window.folder_created(&mut folders, EntityId(next), &mut cx);
        next += 1;
    }
    assert_eq!(opened, paths(&["/home/a", "./b", "/home/c"]));
    assert_eq!(
        window.workspaces(),
        &[EntityId(1), EntityId(2), EntityId(3), EntityId(4), EntityId(5)]
    );
    assert_eq!(window.workspace(), EntityId(3));
    assert!(window.folder_expanded(4));
    let added = |n: u64| Effect::Emit(MultiWorkspaceEvent::WorkspaceAdded(EntityId(n)));
    let terminal = |n: u64, folder: &str| Effect::NewCenterTerminal {
        focus: FocusHandle(100 + n),
        local: false,
        working_directory: Some(PathBuf::from(folder)),
    };
    assert_eq!(
        cx.effects,
        vec![
            Effect::Subscribe(EntityId(3)),
            added(3),
            Effect::Notify,
            Effect::Emit(MultiWorkspaceEvent::ActiveWorkspaceChanged),
            Effect::Notify,
            terminal(3, "/home/a"),
            Effect::Subscribe(EntityId(4)),
            added(4),
            Effect::Notify,
            terminal(4, "./b"),
            Effect::Subscribe(EntityId(5)),
            added(5),
            Effect::Notify,
            terminal(5, "/home/c"),
        ]
    );
    cx.effects.clear();
    window.folders_opened(&mut cx);
    assert!(window.sidebar_visible());
    assert_eq!(cx.effects, vec![Effect::Focus(FocusHandle(103)), Effect::Notify]);
}

#[test]
fn opening_no_folders_hides_the_sidebar_of_one_workspace() {
    let mut cx = plain_context(true);
    let mut window = window_of(1, &mut cx);
    window.toggle_sidebar(&mut cx);
    let folders = window.open_folders_as_workspaces(vec![], vec![]);
    assert_eq!(folders.next_folder(), None);
    window.folders_opened(&mut cx);
    assert!(!window.sidebar_visible());
    assert_eq!(window.workspaces(), &[EntityId(1)]);
}

#[test]
fn folders_open_where_the_setting_is_off() {
    let mut cx = plain_context(false);
    let mut window = window_of(1, &mut cx);
    let mut folders = window.open_folders_as_workspaces(paths(&["/a"]), vec![None]);
    window.folder_created(&mut folders, EntityId(2), &mut cx);
    assert_eq!(window.workspaces(), &[EntityId(1), EntityId(2)]);
    assert_eq!(window.workspace(), EntityId(2));
}
