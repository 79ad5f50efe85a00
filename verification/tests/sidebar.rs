use std::collections::{HashMap, HashSet};

use multi_workspace::context::{Context, Effect, MultiWorkspaceEvent, Settings};
use multi_workspace::ids::{EntityId, FocusHandle, WindowId};
use multi_workspace::multi_workspace::MultiWorkspace;
use multi_workspace::sidebar::{
    ElementId, Entry, EntryRow, FolderData, FolderRow, Project, Repository,
    SidebarClick, Worktree,
};
use multi_workspace::text::decimal_text;
use multi_workspace::workspace::Workspace;

fn drawing_context(multi_folder: bool) -> Context {
    Context {
        window_id: WindowId(1),
        settings: Settings {
            agent_v2_flag: false,
            disable_ai: false,
            multi_folder_workspaces_enabled: multi_folder,
        },
        sidebar_focused: false,
        workspaces: HashMap::new(),
        finished_tasks: HashSet::new(),
        next_task: 0,
        effects: vec![],
    }
}

fn two(cx: &mut Context) -> MultiWorkspace {
    let mut window = MultiWorkspace::new(EntityId(1), cx);
    window.add_workspace(EntityId(2), cx);
    window
}

fn id(name: &str, index: usize) -> ElementId {
    ElementId { name: name.to_string(), index }
}

fn entry(path: &[&str], is_dir: bool) -> Entry {
    Entry { path: path.iter().map(|name| name.to_string()).collect(), is_dir }
}

fn strata() -> Project {
    Project {
        worktrees: vec![
            Worktree {
                root_name: "strata".to_string(),
                entries: vec![
                    entry(&[], true),
                    entry(&["src"], true),
                    entry(&["src", "main.rs"], false),
                    entry(&["README.md"], false),
                ],
            },
            Worktree { root_name: "docs".to_string(), entries: vec![entry(&[], true)] },
        ],
        active_repository: Some(Repository { branch: Some("main".to_string()) }),
        terminal_active: true,
    }
}

fn bare() -> Project {
    Project { worktrees: vec![], active_repository: None, terminal_active: false }
}

#[test]
fn folders_are_named_after_their_first_worktree() {
    assert_eq!(MultiWorkspace::folder_name_for_workspace(&strata()), "strata");
    assert_eq!(MultiWorkspace::folder_name_for_workspace(&bare()), "Untitled");
}

#[test]
fn branch_is_that_of_the_active_repository() {
    assert_eq!(MultiWorkspace::branch_for_workspace(&strata()), Some("main".to_string()));
    assert_eq!(MultiWorkspace::branch_for_workspace(&bare()), None);
    let detached = Project {
        worktrees: vec![],
        active_repository: Some(Repository { branch: None }),
        terminal_active: false,
    };
    assert_eq!(MultiWorkspace::branch_for_workspace(&detached), None);
}

#[test]
fn sidebar_lists_the_workspaces() {
    let mut cx = drawing_context(true);
    let window = two(&mut cx);
    let sidebar = window.render_sidebar(&vec![strata(), bare()]);
    assert_eq!(sidebar.width, 240);
    assert_eq!(sidebar.title, "WORKSPACES");
    assert_eq!(sidebar.list_id, "workspace-sidebar-entries");
    let row = |child: usize, prefix: &'static str, name: &str| EntryRow {
        id: id("entry-0", child),
        prefix,
        name: name.to_string(),
    };
    assert_eq!(
        sidebar.folders,
        vec![
            FolderRow {
                header_id: id("folder-header", 0),
                header_click: SidebarClick::Header(0),
                chevron_id: id("folder-chevron", 0),
                chevron_click: SidebarClick::Chevron(0),
                chevron: "v",
                selected: true,
                name: "strata".to_string(),
                branch: Some("main".to_string()),
                terminal_active: true,
                entries: vec![
                    row(0, "📁 ", "strata"),
                    row(1, "📁 ", "src"),
                    row(2, "📄 ", "README.md"),
                    row(3, "📁 ", "docs"),
                ],
            },
            FolderRow {
                header_id: id("folder-header", 1),
                header_click: SidebarClick::Header(1),
                chevron_id: id("folder-chevron", 1),
                chevron_click: SidebarClick::Chevron(1),
                chevron: "v",
                selected: false,
                name: "Untitled".to_string(),
                branch: None,
                terminal_active: false,
                entries: vec![],
            },
        ]
    );
}

#[test]
fn collapsed_folder_shows_no_entries() {
    let mut cx = drawing_context(true);
    let mut window = two(&mut cx);
    window.toggle_folder_expanded(0, &mut cx);
    let sidebar = window.render_sidebar(&vec![strata(), strata()]);
    assert_eq!(sidebar.folders[0].chevron, ">");
    assert!(sidebar.folders[0].entries.is_empty());
    assert_eq!(sidebar.folders[1].chevron, "v");
    assert_eq!(sidebar.folders[1].entries.len(), 4);
    assert_eq!(sidebar.folders[1].entries[3].id, id("entry-1", 3));
}

#[test]
fn collapsed_folder_hides_the_children_it_has() {
    let data = FolderData {
        folder_name: "x".to_string(),
        branch_name: None,
        terminal_active: false,
        is_active: false,
        is_expanded: false,
        children: vec![("y".to_string(), false)],
    };
    assert!(data.row(0).entries.is_empty());
}

#[test]
fn folder_does_not_depend_on_other_projects() {
    let mut cx = drawing_context(true);
    let window = two(&mut cx);
    let beside_bare = window.render_sidebar(&vec![strata(), bare()]);
    let beside_strata = window.render_sidebar(&vec![strata(), strata()]);
    assert_eq!(beside_bare.folders[0], beside_strata.folders[0]);
    assert_ne!(beside_bare.folders[1], beside_strata.folders[1]);
    assert_eq!(beside_strata.folders[1].branch, Some("main".to_string()));
}

#[test]
fn clicks_reach_their_folder() {
    let mut cx = drawing_context(true);
    cx.workspaces.insert(
        2,
        Workspace {
            database_id: None,
            session_id: None,
            docks: vec![],
            active_pane: FocusHandle(102),
        },
    );
    let mut window = two(&mut cx);
    let sidebar = window.render_sidebar(&vec![strata(), strata()]);
    cx.effects.clear();
    window.on_sidebar_click(sidebar.folders[1].chevron_click, &mut cx);
    assert!(window.folder_expanded(0) && !window.folder_expanded(1));
    assert_eq!(window.workspace(), EntityId(1));
    assert_eq!(cx.effects, vec![Effect::Notify]);
    cx.effects.clear();
    window.on_sidebar_click(sidebar.folders[1].header_click, &mut cx);
    assert_eq!(window.workspace(), EntityId(2));
    assert!(matches!(cx.effects[0], Effect::Spawn { .. }));
    assert_eq!(
        cx.effects[1..],
        [
            Effect::Focus(FocusHandle(102)),
            Effect::Emit(MultiWorkspaceEvent::ActiveWorkspaceChanged),
            Effect::Notify,
        ]
    );
    cx.effects.clear();
    window.on_sidebar_click(SidebarClick::Chevron(2), &mut cx);
    assert!(cx.effects.is_empty());
}

#[test]
fn element_ids_differ() {
    let mut cx = drawing_context(true);
    let mut window = two(&mut cx);
    window.add_workspace(EntityId(3), &mut cx);
    let sidebar = window.render_sidebar(&vec![strata(), bare(), strata()]);
    let mut ids = HashSet::new();
    let mut count = 0;
    for folder in &sidebar.folders {
        ids.insert((folder.header_id.name.clone(), folder.header_id.index));
        ids.insert((folder.chevron_id.name.clone(), folder.chevron_id.index));
        count += 2 + folder.entries.len();
        for entry in &folder.entries {
            ids.insert((entry.id.name.clone(), entry.id.index));
        }
    }
    assert_eq!(count, 14);
    assert_eq!(ids.len(), count);
}

#[test]
fn sidebar_is_drawn_where_there_is_a_choice() {
    let mut cx = drawing_context(true);
    let mut window = MultiWorkspace::new(EntityId(1), &mut cx);
    window.toggle_sidebar(&mut cx);
    assert!(!window.shows_sidebar(&cx));
    assert!(window.render(&vec![], &cx).sidebar.is_none());
    window.add_workspace(EntityId(2), &mut cx);
    assert!(window.shows_sidebar(&cx));
    let view = window.render(&vec![bare(), strata()], &cx);
    assert_eq!(view.workspace, EntityId(1));
    assert_eq!(view.sidebar.unwrap().folders[1].name, "strata");
    cx.settings.multi_folder_workspaces_enabled = false;
    assert!(!window.shows_sidebar(&cx));
    cx.settings.agent_v2_flag = true;
    assert!(window.shows_sidebar(&cx));
    window.toggle_sidebar(&mut cx);
    assert!(!window.shows_sidebar(&cx));
}

#[test]
fn file_name_is_the_last_component() {
    assert_eq!(entry(&[], true).file_name(), None);
    assert_eq!(entry(&["src", "main.rs"], false).file_name(), Some(&"main.rs".to_string()));
}

#[test]
fn numbers_are_written_in_decimal() {
    for n in [0, 7, 9, 10, 11, 99, 100, 1234567890, usize::MAX] {
        assert_eq!(decimal_text(n), format!("{n}"));
    }
}
