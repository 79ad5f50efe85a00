//! The sidebar of a window.

use vstd::prelude::*;

use crate::context::{ContextModel, Effect};
use crate::sidebar::{
    Entry, FolderData, FolderDataModel, FolderRow, FolderRowModel, Project, Sidebar,
    SidebarClick, SidebarModel, Worktree,
};
use crate::window_model::WindowModel;

verus! {

/// The sidebar has one folder for each workspace, and exactly that of the
/// active workspace is selected.
pub proof fn one_folder_is_selected(window: WindowModel, projects: Seq<Project>, i: int)
    requires
        window.wf(),
        0 <= i < window.workspaces.len(),
    ensures
        SidebarModel::of(window, projects).folders.len() == window.workspaces.len(),
        SidebarModel::of(window, projects).folders[i].selected <==> i == window.active,
{
}

/// Each folder shows the name, the branch and the active terminal of its own
/// project, whatever the other projects are.
pub proof fn folders_show_their_own_project(
    window: WindowModel,
    projects: Seq<Project>,
    others: Seq<Project>,
    i: int,
)
    requires
        0 <= i < window.workspaces.len(),
        projects[i] == others[i],
    ensures
        SidebarModel::of(window, projects).folders[i].name == projects[i].folder_name(),
        SidebarModel::of(window, projects).folders[i].branch == projects[i].branch_name(),
        SidebarModel::of(window, projects).folders[i].terminal_active
            == projects[i].terminal_active,
        SidebarModel::of(window, projects).folders[i] == SidebarModel::of(
            window,
            others,
        ).folders[i],
{
}

/// A folder has the name of the first worktree of its project, whichever others
/// there are, and is without a title exactly where the project has no worktree.
pub proof fn folders_are_named_after_their_first_worktree(
    window: WindowModel,
    projects: Seq<Project>,
    i: int,
)
    requires
        0 <= i < window.workspaces.len(),
    ensures
        ({
            let worktrees = projects[i].worktrees@;
            let name = SidebarModel::of(window, projects).folders[i].name;
            &&& worktrees.len() > 0 ==> name == worktrees[0].root_name@
            &&& worktrees.len() == 0 ==> name == "Untitled"@
            &&& projects[i].folder_name() == name
        }),
{
}

/// A folder shows a branch exactly where its project has an active repository
/// that is on one, and shows that one.
pub proof fn folders_show_the_branch_they_are_on(
    window: WindowModel,
    projects: Seq<Project>,
    i: int,
)
    requires
        0 <= i < window.workspaces.len(),
    ensures
        ({
            let repository = projects[i].active_repository;
            let branch = SidebarModel::of(window, projects).folders[i].branch;
            &&& repository is Some && repository->0.branch is Some ==> branch == Some(
                repository->0.branch->0@,
            )
            &&& repository is Some && repository->0.branch is None ==> branch is None
            &&& repository is None ==> branch is None
            &&& projects[i].branch_name() == branch
        }),
{
}

/// The sidebar is as wide as the window has it, has its title, and lists each
/// folder under its own index, with the arrow down where it is expanded.
pub proof fn the_sidebar_lists_the_folders(
    window: WindowModel,
    projects: Seq<Project>,
    i: int,
)
    requires
        window.expanded.len() == window.workspaces.len(),
        0 <= i < window.workspaces.len() <= usize::MAX,
    ensures
        ({
            let sidebar = SidebarModel::of(window, projects);
            let folder = sidebar.folders[i];
            &&& sidebar.width == window.sidebar_width
            &&& sidebar.title == "WORKSPACES"@
            &&& sidebar.list_id == "workspace-sidebar-entries"@
            &&& sidebar.folders.len() == window.workspaces.len()
            &&& window.expanded[i] ==> folder.chevron == "v"@
            &&& !window.expanded[i] ==> folder.chevron == ">"@
            &&& folder.selected <==> window.active == i
            &&& folder.header_id == ("folder-header"@, i)
            &&& folder.chevron_id == ("folder-chevron"@, i)
            &&& folder.header_click == SidebarClick::Header(i as usize)
            &&& folder.chevron_click == SidebarClick::Chevron(i as usize)
            &&& folder.terminal_active == projects[i].terminal_active
        }),
{
}

/// An expanded folder shows the top entries of its worktrees in their order,
/// each by its name and with the mark of a directory or of a file; a collapsed
/// one shows none.
pub proof fn expanded_folders_show_their_entries(
    window: WindowModel,
    projects: Seq<Project>,
    i: int,
    a: int,
)
    requires
        window.expanded.len() == window.workspaces.len(),
        0 <= i < window.workspaces.len(),
    ensures
        ({
            let entries = SidebarModel::of(window, projects).folders[i].entries;
            let children = Project::children(projects[i].worktrees@);
            &&& !window.expanded[i] ==> entries.len() == 0
            &&& window.expanded[i] ==> entries.len() == children.len()
            &&& window.expanded[i] && 0 <= a < children.len() ==> {
                &&& entries[a].name == children[a].0
                &&& children[a].1 ==> entries[a].prefix == "📁 "@
                &&& !children[a].1 ==> entries[a].prefix == "📄 "@
                &&& entries[a].id == ("entry-"@ + crate::text::decimal(i as nat), a)
            }
        }),
{
}

/// One more worktree adds its top entries after those of the others.
pub proof fn worktrees_are_listed_one_after_the_other(worktrees: Seq<Worktree>, last: Worktree)
    ensures
        Project::children(seq![]) == Seq::<(Seq<char>, bool)>::empty(),
        Project::children(worktrees.push(last)) == Project::children(worktrees)
            + Project::top_entries(last.entries@, last.root_name@),
{
    assert(worktrees.push(last).drop_last() =~= worktrees);
}

/// One more entry of a worktree is listed last if it is the root, under the name
/// of the worktree, or if it lies directly in the root, under its own name. An
/// entry further down is not listed.
pub proof fn top_entries_are_listed(entries: Seq<Entry>, last: Entry, root_name: Seq<char>)
    ensures
        Project::top_entries(seq![], root_name) == Seq::<(Seq<char>, bool)>::empty(),
        ({
            let listed = Project::top_entries(entries, root_name);
            let with_last = Project::top_entries(entries.push(last), root_name);
            &&& last.path@.len() == 0 ==> with_last == listed.push((root_name, last.is_dir))
            &&& last.path@.len() == 1 ==> with_last == listed.push(
                (last.path@[0]@, last.is_dir),
            )
            &&& last.path@.len() > 1 ==> with_last == listed
        }),
{
    reveal(Seq::filter);
    let listed = Project::top_entries(entries, root_name);
    let with_last = Project::top_entries(entries.push(last), root_name);
    assert(entries.push(last).drop_last() =~= entries);
    assert(Project::top_entries(seq![], root_name) =~= Seq::<(Seq<char>, bool)>::empty());
    if last.path@.len() == 0 {
        assert(with_last =~= listed.push((root_name, last.is_dir)));
    } else if last.path@.len() == 1 {
        assert(with_last =~= listed.push((last.path@[0]@, last.is_dir)));
    }
}

/// What is collected of a workspace is its name, its branch, its terminal,
/// whether it is active and expanded, and its entries if it is expanded.
pub proof fn folder_data_is_that_of_its_workspace(
    window: WindowModel,
    index: int,
    project: Project,
)
    ensures
        ({
            let data = FolderDataModel::of(window, index, project);
            let expanded = 0 <= index < window.expanded.len() ==> window.expanded[index];
            &&& data.folder_name == project.folder_name()
            &&& data.branch_name == project.branch_name()
            &&& data.terminal_active == project.terminal_active
            &&& data.is_active <==> window.active == index
            &&& data.is_expanded == expanded
            &&& expanded ==> data.children == Project::children(project.worktrees@)
            &&& !expanded ==> data.children.len() == 0
        }),
{
}

/// A folder is drawn with what was collected of it, under its index. Its
/// children are drawn where it is expanded.
pub proof fn a_folder_is_drawn_as_collected(index: usize, folder: FolderDataModel, a: int)
    ensures
        ({
            let row = FolderRowModel::of(index as int, folder);
            &&& row.header_id == ("folder-header"@, index as int)
            &&& row.chevron_id == ("folder-chevron"@, index as int)
            &&& row.header_click == SidebarClick::Header(index)
            &&& row.chevron_click == SidebarClick::Chevron(index)
            &&& folder.is_expanded ==> row.chevron == "v"@ && row.entries.len()
                == folder.children.len()
            &&& !folder.is_expanded ==> row.chevron == ">"@ && row.entries.len() == 0
            &&& row.selected == folder.is_active
            &&& row.name == folder.folder_name
            &&& row.branch == folder.branch_name
            &&& row.terminal_active == folder.terminal_active
            &&& folder.is_expanded && 0 <= a < folder.children.len() ==> {
                let (name, is_dir) = folder.children[a];
                &&& row.entries[a].name == name
                &&& is_dir ==> row.entries[a].prefix == "📁 "@
                &&& !is_dir ==> row.entries[a].prefix == "📄 "@
                &&& row.entries[a].id == ("entry-"@ + crate::text::decimal(index as nat), a)
            }
        }),
{
}

/// The sidebar is drawn exactly where the user has it open, the window has more
/// than one workspace, and it may.
pub proof fn the_sidebar_is_drawn_where_there_is_a_choice(window: WindowModel, cx: ContextModel)
    ensures
        window.shows_sidebar(cx) ==> window.sidebar_visible && window.workspaces.len() >= 2
            && cx.multi_workspace_enabled(),
        window.sidebar_visible && window.workspaces.len() >= 2 && cx.multi_workspace_enabled()
            ==> window.shows_sidebar(cx),
{
}

/// What is said of a drawn sidebar is said of all that it holds.
pub proof fn a_sidebar_is_read_as_it_is(sidebar: Sidebar, i: int)
    ensures
        sidebar@.width == sidebar.width,
        sidebar@.title == sidebar.title@,
        sidebar@.list_id == sidebar.list_id@,
        sidebar@.folders.len() == sidebar.folders@.len(),
        0 <= i < sidebar.folders@.len() ==> sidebar@.folders[i] == sidebar.folders@[i]@,
{
}

/// What is said of a drawn folder is said of all that it holds.
pub proof fn a_folder_is_read_as_it_is(row: FolderRow, a: int)
    ensures
        row@.header_id == (row.header_id.name@, row.header_id.index as int),
        row@.header_click == row.header_click,
        row@.chevron_id == (row.chevron_id.name@, row.chevron_id.index as int),
        row@.chevron_click == row.chevron_click,
        row@.chevron == row.chevron@,
        row@.selected == row.selected,
        row@.name == row.name@,
        row.branch is Some ==> row@.branch == Some(row.branch->0@),
        row.branch is None ==> row@.branch is None,
        row@.terminal_active == row.terminal_active,
        row@.entries.len() == row.entries@.len(),
        0 <= a < row.entries@.len() ==> {
            let entry = row.entries@[a];
            &&& row@.entries[a].id == (entry.id.name@, entry.id.index as int)
            &&& row@.entries[a].prefix == entry.prefix@
            &&& row@.entries[a].name == entry.name@
        },
{
}

/// What is said of collected data is said of all that they hold.
pub proof fn folder_data_are_read_as_they_are(data: FolderData, a: int)
    ensures
        data@.folder_name == data.folder_name@,
        data.branch_name is Some ==> data@.branch_name == Some(data.branch_name->0@),
        data.branch_name is None ==> data@.branch_name is None,
        data@.terminal_active == data.terminal_active,
        data@.is_active == data.is_active,
        data@.is_expanded == data.is_expanded,
        data@.children.len() == data.children@.len(),
        0 <= a < data.children@.len() ==> data@.children[a].0 == data.children@[a].0@
            && data@.children[a].1 == data.children@[a].1,
{
}

/// An optional text is there exactly where it is given, and is that text.
pub proof fn an_optional_text_is_read_as_it_is(text: String)
    ensures
        crate::sidebar::text_of(Some(text)) == Some(text@),
        crate::sidebar::text_of(None) is None,
{
}

/// Opening and closing the sidebar, and expanding and collapsing a folder, undo
/// each other.
pub proof fn toggling_twice_changes_nothing(window: WindowModel, index: int)
    ensures
        ({
            let toggled = window.with_sidebar(!window.sidebar_visible);
            toggled.with_sidebar(!toggled.sidebar_visible) == window
        }),
        window.with_folder_toggled(index).with_folder_toggled(index) == window,
        0 <= index < window.expanded.len() ==> window.with_folder_toggled(index).folder_expanded(
            index,
        ) == !window.folder_expanded(index),
{
    assert(window.with_folder_toggled(index).with_folder_toggled(index).expanded
        =~= window.expanded);
}

/// Expanding or collapsing a folder changes no other folder of the sidebar.
pub proof fn folders_expand_independently(
    window: WindowModel,
    projects: Seq<Project>,
    toggled: int,
    other: int,
)
    requires
        window.wf(),
        0 <= toggled < window.workspaces.len(),
        0 <= other < window.workspaces.len(),
        other != toggled,
    ensures
        SidebarModel::of(window.with_folder_toggled(toggled), projects).folders[other]
            == SidebarModel::of(window, projects).folders[other],
{
    let before = FolderDataModel::of(window, other, projects[other]);
    let after = FolderDataModel::of(window.with_folder_toggled(toggled), other, projects[other]);
    assert(before == after);
}

/// A folder that is collapsed shows no entries; one that is expanded shows all
/// top entries of its worktrees.
pub proof fn only_expanded_folders_show_entries(
    window: WindowModel,
    projects: Seq<Project>,
    i: int,
)
    requires
        window.wf(),
        0 <= i < window.workspaces.len(),
    ensures
        SidebarModel::of(window, projects).folders[i].entries.len() == (if window.expanded[i] {
            Project::children(projects[i].worktrees@).len()
        } else {
            0
        }),
{
}

/// A click on the header of a folder shows its workspace, and one on its chevron
/// expands or collapses it and changes nothing else.
pub proof fn clicks_reach_their_folder(
    window: WindowModel,
    projects: Seq<Project>,
    cx: ContextModel,
    i: int,
)
    requires
        window.wf(),
        0 <= i < window.workspaces.len() <= usize::MAX,
    ensures
        ({
            let folder = SidebarModel::of(window, projects).folders[i];
            let after_header = window.clicked(folder.header_click, cx);
            let after_chevron = window.clicked(folder.chevron_click, cx);
            &&& after_header == window.with_active(i).saved_by(cx.task(0))
            &&& after_header.active_workspace() == window.workspaces[i]
            &&& SidebarModel::of(after_header, projects).folders[i].selected
            &&& window.context_after_click(folder.header_click, cx) == cx.after(
                1,
                window.activate_index_effects(i, cx),
            )
            &&& after_chevron == window.with_folder_toggled(i)
            &&& after_chevron.active_workspace() == window.active_workspace()
            &&& after_chevron.folder_expanded(i) == !window.folder_expanded(i)
        }),
{
}

/// The focus moves to the sidebar exactly where that is drawn and has it not,
/// back to the active workspace where the sidebar has it, and nowhere where the
/// sidebar is not drawn.
pub proof fn focus_moves_to_the_sidebar_and_back(window: WindowModel, cx: ContextModel)
    ensures
        window.sidebar_focus_effects(cx).contains(Effect::FocusSidebar) <==> window.shows_sidebar(
            cx,
        ) && !cx.sidebar_focused,
        window.sidebar_focus_effects(cx) == window.focus_effects(cx) <==> window.shows_sidebar(cx)
            && cx.sidebar_focused,
        window.sidebar_focus_effects(cx) == Seq::<Effect>::empty() <==> !window.shows_sidebar(cx),
{
    let effects = window.sidebar_focus_effects(cx);
    if window.shows_sidebar(cx) && !cx.sidebar_focused {
        assert(effects[0] == Effect::FocusSidebar);
        assert(window.focus_effects(cx)[0] != Effect::FocusSidebar);
    }
    if !window.shows_sidebar(cx) {
        assert(window.focus_effects(cx).len() == 1);
    } else {
        assert(effects.len() == 1);
    }
}

/// The name in the id of an entry differs from those in the ids of folders.
proof fn entry_names_are_their_own(index: nat)
    ensures
        "entry-"@ + crate::text::decimal(index) != "folder-header"@,
        "entry-"@ + crate::text::decimal(index) != "folder-chevron"@,
{
    reveal_strlit("entry-");
    reveal_strlit("folder-header");
    reveal_strlit("folder-chevron");
    let name = "entry-"@ + crate::text::decimal(index);
    assert(name[0] == 'e');
    assert("folder-header"@[0] == 'f');
    assert("folder-chevron"@[0] == 'f');
}

/// No two elements of a sidebar have the same id.
pub proof fn element_ids_are_unique(
    window: WindowModel,
    projects: Seq<Project>,
    i: int,
    j: int,
    a: int,
    b: int,
)
    requires
        0 <= i < window.workspaces.len(),
        0 <= j < window.workspaces.len(),
    ensures
        ({
            let folders = SidebarModel::of(window, projects).folders;
            &&& folders[i].header_id != folders[j].chevron_id
            &&& folders[i].header_id == folders[j].header_id ==> i == j
            &&& folders[i].chevron_id == folders[j].chevron_id ==> i == j
            &&& 0 <= a < folders[i].entries.len() ==> folders[i].entries[a].id
                != folders[j].header_id && folders[i].entries[a].id != folders[j].chevron_id
            &&& 0 <= a < folders[i].entries.len() && 0 <= b < folders[j].entries.len()
                && folders[i].entries[a].id == folders[j].entries[b].id ==> i == j && a == b
        }),
{
    reveal_strlit("folder-header");
    reveal_strlit("folder-chevron");
    assert("folder-header"@[7] != "folder-chevron"@[7]);
    entry_names_are_their_own(i as nat);
    let folders = SidebarModel::of(window, projects).folders;
    if 0 <= a < folders[i].entries.len() && 0 <= b < folders[j].entries.len()
        && folders[i].entries[a].id == folders[j].entries[b].id {
        let prefix = "entry-"@;
        let of_i = prefix + crate::text::decimal(i as nat);
        let of_j = prefix + crate::text::decimal(j as nat);
        assert(of_i == of_j);
        assert(of_i.skip(prefix.len() as int) =~= crate::text::decimal(i as nat));
        assert(of_j.skip(prefix.len() as int) =~= crate::text::decimal(j as nat));
        crate::text::decimal_is_injective(i as nat, j as nat);
    }
}

} // verus!
