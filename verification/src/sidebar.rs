//! The sidebar, which lists the workspaces of a window as folders, and the
//! window around it.

use vstd::prelude::*;
use vstd::string::*;

use crate::context::{multi_workspace_enabled, Context, ContextModel, Effect};
use crate::ids::EntityId;
use crate::multi_workspace::MultiWorkspace;
use crate::text::decimal_text;
use crate::window_model::WindowModel;

verus! {

/// A file or directory of a worktree.
#[derive(Debug, PartialEq, Eq)]
pub struct Entry {
    /// The components of its path, from the root of the worktree; none for the
    /// root itself.
    pub path: Vec<String>,
    pub is_dir: bool,
}

impl Entry {
    /// The entry is the root of the worktree or lies directly in it.
    pub open spec fn is_top(self) -> bool {
        self.path@.len() <= 1
    }

    /// The name of the entry: the last component of its path, or the name of
    /// the worktree for the root.
    pub open spec fn name(self, root_name: Seq<char>) -> Seq<char> {
        if self.path@.len() > 0 {
            self.path@.last()@
        } else {
            root_name
        }
    }

    /// The last component of the path, if it has one.
    pub fn file_name(&self) -> (name: Option<&String>)
        ensures
            name == (if self.path@.len() > 0 {
                Some(&self.path@.last())
            } else {
                None
            }),
    {
        if self.path.len() > 0 {
            Some(&self.path[self.path.len() - 1])
        } else {
            None
        }
    }
}

/// A directory tree of a project.
#[derive(Debug, PartialEq, Eq)]
pub struct Worktree {
    pub root_name: String,
    pub entries: Vec<Entry>,
}

/// A git repository.
#[derive(Debug, PartialEq, Eq)]
pub struct Repository {
    /// Name of the branch that is checked out, if there is one.
    pub branch: Option<String>,
}

/// What the sidebar reads of a workspace: its project, and what its terminals
/// do.
#[derive(Debug, PartialEq, Eq)]
pub struct Project {
    pub worktrees: Vec<Worktree>,
    pub active_repository: Option<Repository>,
    /// A terminal of the workspace is active.
    pub terminal_active: bool,
}

/// An optional text.
pub open spec fn text_of(text: Option<String>) -> Option<Seq<char>> {
    match text {
        Some(text) => Some(text@),
        None => None,
    }
}

impl Project {
    /// A workspace is named after the first worktree of its project.
    pub open spec fn folder_name(self) -> Seq<char> {
        if self.worktrees@.len() > 0 {
            self.worktrees@[0].root_name@
        } else {
            "Untitled"@
        }
    }

    /// The branch of the active repository, if it is on one.
    pub open spec fn branch_name(self) -> Option<Seq<char>> {
        match self.active_repository {
            Some(repository) => text_of(repository.branch),
            None => None,
        }
    }

    /// The root of a worktree and what lies directly in it, by name, and
    /// whether each is a directory.
    pub open spec fn top_entries(entries: Seq<Entry>, root_name: Seq<char>) -> Seq<
        (Seq<char>, bool),
    > {
        entries.filter(|entry: Entry| entry.is_top()).map_values(
            |entry: Entry| (entry.name(root_name), entry.is_dir),
        )
    }

    /// The top entries of several worktrees, one worktree after the other.
    pub open spec fn children(worktrees: Seq<Worktree>) -> Seq<(Seq<char>, bool)>
        decreases worktrees.len(),
    {
        if worktrees.len() == 0 {
            seq![]
        } else {
            Self::children(worktrees.drop_last()) + Self::top_entries(
                worktrees.last().entries@,
                worktrees.last().root_name@,
            )
        }
    }
}

/// Entries by name, and whether each is a directory.
pub open spec fn named_entries(entries: Seq<(String, bool)>) -> Seq<(Seq<char>, bool)> {
    entries.map_values(|entry: (String, bool)| (entry.0@, entry.1))
}

/// Appends the top entries of a worktree.
fn push_top_entries(worktree: &Worktree, children: &mut Vec<(String, bool)>)
    ensures
        named_entries(final(children)@) == named_entries(old(children)@) + Project::top_entries(
            worktree.entries@,
            worktree.root_name@,
        ),
{
    let ghost at_top = |entry: Entry| entry.is_top();
    let ghost entries = worktree.entries@;
    let mut i: usize = 0;
    while i < worktree.entries.len()
        invariant
            i <= entries.len(),
            entries == worktree.entries@,
            at_top == (|entry: Entry| entry.is_top()),
            named_entries(children@) == named_entries(old(children)@) + Project::top_entries(
                entries.take(i as int),
                worktree.root_name@,
            ),
        decreases entries.len() - i,
    {
        let entry = &worktree.entries[i];
        let ghost before = children@;
        proof {
            reveal(Seq::filter);
            assert(entries.take(i + 1).drop_last() =~= entries.take(i as int));
        }
        let depth: usize = entry.path.len();
        if depth <= 1 {
            let name = match entry.file_name() {
                Some(name) => name.clone(),
                None => worktree.root_name.clone(),
            };
            children.push((name, entry.is_dir));
            assert(named_entries(children@) =~= named_entries(before).push(
                (name@, entry.is_dir),
            ));
            assert(entries.take(i + 1).filter(at_top) =~= entries.take(i as int).filter(
                at_top,
            ).push(*entry));
        }
        i += 1;
    }
    assert(entries.take(i as int) =~= entries);
}

impl MultiWorkspace {
    /// Name of a workspace in the sidebar.
    pub fn folder_name_for_workspace(project: &Project) -> (name: String)
        ensures
            name@ == project.folder_name(),
    {
        if project.worktrees.len() > 0 {
            project.worktrees[0].root_name.clone()
        } else {
            "Untitled".to_owned()
        }
    }

    /// Branch that a workspace is on.
    pub fn branch_for_workspace(project: &Project) -> (branch: Option<String>)
        ensures
            text_of(branch) == project.branch_name(),
    {
        match &project.active_repository {
            Some(repository) => match &repository.branch {
                Some(branch) => Some(branch.clone()),
                None => None,
            },
            None => None,
        }
    }
}

/// What the sidebar shows of one workspace.
#[derive(Debug, PartialEq, Eq)]
pub struct FolderData {
    pub folder_name: String,
    pub branch_name: Option<String>,
    pub terminal_active: bool,
    pub is_active: bool,
    pub is_expanded: bool,
    /// Names, and whether each is a directory.
    pub children: Vec<(String, bool)>,
}

/// The value of a [`FolderData`].
#[verifier::ext_equal]
pub struct FolderDataModel {
    pub folder_name: Seq<char>,
    pub branch_name: Option<Seq<char>>,
    pub terminal_active: bool,
    pub is_active: bool,
    pub is_expanded: bool,
    pub children: Seq<(Seq<char>, bool)>,
}

impl View for FolderData {
    type V = FolderDataModel;

    open spec fn view(&self) -> FolderDataModel {
        FolderDataModel {
            folder_name: self.folder_name@,
            branch_name: text_of(self.branch_name),
            terminal_active: self.terminal_active,
            is_active: self.is_active,
            is_expanded: self.is_expanded,
            children: named_entries(self.children@),
        }
    }
}

impl FolderDataModel {
    /// What the sidebar shows of the workspace at `index` of a window, whose
    /// project is `project`. A folder that is not expanded has no children.
    pub open spec fn of(window: WindowModel, index: int, project: Project) -> FolderDataModel {
        FolderDataModel {
            folder_name: project.folder_name(),
            branch_name: project.branch_name(),
            terminal_active: project.terminal_active,
            is_active: index == window.active,
            is_expanded: window.folder_expanded(index),
            children: if window.folder_expanded(index) {
                Project::children(project.worktrees@)
            } else {
                seq![]
            },
        }
    }
}

/// Identifies an element of the window while it is drawn.
#[derive(Debug, PartialEq, Eq)]
pub struct ElementId {
    pub name: String,
    pub index: usize,
}

impl View for ElementId {
    type V = (Seq<char>, int);

    open spec fn view(&self) -> (Seq<char>, int) {
        (self.name@, self.index as int)
    }
}

/// One file or directory below a folder of the sidebar.
#[derive(Debug, PartialEq, Eq)]
pub struct EntryRow {
    pub id: ElementId,
    pub prefix: &'static str,
    pub name: String,
}

/// The value of an [`EntryRow`].
pub struct EntryRowModel {
    pub id: (Seq<char>, int),
    pub prefix: Seq<char>,
    pub name: Seq<char>,
}

impl View for EntryRow {
    type V = EntryRowModel;

    open spec fn view(&self) -> EntryRowModel {
        EntryRowModel { id: self.id@, prefix: self.prefix@, name: self.name@ }
    }
}

/// A click in the sidebar.
#[derive(Clone, Copy, Debug, PartialEq, Eq, Structural)]
pub enum SidebarClick {
    /// On the header of the folder at this index.
    Header(usize),
    /// On the chevron of the folder at this index.
    Chevron(usize),
}

/// One folder of the sidebar: a header with a chevron in it, and below it the
/// entries. A click on either is reported to
/// [`MultiWorkspace::on_sidebar_click`].
#[derive(Debug, PartialEq, Eq)]
pub struct FolderRow {
    pub header_id: ElementId,
    /// What a click on the header is reported as.
    pub header_click: SidebarClick,
    pub chevron_id: ElementId,
    /// What a click on the chevron is reported as.
    pub chevron_click: SidebarClick,
    pub chevron: &'static str,
    /// The header is drawn as selected.
    pub selected: bool,
    pub name: String,
    pub branch: Option<String>,
    /// The header has the mark of an active terminal.
    pub terminal_active: bool,
    /// Drawn below the header, indented, where there are any.
    pub entries: Vec<EntryRow>,
}

/// The value of a [`FolderRow`].
#[verifier::ext_equal]
pub struct FolderRowModel {
    pub header_id: (Seq<char>, int),
    pub header_click: SidebarClick,
    pub chevron_id: (Seq<char>, int),
    pub chevron_click: SidebarClick,
    pub chevron: Seq<char>,
    pub selected: bool,
    pub name: Seq<char>,
    pub branch: Option<Seq<char>>,
    pub terminal_active: bool,
    pub entries: Seq<EntryRowModel>,
}

impl View for FolderRow {
    type V = FolderRowModel;

    open spec fn view(&self) -> FolderRowModel {
        FolderRowModel {
            header_id: self.header_id@,
            header_click: self.header_click,
            chevron_id: self.chevron_id@,
            chevron_click: self.chevron_click,
            chevron: self.chevron@,
            selected: self.selected,
            name: self.name@,
            branch: text_of(self.branch),
            terminal_active: self.terminal_active,
            entries: self.entries@.map_values(|entry: EntryRow| entry@),
        }
    }
}

impl EntryRowModel {
    /// The row of the child at `child_index` of the folder at `index`.
    pub open spec fn of(index: int, child_index: int, child: (Seq<char>, bool)) -> EntryRowModel {
        EntryRowModel {
            id: ("entry-"@ + crate::text::decimal(index as nat), child_index),
            prefix: if child.1 {
                "📁 "@
            } else {
                "📄 "@
            },
            name: child.0,
        }
    }
}

impl FolderRowModel {
    /// How the folder at `index` is drawn.
    pub open spec fn of(index: int, folder: FolderDataModel) -> FolderRowModel {
        FolderRowModel {
            header_id: ("folder-header"@, index),
            header_click: SidebarClick::Header(index as usize),
            chevron_id: ("folder-chevron"@, index),
            chevron_click: SidebarClick::Chevron(index as usize),
            chevron: if folder.is_expanded {
                "v"@
            } else {
                ">"@
            },
            selected: folder.is_active,
            name: folder.folder_name,
            branch: folder.branch_name,
            terminal_active: folder.terminal_active,
            entries: if folder.is_expanded {
                Seq::new(
                    folder.children.len(),
                    |child_index: int|
                        EntryRowModel::of(index, child_index, folder.children[child_index]),
                )
            } else {
                seq![]
            },
        }
    }
}

/// The sidebar of a window.
#[derive(Debug, PartialEq, Eq)]
pub struct Sidebar {
    /// In pixels.
    pub width: u32,
    pub title: &'static str,
    /// Identifies the list of folders, which can be scrolled.
    pub list_id: &'static str,
    pub folders: Vec<FolderRow>,
}

/// The value of a [`Sidebar`].
#[verifier::ext_equal]
pub struct SidebarModel {
    pub width: u32,
    pub title: Seq<char>,
    pub list_id: Seq<char>,
    pub folders: Seq<FolderRowModel>,
}

impl View for Sidebar {
    type V = SidebarModel;

    open spec fn view(&self) -> SidebarModel {
        SidebarModel {
            width: self.width,
            title: self.title@,
            list_id: self.list_id@,
            folders: self.folders@.map_values(|folder: FolderRow| folder@),
        }
    }
}

impl SidebarModel {
    /// The sidebar of a window: one folder for each workspace, in their order.
    /// `projects[i]` is the project of the workspace at `i`.
    pub open spec fn of(window: WindowModel, projects: Seq<Project>) -> SidebarModel {
        SidebarModel {
            width: window.sidebar_width,
            title: "WORKSPACES"@,
            list_id: "workspace-sidebar-entries"@,
            folders: Seq::new(
                window.workspaces.len(),
                |i: int| FolderRowModel::of(i, FolderDataModel::of(window, i, projects[i])),
            ),
        }
    }
}

impl FolderData {
    /// How the folder at `index` is drawn.
    pub fn row(self, index: usize) -> (row: FolderRow)
        ensures
            row@ == FolderRowModel::of(index as int, self@),
    {
        let ghost folder = self@;
        let chevron: &'static str = if self.is_expanded {
            "v"
        } else {
            ">"
        };
        let mut entries: Vec<EntryRow> = Vec::new();
        if self.is_expanded {
            let mut i: usize = 0;
            while i < self.children.len()
                invariant
                    i <= self.children@.len(),
                    folder == self@,
                    entries@.len() == i,
                    forall|j: int|
                        0 <= j < i ==> (#[trigger] entries@[j])@ == EntryRowModel::of(
                            index as int,
                            j,
                            folder.children[j],
                        ),
                decreases self.children@.len() - i,
            {
                let prefix: &'static str = if self.children[i].1 {
                    "📁 "
                } else {
                    "📄 "
                };
                let name = "entry-".to_owned().concat(decimal_text(index).as_str());
                entries.push(
                    EntryRow {
                        id: ElementId { name, index: i },
                        prefix,
                        name: self.children[i].0.clone(),
                    },
                );
                i += 1;
            }
        }
        FolderRow {
            header_id: ElementId { name: "folder-header".to_owned(), index },
            header_click: SidebarClick::Header(index),
            chevron_id: ElementId { name: "folder-chevron".to_owned(), index },
            chevron_click: SidebarClick::Chevron(index),
            chevron,
            selected: self.is_active,
            name: self.folder_name,
            branch: self.branch_name,
            terminal_active: self.terminal_active,
            entries,
        }
    }
}

/// A window as it is drawn.
#[derive(Debug, PartialEq, Eq)]
pub struct WindowView {
    /// The sidebar, where it is shown, left of the workspace.
    pub sidebar: Option<Sidebar>,
    /// The workspace that is shown. Its actions, its key context and its modal
    /// layer are those of the window.
    pub workspace: EntityId,
}

impl WindowModel {
    /// The sidebar is drawn: the user has it open, and there is a choice of
    /// workspaces.
    pub open spec fn shows_sidebar(self, cx: ContextModel) -> bool {
        self.sidebar_visible && self.workspaces.len() > 1 && cx.multi_workspace_enabled()
    }

    /// Where the sidebar is drawn, the focus moves to it, or back to the active
    /// workspace if the sidebar has it.
    pub open spec fn sidebar_focus_effects(self, cx: ContextModel) -> Seq<Effect> {
        if !self.shows_sidebar(cx) {
            seq![]
        } else if cx.sidebar_focused {
            self.focus_effects(cx)
        } else {
            seq![Effect::FocusSidebar]
        }
    }

    /// The window after a click in the sidebar: one on a header shows the
    /// workspace, one on a chevron shows or hides the entries.
    pub open spec fn clicked(self, click: SidebarClick, cx: ContextModel) -> WindowModel {
        match click {
            SidebarClick::Header(index) => self.with_active(index as int).saved_by(cx.task(0)),
            SidebarClick::Chevron(index) => self.with_folder_toggled(index as int),
        }
    }

    /// The context after a click in the sidebar.
    pub open spec fn context_after_click(
        self,
        click: SidebarClick,
        cx: ContextModel,
    ) -> ContextModel {
        match click {
            SidebarClick::Header(index) => cx.after(
                1,
                self.activate_index_effects(index as int, cx),
            ),
            SidebarClick::Chevron(index) => if index < self.expanded.len() {
                cx.after(0, seq![Effect::Notify])
            } else {
                cx
            },
        }
    }
}

impl MultiWorkspace {
    /// What the sidebar shows of the workspace at `index`.
    fn folder_data(&self, index: usize, project: &Project) -> (data: FolderData)
        ensures
            data@ == FolderDataModel::of(self@, index as int, *project),
    {
        let is_active = index == self.active_workspace_index();
        let is_expanded = self.folder_expanded(index);
        let folder_name = Self::folder_name_for_workspace(project);
        let branch_name = Self::branch_for_workspace(project);
        let mut children: Vec<(String, bool)> = Vec::new();
        assert(named_entries(children@) =~= seq![]);
        if is_expanded {
            let ghost worktrees = project.worktrees@;
            let mut i: usize = 0;
            while i < project.worktrees.len()
                invariant
                    i <= worktrees.len(),
                    worktrees == project.worktrees@,
                    named_entries(children@) == Project::children(worktrees.take(i as int)),
                decreases worktrees.len() - i,
            {
                push_top_entries(&project.worktrees[i], &mut children);
                assert(worktrees.take(i + 1).drop_last() =~= worktrees.take(i as int));
                i += 1;
            }
            assert(worktrees.take(i as int) =~= worktrees);
        }
        FolderData {
            folder_name,
            branch_name,
            terminal_active: project.terminal_active,
            is_active,
            is_expanded,
            children,
        }
    }

    /// The sidebar. `projects[i]` is the project of the workspace at `i`; its
    /// entries are read only where the folder is expanded.
    pub fn render_sidebar(&self, projects: &Vec<Project>) -> (sidebar: Sidebar)
        requires
            projects@.len() == self@.workspaces.len(),
        ensures
            sidebar@ == SidebarModel::of(self@, projects@),
    {
        let mut folders: Vec<FolderRow> = Vec::new();
        let mut i: usize = 0;
        while i < projects.len()
            invariant
                i <= projects@.len(),
                folders@.len() == i,
                forall|j: int|
                    0 <= j < i ==> (#[trigger] folders@[j])@ == FolderRowModel::of(
                        j,
                        FolderDataModel::of(self@, j, projects@[j]),
                    ),
            decreases projects@.len() - i,
        {
            folders.push(self.folder_data(i, &projects[i]).row(i));
            i += 1;
        }
        Sidebar {
            width: self.sidebar_width(),
            title: "WORKSPACES",
            list_id: "workspace-sidebar-entries",
            folders,
        }
    }

    /// Hears of a click in the sidebar: one on a header is answered by
    /// [`MultiWorkspace::activate_index`], one on a chevron by
    /// [`MultiWorkspace::toggle_folder_expanded`].
    pub fn on_sidebar_click(&mut self, click: SidebarClick, cx: &mut Context)
        requires
            old(self)@.wf(),
            click matches SidebarClick::Header(index) ==> index < old(self)@.workspaces.len()
                && old(cx)@.has(old(self)@.workspaces[index as int]) && old(cx)@.can_spawn(1),
        ensures
            final(self)@.wf(),
            final(self)@ == old(self)@.clicked(click, old(cx)@),
            final(cx)@ == old(self)@.context_after_click(click, old(cx)@),
    {
        match click {
            SidebarClick::Header(index) => self.activate_index(index, cx),
            SidebarClick::Chevron(index) => self.toggle_folder_expanded(index, cx),
        }
    }

    /// Moves the focus to the sidebar, or from it to the active workspace. The
    /// sidebar stays open; where it is not drawn, nothing happens.
    pub fn focus_sidebar(&self, cx: &mut Context)
        requires
            self@.wf(),
            old(cx)@.has(self@.active_workspace()),
        ensures
            final(cx)@ == old(cx)@.after(0, self@.sidebar_focus_effects(old(cx)@)),
    {
        if self.shows_sidebar(cx) {
            if cx.sidebar_focused {
                self.focus_active_workspace(cx);
            } else {
                cx.request(Effect::FocusSidebar);
            }
        }
    }

    /// Whether the sidebar is drawn.
    pub fn shows_sidebar(&self, cx: &Context) -> (shows: bool)
        ensures
            shows == self@.shows_sidebar(cx@),
    {
        self.sidebar_visible() && self.workspaces().len() > 1 && multi_workspace_enabled(cx)
    }

    /// The window as it is drawn. The projects are read only where the sidebar
    /// is.
    pub fn render(&self, projects: &Vec<Project>, cx: &Context) -> (view: WindowView)
        requires
            self@.wf(),
            self@.shows_sidebar(cx@) ==> projects@.len() == self@.workspaces.len(),
        ensures
            view.workspace == self@.active_workspace(),
            view.sidebar is Some <==> self@.shows_sidebar(cx@),
            view.sidebar matches Some(sidebar) ==> sidebar@ == SidebarModel::of(self@, projects@),
    {
        let sidebar = if self.shows_sidebar(cx) {
            Some(self.render_sidebar(projects))
        } else {
            None
        };
        WindowView { sidebar, workspace: self.workspace() }
    }
}

} // verus!
