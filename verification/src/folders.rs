//! Opening several folders at once, each as a workspace of its own.

use std::path::PathBuf;
use vstd::prelude::*;

use crate::context::{Context, ContextModel, Effect};
use crate::ids::EntityId;
use crate::multi_workspace::MultiWorkspace;
use crate::window_model::WindowModel;

verus! {

/// Folders that are being opened one after the other.
pub struct OpenFolders {
    /// The folders that are left, the next one last.
    stack: Vec<PathBuf>,
    at_first: bool,
}

/// The value of an [`OpenFolders`].
#[verifier::ext_equal]
pub struct OpenFoldersModel {
    /// No folder has its workspace yet.
    pub at_first: bool,
    /// The folders that are left, in their order.
    pub left: Seq<PathBuf>,
}

impl View for OpenFolders {
    type V = OpenFoldersModel;

    closed spec fn view(&self) -> OpenFoldersModel {
        OpenFoldersModel { at_first: self.at_first, left: self.stack@.reverse() }
    }
}

impl OpenFoldersModel {
    /// Each path in its canonical form, or as it is where it has none.
    pub open spec fn canonical(paths: Seq<PathBuf>, resolved: Seq<Option<PathBuf>>) -> Seq<
        PathBuf,
    > {
        Seq::new(
            paths.len(),
            |i: int|
                match resolved[i] {
                    Some(path) => path,
                    None => paths[i],
                },
        )
    }

    /// The folders, before any was opened.
    pub open spec fn begin(folders: Seq<PathBuf>) -> OpenFoldersModel {
        OpenFoldersModel { at_first: true, left: folders }
    }

    /// The folders after the next one got its workspace.
    pub open spec fn next_opened(self) -> OpenFoldersModel {
        OpenFoldersModel { at_first: false, left: self.left.drop_first() }
    }
}

impl OpenFolders {
    /// The folder that is opened next, if one is left.
    pub fn next_folder(&self) -> (folder: Option<&PathBuf>)
        ensures
            folder == (if self@.left.len() > 0 {
                Some(&self@.left[0])
            } else {
                None
            }),
    {
        if self.stack.len() > 0 {
            Some(&self.stack[self.stack.len() - 1])
        } else {
            None
        }
    }
}

impl WindowModel {
    /// The window after the workspace of a folder was created: that of the first
    /// folder becomes active, the others are only added.
    pub open spec fn with_folder(self, first: bool, workspace: EntityId) -> WindowModel {
        if first {
            self.with_active_workspace(workspace)
        } else {
            self.with_workspace(workspace)
        }
    }

    /// The workspace of a folder is shown or added, and a terminal opens in
    /// its center that works in the folder.
    pub open spec fn folder_effects(
        self,
        first: bool,
        folder: PathBuf,
        workspace: EntityId,
        cx: ContextModel,
    ) -> Seq<Effect> {
        (if first {
            self.set_active_effects(workspace)
        } else {
            self.add_effects(workspace)
        }).push(
            Effect::NewCenterTerminal {
                focus: cx.workspace(workspace).active_pane,
                local: false,
                working_directory: Some(folder),
            },
        )
    }

    /// The window after the workspaces of several folders were created.
    pub open spec fn with_folders(self, workspaces: Seq<EntityId>) -> WindowModel
        decreases workspaces.len(),
    {
        if workspaces.len() == 0 {
            self
        } else {
            self.with_folders(workspaces.drop_last()).with_folder(
                workspaces.len() == 1,
                workspaces.last(),
            )
        }
    }

    /// The window after all folders were opened.
    pub open spec fn folders_opened(self) -> WindowModel {
        self.with_sidebar(self.workspaces.len() > 1)
    }
}

impl MultiWorkspace {
    /// Begins to open each given folder path as its own workspace within this
    /// window, with a terminal auto-opened in each workspace's center pane.
    /// `resolved` has the canonical form of each path that has one.
    ///
    /// As long as [`OpenFolders::next_folder`] names a folder, create its
    /// workspace and call [`MultiWorkspace::folder_created`]; then call
    /// [`MultiWorkspace::folders_opened`].
    pub fn open_folders_as_workspaces(
        &self,
        paths: Vec<PathBuf>,
        resolved: Vec<Option<PathBuf>>,
    ) -> (folders: OpenFolders)
        requires
            paths@.len() == resolved@.len(),
        ensures
            folders@ == OpenFoldersModel::begin(OpenFoldersModel::canonical(paths@, resolved@)),
    {
        let ghost canonical = OpenFoldersModel::canonical(paths@, resolved@);
        let ghost all_paths = paths@;
        let ghost all_resolved = resolved@;
        let mut paths = paths;
        let mut resolved = resolved;
        let mut stack: Vec<PathBuf> = Vec::new();
        while paths.len() > 0
            invariant
                paths@.len() == resolved@.len() <= all_paths.len() == all_resolved.len(),
                paths@ == all_paths.take(paths@.len() as int),
                resolved@ == all_resolved.take(paths@.len() as int),
                canonical == OpenFoldersModel::canonical(all_paths, all_resolved),
                stack@.reverse() == canonical.skip(paths@.len() as int),
            decreases paths@.len(),
        {
            let path = paths.pop().unwrap();
            let folder = match resolved.pop().unwrap() {
                Some(canonical_path) => canonical_path,
                None => path,
            };
            assert(folder == canonical[paths@.len() as int]);
            let ghost before = stack@;
            stack.push(folder);
            assert(stack@.reverse() =~= seq![folder] + before.reverse());
        }
        assert(stack@.reverse() =~= canonical);
        OpenFolders { stack, at_first: true }
    }

    /// Takes the workspace that was created for the next folder.
    pub fn folder_created(
        &mut self,
        folders: &mut OpenFolders,
        new_workspace: EntityId,
        cx: &mut Context,
    )
        requires
            old(self)@.wf(),
            old(folders)@.left.len() > 0,
            old(cx)@.has(new_workspace),
        ensures
            final(self)@.wf(),
            final(folders)@ == old(folders)@.next_opened(),
            final(self)@ == old(self)@.with_folder(old(folders)@.at_first, new_workspace),
            final(cx)@ == old(cx)@.after(
                0,
                old(self)@.folder_effects(
                    old(folders)@.at_first,
                    old(folders)@.left[0],
                    new_workspace,
                    old(cx)@,
                ),
            ),
    {
        if folders.at_first {
            self.set_active_workspace(new_workspace, cx);
        } else {
            self.add_workspace(new_workspace, cx);
        }
        let focus = cx.workspace(new_workspace).active_pane;
        let folder = folders.stack.pop().unwrap();
        cx.request(
            Effect::NewCenterTerminal { focus, local: false, working_directory: Some(folder) },
        );
        folders.at_first = false;
        assert(folders@.left =~= old(folders)@.left.drop_first());
    }

    /// Ends the opening of folders: the sidebar is shown if the window has more
    /// than one workspace, and hidden otherwise.
    pub fn folders_opened(&mut self, cx: &mut Context)
        requires
            old(self)@.wf(),
            old(cx)@.has(old(self)@.active_workspace()),
        ensures
            final(self)@.wf(),
            final(self)@ == old(self)@.folders_opened(),
            final(cx)@ == old(cx)@.after(
                0,
                old(self)@.focus_effects(old(cx)@).push(Effect::Notify),
            ),
    {
        self.show_sidebar_for_many();
        self.focus_active_workspace(cx);
        cx.request(Effect::Notify);
    }
}

} // verus!
