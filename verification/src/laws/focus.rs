//! Where the keyboard focus goes.

use std::path::PathBuf;
use vstd::prelude::*;

use crate::context::{ContextModel, Effect};
use crate::ids::{EntityId, FocusHandle, WorkspaceId};
use crate::sidebar::SidebarClick;
use crate::window_model::WindowModel;
use crate::workspace::{Dock, Workspace};

verus! {

/// The dock is open, and its panel is zoomed.
pub open spec fn zoomed(dock: Dock) -> bool {
    dock.is_open && dock.active_panel is Some && dock.active_panel->0.is_zoomed
}

/// A dock shows a zoomed panel only while it is open and its panel is zoomed.
pub proof fn a_closed_dock_shows_no_panel(dock: Dock)
    ensures
        !dock.is_open ==> !dock.shows_zoomed_panel(),
        dock.active_panel is None ==> !dock.shows_zoomed_panel(),
        dock.is_open && dock.active_panel is Some ==> dock.shows_zoomed_panel()
            == dock.active_panel->0.is_zoomed,
{
}

/// `handle` is that of the zoomed panel of `docks[i]`, and no dock before it
/// has one.
pub open spec fn first_zoomed_is(docks: Seq<Dock>, i: int, handle: FocusHandle) -> bool {
    &&& 0 <= i < docks.len()
    &&& zoomed(docks[i])
    &&& forall|j: int| 0 <= j < i ==> !zoomed(#[trigger] docks[j])
    &&& handle == docks[i].active_panel->0.focus_handle
}

/// The focus of a workspace belongs to `handle`: to the zoomed panel of its
/// first dock that has one, and to its active pane only where none has.
pub open spec fn focus_belongs_to(workspace: Workspace, handle: FocusHandle) -> bool {
    ||| exists|i: int| first_zoomed_is(workspace.docks@, i, handle)
    ||| (forall|i: int| 0 <= i < workspace.docks@.len() ==> !zoomed(#[trigger] workspace.docks@[i]))
        && handle == workspace.active_pane
}

/// The focus belongs to one handle.
pub proof fn focus_belongs_to_one(workspace: Workspace, a: FocusHandle, b: FocusHandle)
    requires
        focus_belongs_to(workspace, a),
        focus_belongs_to(workspace, b),
    ensures
        a == b,
{
    let docks = workspace.docks@;
    if exists|i: int| first_zoomed_is(docks, i, a) {
        let i = choose|i: int| first_zoomed_is(docks, i, a);
        assert(zoomed(docks[i]));
        let j = choose|j: int| first_zoomed_is(docks, j, b);
        assert(zoomed(docks[j]));
        assert(i == j);
    } else if exists|j: int| first_zoomed_is(docks, j, b) {
        let j = choose|j: int| first_zoomed_is(docks, j, b);
        assert(zoomed(docks[j]));
    }
}

/// The focus moves once, and it moves to `handle`.
pub open spec fn focus_moves_to(effects: Seq<Effect>, handle: FocusHandle) -> bool {
    &&& effects.contains(Effect::Focus(handle))
    &&& forall|i: int, j: int|
        #![trigger effects[i], effects[j]]
        0 <= i < effects.len() && 0 <= j < effects.len() && effects[i] is Focus
            && effects[j] is Focus ==> i == j
    &&& forall|i: int| 0 <= i < effects.len() ==> !(#[trigger] effects[i] is FocusSidebar)
}

/// The focus stays where it is.
pub open spec fn focus_stays(effects: Seq<Effect>) -> bool {
    forall|i: int|
        0 <= i < effects.len() ==> !(#[trigger] effects[i] is Focus)
            && !(effects[i] is FocusSidebar)
}

/// The focus moves once, to where it belongs in the workspace that is active in
/// `window`.
pub open spec fn focus_moves_to_active(
    effects: Seq<Effect>,
    window: WindowModel,
    cx: ContextModel,
) -> bool {
    exists|handle: FocusHandle| #[trigger]
        focus_moves_to(effects, handle) && focus_belongs_to(
            cx.workspaces[window.workspaces[window.active].0],
            handle,
        )
}

/// Focusing a workspace moves the focus to where it belongs.
pub proof fn a_workspace_is_focused_where_it_belongs(workspace: Workspace)
    ensures
        focus_belongs_to(workspace, workspace.focus_target()),
{
    let docks = workspace.docks@;
    crate::laws::workspaces::focus_prefers_a_zoomed_panel(workspace);
    if exists|i: int| 0 <= i < docks.len() && zoomed(#[trigger] docks[i]) {
        let i = choose|i: int| 0 <= i < docks.len() && zoomed(#[trigger] docks[i]);
        assert(docks[i].shows_zoomed_panel());
        let first = choose|first: int| #[trigger]
            Workspace::first_zoomed_at(docks, first) && workspace.focus_target()
                == docks[first].active_panel->0.focus_handle;
        assert forall|j: int| 0 <= j < first implies !zoomed(#[trigger] docks[j]) by {
            assert(!docks[j].shows_zoomed_panel());
        }
        assert(first_zoomed_is(docks, first, workspace.focus_target()));
    } else {
        assert forall|i: int| 0 <= i < docks.len() implies !(
        #[trigger] docks[i]).shows_zoomed_panel() by {
            assert(!zoomed(docks[i]));
        }
    }
}

/// A `Focus` in the midst of requests that leave the focus alone moves it.
proof fn one_focus_moves_it(before: Seq<Effect>, handle: FocusHandle, after: Seq<Effect>)
    requires
        focus_stays(before),
        focus_stays(after),
    ensures
        focus_moves_to(before + seq![Effect::Focus(handle)] + after, handle),
{
    let effects = before + seq![Effect::Focus(handle)] + after;
    let k = before.len() as int;
    assert(effects[k] == Effect::Focus(handle));
    assert forall|i: int| 0 <= i < effects.len() && i != k implies !(
    #[trigger] effects[i] is Focus) && !(effects[i] is FocusSidebar) by {
        if i < k {
            assert(effects[i] == before[i]);
        } else {
            assert(effects[i] == after[i - k - 1]);
        }
    }
}

/// Focusing the active workspace moves the focus there.
pub proof fn focusing_focuses_the_active_workspace(window: WindowModel, cx: ContextModel)
    ensures
        focus_moves_to_active(window.focus_effects(cx), window, cx),
{
    let workspace = cx.workspaces[window.workspaces[window.active].0];
    let handle = workspace.focus_target();
    a_workspace_is_focused_where_it_belongs(workspace);
    one_focus_moves_it(seq![], handle, seq![]);
    assert(seq![] + seq![Effect::Focus(handle)] + seq![] =~= window.focus_effects(cx));
    assert(focus_moves_to(window.focus_effects(cx), handle));
}

/// After a removal the focus is in the workspace that is then active, whichever
/// workspace was removed and whichever was active before; without a removal it
/// stays.
pub proof fn removing_focuses_the_active_workspace(
    window: WindowModel,
    index: int,
    cx: ContextModel,
)
    ensures
        window.workspaces.len() > 1 && 0 <= index < window.workspaces.len()
            ==> focus_moves_to_active(
            window.removal_effects(index, cx),
            window.removing(index, cx),
            cx,
        ),
        window.workspaces.len() <= 1 || !(0 <= index < window.workspaces.len()) ==> focus_stays(
            window.removal_effects(index, cx),
        ),
{
    if window.workspaces.len() > 1 && 0 <= index < window.workspaces.len() {
        let after = window.removing(index, cx);
        let effects = window.removal_effects(index, cx);
        let workspace = cx.workspaces[after.workspaces[after.active].0];
        let handle = workspace.focus_target();
        a_workspace_is_focused_where_it_belongs(workspace);
        let k = effects.len() - 4;
        let first = effects.take(k);
        let last = effects.skip(k + 1);
        let record = window.record_at(index, cx);
        let deletion = window.delete_effects(record, cx);
        assert forall|i: int| 0 <= i < first.len() implies !(#[trigger] first[i] is Focus) && !(
        first[i] is FocusSidebar) by {
            if i < deletion.len() {
                assert(first[i] == deletion[i]);
            }
        }
        assert(effects =~= first + seq![Effect::Focus(handle)] + last);
        one_focus_moves_it(first, handle, last);
        assert(focus_moves_to(effects, handle));
    }
}

/// Activating an index, by itself, by a click on the header or as the next or
/// previous one, moves the focus to where it belongs in the workspace at that
/// index.
pub proof fn activating_an_index_focuses_its_workspace(
    window: WindowModel,
    index: usize,
    cx: ContextModel,
)
    ensures
        exists|handle: FocusHandle| #[trigger]
            focus_moves_to(window.activate_index_effects(index as int, cx), handle)
                && focus_belongs_to(
                cx.workspaces[window.workspaces[index as int].0],
                handle,
            ),
        window.context_after_click(SidebarClick::Header(index), cx).effects == cx.effects
            + window.activate_index_effects(index as int, cx),
{
    let effects = window.activate_index_effects(index as int, cx);
    let workspace = cx.workspaces[window.workspaces[index as int].0];
    let handle = workspace.focus_target();
    a_workspace_is_focused_where_it_belongs(workspace);
    let k = effects.len() - window.change_effects(index as int).len() - 1;
    let first = effects.take(k);
    let last = effects.skip(k + 1);
    assert(effects =~= first + seq![Effect::Focus(handle)] + last);
    one_focus_moves_it(first, handle, last);
    assert(focus_moves_to(effects, handle));
}

/// Creating a workspace moves the focus to where it belongs there.
pub proof fn creating_focuses_the_new_workspace(
    window: WindowModel,
    workspace: EntityId,
    cx: ContextModel,
)
    ensures
        exists|handle: FocusHandle| #[trigger]
            focus_moves_to(window.create_effects(workspace, cx), handle) && focus_belongs_to(
                cx.workspaces[workspace.0],
                handle,
            ),
{
    let effects = window.create_effects(workspace, cx);
    let shown = window.with_active_workspace(workspace);
    if !window.workspaces.contains(workspace) {
        crate::laws::workspaces::added_workspace_is_last(window, workspace);
    } else {
        crate::laws::workspaces::workspace_has_index(window, workspace);
    }
    assert(shown.workspaces[shown.active] == workspace);
    let handle = cx.workspaces[workspace.0].focus_target();
    a_workspace_is_focused_where_it_belongs(cx.workspaces[workspace.0]);
    let k = window.set_active_effects(workspace).len() as int;
    let first = effects.take(k);
    let last = effects.skip(k + 1);
    assert(effects =~= first + seq![Effect::Focus(handle)] + last);
    one_focus_moves_it(first, handle, last);
    assert(focus_moves_to(effects, handle));
}

/// Adding and activating a workspace, opening a folder and finding a row leave
/// the focus where it is.
pub proof fn other_operations_leave_the_focus(
    window: WindowModel,
    workspace: EntityId,
    first: bool,
    folder: PathBuf,
    found_for: Option<EntityId>,
    workspace_id: WorkspaceId,
    cx: ContextModel,
)
    ensures
        focus_stays(window.add_effects(workspace)),
        focus_stays(window.set_active_effects(workspace)),
        focus_stays(window.activation_effects(workspace, cx)),
        focus_stays(window.folder_effects(first, folder, workspace, cx)),
        focus_stays(window.row_effects(found_for, workspace_id, cx)),
{
}

/// Where a window has several workspaces, may have them, and has its sidebar
/// open, the focus moves to the sidebar, or from it to the active workspace;
/// anywhere else it stays.
pub proof fn the_sidebar_is_focused_where_it_is_drawn(window: WindowModel, cx: ContextModel)
    ensures
        ({
            let drawn = window.sidebar_visible && window.workspaces.len() > 1
                && cx.multi_workspace_enabled();
            let effects = window.sidebar_focus_effects(cx);
            &&& drawn && !cx.sidebar_focused ==> effects == seq![Effect::FocusSidebar]
            &&& drawn && cx.sidebar_focused ==> focus_moves_to_active(effects, window, cx)
                && effects.len() == 1
            &&& !drawn ==> effects.len() == 0
        }),
{
    focusing_focuses_the_active_workspace(window, cx);
}

} // verus!
