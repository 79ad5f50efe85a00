# multi_workspace

The state of an editor window that holds several workspaces, written in Verus.

A window shows one of its workspaces and lists all of them as folders in a
sidebar. The library decides what each operation does to the window (adding,
activating, creating and removing workspaces, opening folders and projects,
closing the window, drawing the sidebar) and which effects the editor has to
carry out for it, in which order.

- `src/multi_workspace.rs`: the window and its operations.
- `src/window_model.rs`: the window as a mathematical value; the contracts speak of it.
- `src/context.rs`, `src/workspace.rs`, `src/ids.rs`: what a window reads, and the effects it asks for.
- `src/closing.rs`, `src/folders.rs`: operations of several steps.
- `src/sidebar.rs`, `src/text.rs`, `src/actions.rs`: the sidebar and the actions.
- `src/laws/`: what holds across operations, as proof functions.
- `app/`: runs windows in an editor that implements the trait `Editor`.
- `tests/`: the library on concrete values.
