# wie_winapi

Host-side state of an emulated Windows process, with every operation stated in a
contract and proved by Verus: the on-demand state of each emulated DLL, last-error
exchange with the guest's thread blocks, the presenter's window mirror, keyboard and
clipboard state, window classes, and the built-in controls (EDIT with caret,
selection, undo, scroll bar and rows that break at the character that no longer fits;
LISTBOX; BUTTON; STATIC; status bar) with the messages they answer.

## Layout

- `src/state.rs` — the state as a whole, its accessors and the tail of every handler
- `src/dll_state.rs` — one slot per DLL, filled on first use
- `src/process.rs`, `src/kernel.rs`, `src/d3d9.rs`, `src/window.rs`, … — what each
  part of the state holds
- `src/cpu.rs`, `src/heap.rs` — registers, mapped memory and heap of the guest
- `src/text.rs`, `src/lines.rs`, `src/layout.rs` — guest text, logical lines, breaking
  into rows, scrolling and hit testing
- `src/edit.rs`, `src/edit_proc.rs`, `src/caret.rs`, `src/edit_control.rs` — the EDIT
  control: text, messages, caret bar and pending repaints, and the whole
- `src/controls.rs`, `src/dispatch.rs` — all controls, and the delivery of messages to
  them
- `src/menus.rs` — menu trees, loaded from templates or made by the guest
- `src/user32.rs`, `src/registry.rs`, `src/handlers.rs` — window messages,
  accelerators, window classes and creation, registry keys and message boxes
- `tests/` — what the operations do on concrete values
- `app/` — locks, terminal, host files, floating point and message boxes around the
  library

Public proof functions state what holds across operations, for instance that an undo
reverts an edit, that a published last-error value is the one absorbed again, or that
a mirrored window state is clean.
