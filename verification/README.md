# laufey

The core of a desktop windowing layer, written in Rust and verified with Verus.

A *runtime* is an embedder's program: it creates windows, menus, tray icons and
notifications, and binds functions that page scripts call. A *backend* owns the
native windows and the event loop. The two meet at a C table of entry points.
This crate is the logic of both sides, as functions on plain values:

- `src/` is the library. Its functions carry contracts that Verus proves; the few
  that wrap a function of another crate say in their comments what they claim of
  it.
  - Values and how they cross: `value`, `raw_value`, `convert`, `api`, `float`,
    `text`, `text_map`.
  - The backend: `backend`, `window_state`, `window_ops`, `event_loop`,
    `dispatch`, `keyboard`, `modifier_keys`, `mouse`, `composition`, `handles`,
    `shell`, `menu`, `menu_build`, `native_dialog`, `clipboard`, `loader`,
    `platform`.
  - The runtime: `runtime`, `window`, `events`, `ime`, `js`, `dialog`, `dock`,
    `tray`, `notification`, `permission`, `scheme`, `pdf`.
- `tests/` runs the library on concrete values.
- `app/` is the program around it: winit windows, muda menus, rfd dialogs, the C
  entry points and the loader of the runtime library.

The library touches nothing outside itself. On the runtime's side a function that
calls the backend appends a `BackendCall` to `Runtime::calls`, or returns a
`Query` where it needs the reply. On the backend's side functions update
`Backend` and queue `CommonEvent`s; the event loop asks `App` what each event
comes to, and does it. Handlers are words: `Callback` for C functions, `HandlerId`
for an embedder's closures.

Besides the functions' own contracts, the library states what holds across them
as public proof functions: values and menu templates that cross the boundary
arrive as they were, settings read back, an enter event waits for a position, a
PDF request is resolved exactly once, a modifier key is told once, compositions
come in sequence, and so on.
