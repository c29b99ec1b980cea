# canoe

A stacking window manager for the River compositor. The compositor does the
compositing; canoe decides which window has the focus, where windows go, what
their frames, menus and desktops look like, and what key and button bindings do.

## Layout

- `src/` is the window manager without its input and output. Every function has a
  contract that Verus proves.
  - `canoe/context/` is the state of the window manager and what happens to it.
    A `Context` keeps windows, outputs and seats in tables and collects the
    requests for the compositor. Its view is a `ContextView`; each operation is
    stated as a step from one view to the next.
  - `canoe/` holds what a window, a seat, an output, a titlebar, a menu, a desktop
    and a shadow are, and how they are drawn: a picture is a list of things to
    paint, in order.
  - `dispatch/` turns what the compositor reports into steps of the context.
  - `binding/`, `config/` and `rule.rs` are bindings, settings and window rules.
  - `protocol.rs` lists the requests.
- Laws that relate several operations are the public proof functions whose names
  begin with `law_`. Those of the whole window manager stand in
  `canoe/context/laws.rs` and `dispatch/laws.rs`.
- `app/` is the program around the library: the connection to the compositor,
  files, fonts, shared memory and signals.
- `tests/` runs the library.

Functions marked `#[verifier::external_body]` call into other crates or the
standard library; what their contracts say is not proved here.

Windows, outputs and seats are known by ids that are never used twice. Protocol
objects are plain numbers. Where a length is scaled or a text measured, the
function takes the scaling or the advance of a character as an argument, so that
no floating point is needed in the library.
