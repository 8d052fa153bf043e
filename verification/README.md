# dopamine

Verified core of an in-process toolkit for a Source-engine game client (chams, glow,
bunnyhop, model changer, custom crosshair, an immediate-mode menu).

The game, Direct3D 9, Win32 and the UI library are reached through the process they run
in; the library decides and the caller acts. Each drawing feature returns the ordered list
of engine calls it makes (`render::RenderQueue`, `features::chams::ChamsStep`); each hook
that alternates outside calls with decisions is a small state machine (`hooks`); the
window-message handler of the UI returns its system calls and input events as
`win32::WindowStep`s.

- `src/` — the library, verified with Verus. Specifications are spec functions over
  sequences and plain values; the laws that span several functions are public proof
  functions named `law_*`.
- `tests/` — tests on concrete values.
- `app/` — glue around the library that Verus does not see: the configuration file
  (serde), logging, the floating-point geometry (crosshair, projection, glow fade, menu
  fade) and the drivers that carry out the library's decisions.
