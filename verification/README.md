# heavy

The logic of the Heavy game framework as a verified library: the functions under `src/` state
what they compute in `requires`/`ensures` contracts that Verus proves, and the properties that
span several of them stand as proof functions.

Modules of `src/`:

- `path_clean`: lexical path cleaning (Plan 9 `cleanname` rules), with idempotence and UTF-8
  preservation proved.
- `input`: key codes and their names, bindings of physical inputs to logical axes and buttons,
  and the state of logical buttons with its edge triggers.
- `keyboard`: the key state handed to scripts.
- `egui_input`: which input events the immediate-mode GUI gets, and how its keys, modifiers and
  cursor icons correspond to the framework's.
- `console`: the text the script console answers with.
- `package`: where script modules are looked for along the package path (the search steps
  through the places in order; the first that can be read wins, else the error lists every
  failure), and the cache that keeps a required module from being loaded twice.
- `scene`: the scene stack.
- `graphics`: buffer formats and their `std430` sizes, pipeline layouts and `std140` uniform
  blocks (sized with `crevice`), sprite tags, animation steps and sprite sheets, texture atlases,
  transform stacks, blend modes, textures and buffers, and the packing of glyphs into the rows
  of a font atlas.
- `belltower`: the game's buttons and the decisions of its object editor (which edit buffers
  live on, what a lost focus commits, how an object is labelled).
- `player`: the player controller, a stack of movement states (run, dash, skid, swing) that
  steps each frame and says what it does as a list of effects; a frame steps at most four states.
- `conf`, `spaces`, `friends`, `swappable_cache`, `util`: smaller pieces.

`app/` holds what the library leaves to its callers: arithmetic on floating-point positions
and times (axis smoothing, mouse motion, animation timing), values shared behind locks, the
reading of module files and of console lines, and the conversions to and from the types of the
window (`miniquad`) and GUI (`egui`) crates.
