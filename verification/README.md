# pixel_dungeon

The rules of a terminal roguelike in the style of Shattered Pixel Dungeon,
written in Verus: every function in `src/` carries a contract that the
verifier proves.

- `src/items/`, `src/basic/`: items, their kinds, values, names, stacking and
  colors.
- `src/world.rs`, `src/store.rs`: the entities of the dungeon and their
  components, kept between frames in a `hecs` world.
- `src/systems/`: the game systems (menus, movement, items in use, stairs and
  level generation, hunger, status effects, AI intents, combat outcomes, field
  of view and the end of the game).
- `src/turn_system.rs`: the energy-driven turn scheduler.
- `src/save.rs`: save slots, save-data validation and migration, auto-save
  timing.
- `src/input.rs`, `src/render.rs`, `src/text.rs`: key bindings and the texts
  and colors the screens show.
- `tests/`: tests of the library on concrete values.
- `app/`: the terminal program (crossterm input, ratatui drawing, file I/O, and
  the parts of the rules that rest on floating point).
