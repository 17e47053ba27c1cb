# sickle_ui

The decision logic of the sickle UI widgets for bevy, written in Verus and
checked against its contracts: what each widget does with the pointer
interactions, drags, key presses and hierarchy changes it is handed.

## Layout

- `src/` — the verified library.
  - `context.rs`: looking a widget's named sub-node up, and the error for an
    unknown name.
  - `entity.rs`, `interaction.rs`: entities as bits, and the interaction and
    display states as plain enums.
  - `input.rs`: key codes and their labels, keyboard shortcuts, and when a
    pointer went down or up, read from bevy's `Input` and `Touches`.
  - `widgets/`: one module per widget (checkbox, radio groups, dropdown, menus
    and submenus, tab container, foldable, floating panel, docking zone,
    flexible rows and columns, resize handles, scroll container, panel).
    Each states its rules as spec functions, its operations against them, and
    the laws that span operations as proof functions.
- `tests/` — tests on concrete values, run against bevy's input types.
- `app/` — the bevy side: conversions between bevy's types and the library's,
  the sizes, positions, timers and sliders (which are `f32`), and bevy systems
  for part of the widgets (checkbox, resize cursor, floating panels, menus,
  submenus and tab dragging). The widgets' builders, themes and plugins, and
  the systems of the other widgets, are not part of this crate.
