# thyme_core

The verified core of an immediate mode GUI with retained widget state.

- `src/` is the library, with its contracts and proofs:
  - `geom`: points, rectangles, borders, colors, alignments and layouts; the
    anchors an alignment picks and the direction a child moves its parent's
    layout cursor.
  - `anim`: animation state keys and the per-frame `WidgetState` of a widget.
  - `state`: the persistent state of a widget and the modal popup record.
  - `context`: the context's input state machine (mouse buttons, clicks, wheel,
    keyboard focus, modal popups, render group ordering, persistent states),
    with laws about clicks, popups and initial states.
  - `font`: parsed font sources (through `rusttype`) and glyph tables.
  - `builder`: registration of fonts and textures.
  - `widget`: widgets, their creation from a theme, and the widget builder.
  - `text`: the word wrapping decisions of text layout.
- `app/` holds what computes with `f32` values or the clock: widget geometry,
  the text renderer that carries out the layout decisions, frame timing, and the
  serde forms of the theme's value types.

Coordinates are carried in the library as the bit patterns of their `f32`
values; the library stores and compares them but does no arithmetic on them.
