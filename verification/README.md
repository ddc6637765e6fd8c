# Styled code editor

A verified model of a styled source-code editor component.

- `src/color.rs`: `Hsla`, a colour carried as the bit patterns of its four
  channels.
- `src/style.rs`: the look an input paints with (`InputEditorStyle`), the
  palette a host lays over the theme's (`EditorStyleOverrides::apply_to`) and
  the laws of that overlay: an empty palette changes nothing, laying one twice
  paints as once, palettes on different fields commute, and two palettes
  compose into one where the later wins.
- `src/editor.rs`: the `Editor` builder, whose view is the settings it was
  built with, and `render`, which hands the input the code font first and the
  editor's own style last, then every setting as built.

The values the editor only carries (state handle, style refinement, role,
lengths, fonts, closures, syntax theme) are the associated types of
`EditorParts`. Tests are in `tests/editor.rs`.
