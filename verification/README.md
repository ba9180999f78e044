# dwind

Tailwind-like utility classes for DOMINATOR, with a verified core.

- `src/` is the verified library:
  - `grammar_spec`, `parse`, `grammar`, `scan`, `bounds`, `extension`: the
    `dwclass!` class string grammar, stated as spec parsers over `Seq<char>`,
    implemented by executable parsers proved equal to them, with what each
    parser consumes and how it behaves when more text follows;
  - `media_queries`: breakpoints and media-query conditionals of a class;
  - `codegen`, `string_rendering`, `keyframes`: what each macro declares, as
    plain-data render plans (`ClassTokens`, `GeneratedClass`,
    `RenderedKeyframes`);
  - `theme`, `palette`, `surface`, `input`, `widgets`: the glass theme's CSS
    variables, chart palette, and the style and state decisions of the glass
    components;
  - `laws`, `widgets::laws`: properties that span several functions.
- `app/` parses macro input with `syn`, turns the library's render plans into
  tokens with `quote`, and holds the floating-point chart geometry.
- `tests/` exercises the library from outside.
