# pmxview

A PMX model viewer built on a verified library.

- `src/` is the library, verified with Verus:
  - `tokenizer.rs`: the lexer (`Lexar`, `Token`) and the spec functions that
    describe each lexing step; `lexer_laws.rs`: what holds of it on every text;
    `lexer_concat.rs`: texts joined by a space lex to the joined tokens.
  - `glsl.rs`: GLSL qualifiers, types and declaration lines.
  - `shader.rs`: shader stages by file extension, `Transpiler`, `Loader`.
  - `paths.rs`: path extensions and parents, texture paths and formats.
  - `draw.rs`: which faces, texture slots and flags each material draws.
  - `gpu.rs`: which graphics device to use.
  - `text.rs`: character classes, string primitives, decimal numerals.
- `app/` is the program around it: window, Vulkan rendering, file reading,
  shader compilation, and the floating-point parts (vertices, rectangles).
- `tests/` exercises the library.
