# tealr

Type information for Lua and Teal: a model of types, their rendering in Teal syntax, and the
generators that write `.d.tl` declaration files and `.help()` pages for types exposed to Lua.

## Layout

- `src/` — the library, verified with Verus.
  - `types.rs`: the type model (`Type`, `KindOfType`, ...) and its mathematical view.
  - `name_part.rs`, `teal_parts.rs`: rendering a type as parts and as text; its generics.
  - `to_typename.rs`: how Rust types describe themselves (`ToTypename`, `TealMultiValue`).
  - `name_container.rs`: names as bytes, and `DocMap`, the documentation kept per name.
  - `exported_function.rs`, `macro_expressions.rs`: functions and macro expressions of a type.
  - `type_generator.rs`: records and enums, and the text of their declarations.
  - `type_walker.rs`, `export_instance.rs`: collecting types, global instances and pages.
  - `user_data.rs`, `typed_function.rs`, `meta_method.rs`: what exposing a userdata decides.
  - `laws.rs`: properties that span several functions.
- `tests/` — tests of the library on concrete values.
- `app/` — the glue to `mlua`, `serde` and the file system.
