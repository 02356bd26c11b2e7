# ref_struct

The `ref_struct` attribute, as a library verified with Verus: from a struct and a list of
commands it writes a struct that holds references to (or clones of) the struct's fields, with
a constructor `new`, and, on request, a struct of the fields left out with a method `merge`
that puts the struct back together.

Commands: `name(Out)`, `clone(f, ..)`, `ignore(f, ..)`, `derive(Path, ..)`, `public`,
`use_cow`, `ignore_struct(name(Ign), derive(Path, ..))` (which implies `use_cow`).

Layout:

- `src/tokens.rs`: token trees, their text, and lexing (through `proc_macro2`).
- `src/general.rs`: reading identifiers, commas and parenthesized lists.
- `src/args.rs`: reading the attribute's commands; the paths in `derive(..)` are read by `syn`,
  so any path that `syn::Path` accepts (generic arguments included) is taken. A comma may
  follow the last command of the attribute (not the last one inside `ignore_struct(..)`).
- `src/struct_info.rs`: the struct the attribute stands on (read by `syn`).
- `src/expand.rs`: the code the attribute writes.
- `src/lib.rs`: the attribute on token trees and on texts.
- `src/laws.rs`: properties of the library as a whole.
- `app/lib.rs`: the attribute on `proc_macro2` token streams.

What `proc_macro2` and `syn` give is not promised by the library: `proc_macro2` lexes with the
compiler's lexer inside a procedural macro and with its own elsewhere. The contracts therefore
take what `syn` gave for each `derive(..)` group and for the item as parameters of the grammar,
and state the outcome for whatever it was; `append_paths` and `expand_item` do the rest on
given values. Without `name(..)`, the struct of references is named `Ref` and the item's name,
without the `r#` of a raw identifier (`Ignore` and the name for the struct of ignored fields).
