# css_values

Common values used in CSS — `<custom-ident>`, `<dashed-ident>`,
`<keyframes-name>`, atom-backed strings and identifiers, the CSS-wide keywords,
and the serialization of numbers and dimensions — written in Verus, with a
contract on each function.

Layout:

- `src/text.rs`: ASCII case-insensitive comparison and prefix tests on strings.
- `src/atom.rs`: `string_cache` atoms and what the library relies on of them.
- `src/serialize.rs`: identifier, name and string escaping, done by `cssparser`.
- `src/parsing.rs`: parse errors, tokens, and the `cssparser` parser calls.
- `src/keyword.rs`: the CSS-wide keywords and `<custom-ident>` validity.
- `src/values.rs`: `AtomString`, `AtomIdent`, `CustomIdent`, `DashedIdent`,
  `KeyframesName`, `Either`.
- `src/dimension.rs`: numbers and dimensions with `calc()` and the keywords for
  values that are not finite.
- `app/lib.rs`: what works on `f32`, the uninhabited `Impossible`, and the serde
  form of `DashedIdent`.
