# mockiato

A strict mocking library, written in Verus.

- `src/` is the verified library:
  - `expected_calls`, `matcher`, `return_value`, `method_call`, `method`: the
    runtime of a mock — how many calls an expectation accepts, how arguments
    are matched, which expected call handles a call (in order or unordered),
    what it returns, when a mock verifies, and the messages with which a
    mock reports a refused call or an unsatisfied expectation;
  - `codegen`: the logic of the `#[mockable]` attribute on a plain model of
    the syntax tree — reading the attribute's arguments, checking the trait
    and its methods, resolving derivable traits, naming the generated items,
    planning the mock and remembering mocked traits.
- `app/` holds what stays outside the proofs: the conversion from `syn`
  syntax trees to the model, the token output with `quote`, `Display` and
  `Debug` impls, closure return values and the float matcher `nearly_eq`.
- `tests/` runs the library on concrete values.
