# dialect_mir

Attributes and the cast-operation verifier of the MIR dialect, with their
behaviour stated in Verus contracts and proved.

- `src/attributes.rs`: the dialect's attributes (cast kind, mutability,
  field and variant indices, niche encoding).
- `src/ops/cast.rs`: `MirCastOp`, what its verifier reads (cast kind, niche
  encoding, what is known of the operand and result types), the verifier
  `MirCastOp::verify` with its exact outcome, the diagnostics, and the laws of
  the rule (`law_*` proof functions).
- `src/op_query.rs`: counting, first-match and all-matches queries over the
  outcomes of looking up ops of one kind, with their laws.
- `app/`: the pliron side: attribute and op definitions with pliron's derives,
  conversions to and from the library's types, registration, the `Verify`
  impl that gathers an operation's facts and calls the library, and the
  half-precision float attribute.
- `tests/`: tests of the library.
