# fe_queries

Verified analysis queries of the Fe compiler, written in Verus.

- `src/provider.rs`: the semantics of effect providers (kind, address space,
  target and transport), root-provider registration, and the address space
  selected by an effect handle's `SPACE` constant, with the laws that relate
  them.
- `src/ty.rs`: the interned types that provider analysis reads.
- `src/traits.rs`: the type of a trait, and the diagnostic for a recursive
  trait.
- `src/symbol.rs`: symbol names of compiled functions (`::` mangled to `$`,
  parameter type numbers in decimal), with laws on both.
- `src/diagnostics.rs`: spans, diagnostics and analysis results.

The compiler's databases are modelled as plain tables indexed by ids; what a
query would look up elsewhere (the effect-handle metadata of a type, the
default root effect type of a scope, the evaluated `SPACE` constant) is passed
in as a value.
