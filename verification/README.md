# dlm core, verified

A checker for a small language of theories, bridges and typed values whose
every value carries a *passport*: its type, trust level, provenance,
validation state, theory context and history. Around the checker sit the
metatheory layers: logic formulas, equality and rewriting, induction,
functions and their contracts, partial values, module manifests and
interfaces, axiom registries and dependency audits, closure and
conservative-extension reports, the soundness boundary ledger and the
foundation exit gate.

Layout:

- `src/` holds the library. Every function has a contract over spec models
  (`Seq`, `Set`, views of each type) and is proved by Verus. Laws that relate
  several functions are public proof functions named `lemma_*`.
- `tests/` runs the library on concrete inputs.
- `app/` is the command-line front end (`check <file>`): it reads the file,
  calls the parser and checker, and prints the report.

Not included: the backend capability, backend layout and dense runtime
layers, the building of certificates from proof closures and tactic reports,
the resolver-driven front-end pass runner, the induction-to-theorem step, the
trusted-base exit criterion and the `run`/`explain` commands. Each of them is
built on a module (`prelude_lowering`, `standard_prelude`, `proof_context`,
`tactic`, `resolve`, `statement`, `trusted_base`, `runtime`, `soundness`)
that is not part of this crate, so their behaviour is not stated here. The
certificate checks, fingerprints, exports and audits are included.

Taint: no constructor and no arithmetic form lowers trust
(`lemma_constructors_keep_taint`, `lemma_binary_joins_trust`); lifts by axiom
give at least `Axiom` and never less than their source.
