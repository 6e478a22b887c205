# rgmin

Bookkeeping and dispatch of a Riemannian optimizer, verified with Verus.

`src/` is the library, every function of it proved against its contract:

- `manifold/` — manifold tokens (`ManifoldKind`), the packed-length check
  of every geometry (`ManifoldKind::required_dim`), and the ambient packings of matrix and complex points
  (column-major, interleaved, triangular), with their round trips.
- `ffi` — the C waist's decisions: status codes, the ABI stamp, the closed
  C enumerations and what they decode to, and the acceptance of a
  borrowed DLPack tensor.
- `entry` — the argument checks of every C entry point, in order
  (including the lowest-eigenpair entry and its eigensolver-kind decoder).
- `session` — which state a method's session carries, which update one
  outer iteration runs, the checks before a step, and what a session
  keeps and drops when it forgets.
- `pair_memory` — the bounded L-BFGS correction-pair memory and the order
  in which the two-loop recursion replays it.
- `slepc_kind`, `method`, `nlcg`, `lbfgs`, `vecops`, `error` — the closed
  choices and handles the rest is written against.

`app/` is the host side: raw pointers and DLPack tensors, the thread's
last-error text, error messages, the C session API, and the
floating-point vector algebra and geometry (Euclidean, sphere, oblique).
It makes no decision of its own.

No optimizer step is implemented in this crate: the floating-point
solvers (line searches, quasi-Newton and CG updates, SCG, trust regions,
swarm, eigensolvers) and the C entries that would run them
(`rgmin_minimize*`, `rgmin_solver_step*`, `rgmin_lowest_eigenpair`) are
not here. What those entries check before running, and how a session
routes and records a step, is verified in `src/entry.rs` and
`src/session.rs`.

`tests/` exercise the library on concrete values.
