# rgmin

Integer and token logic of a Riemannian / quasi-Newton minimizer, proved
with Verus.

- `src/` is the verified library: the closed backend tokens (eigensolver,
  preconditioner, ELPA, EigenExa, HiGHS, SLEPc spectral transform), the
  typed eigen parameters and their defaults, the fail-closed dispatch of
  the lowest-eigenpair waist and the errors it answers with, the packing
  dimensions of every manifold factory, the side length hidden in a
  square or `n^2 + n` packing, and where each entry of a point goes in
  its packing (interleaved complex parts, row-major and column-major
  blocks).
- `app/` is the floating-point side: projection, retraction and
  transport on packed `f64` vectors, the matrix-free eigen iterations,
  the truncated-CG trust-region step, the Barzilai-Borwein step, the IRC
  trust sphere and the coordinate box around an `eindir-core` objective.
  It calls the library for every decision made from integers alone.
- `tests/` exercises the library from outside.
