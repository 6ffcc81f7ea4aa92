# optrs

Option pricing across four numerical methods (closed form, COS, binomial
lattices, Crank-Nicolson finite differences, Monte Carlo), with a CLI and a
flat C ABI.

`src/` is the verified library: everything that decides or counts rather than
computes with floating point.

- `rng` — the PCG64-DXSM generator, specified bit for bit; its step is proved
  reversible.
- `engine` — the engines, what each supports, the cheapest choice and the
  cross-validation list.
- `convergence` — how each engine is refined per level and the decisions of
  the convergence ladder.
- `exercise` — the per-step exercise mask of European, American and Bermudan
  options.
- `abi`, `last_error` — status codes, engine ids, the struct-size handshake
  and the C-string error channel.
- `error`, `option`, `tree`, `mc` — error codes, payoff kind, lattice and
  Monte Carlo knobs.

`app/` is the floating-point pricing code, the C ABI surface and the CLI; it
calls the library for every rule above.
