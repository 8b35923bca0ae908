# path_traits

Generic traits for arc-length-parameterized paths: sampling, tangents,
curvature, projection, segmentation, and the `Reverse` / `Concat` / `Offset`
adapters, verified with Verus.

- `src/` — the library. Every trait declares a spec function for each query;
  the provided methods, the adapters and the samplers (`equidistant`,
  `n_samples`, `uniform_t`) are verified against contracts stated over those
  spec functions. The laws relating the adapters to the paths they wrap are
  public proof functions in `src/transform/`; those that need exact
  arithmetic (the last sample at the length, the conversions inverting each
  other, …) are stated for scalars that obey `obeys_exact_arithmetic`, and the
  implementers' invariants are spec predicates (`obeys_affine_laws`,
  `obeys_norm_laws`, `has_unit_tangent`, `projects_to_nearest`,
  `locates_coherently`, `segment_lengths_sum_to_length`,
  `succeeds_exactly_on_domain`, `samples_t_at_ends`).
- `app/` — the floating-point side: `Real<T>`, the library's `Scalar` for any
  `num_traits::Float`, and `Display` / `std::error::Error` for `PathError`.
- `tests/` — line segments and polylines over `f32` and `f64`.
