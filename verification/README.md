# magma_virtio

Host-side logic of the Magma virtio-gpu component, verified with Verus.

- `src/` — the verified library: per-ring completion sequence numbers
  (`seqno`), fences pending per ring (`fences`), the per-context device state
  and its object tables (`device_state`), the dispatcher that decides how each
  guest Magma command is carried out (`dispatcher`), the walk of a
  submission's extension chain (`submit`), the context's resources, rings and
  fences (`context`), the capability set (`component`), and proved laws
  (`laws`).
- `app/` — the component as it runs in the device: locks and condition
  variables, worker threads, OS memory mappings and the GPU driver calls,
  driven by the library's decisions.
- `tests/` — tests of the library on concrete values.
