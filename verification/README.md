# posts_integrity

The validation rules of a Holochain forum's `posts` integrity zome, as a
verified library.

- `src/model.rs`: what validation reads of an operation and of fetched records.
- `src/reasons.rs`: why an operation is invalid, and the exact messages.
- `src/validation.rs`: the decision procedure, a state machine: `validate`
  decides on a flattened operation, `resume` on each answer of the host.
- `src/laws.rs`: properties proved of the procedure as a whole.
- `app/lib.rs`: the zome glue on the Holochain host (`hdi`): it flattens the
  operation, answers the library's requests with host calls, and runs the
  zome's per-type validators.
