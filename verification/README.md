# dcp

Administration of the buckets of a preservation storage service on Amazon S3, verified with
Verus.

- `src/` is the library. It decides and computes: which requests create and configure a bucket
  and its replica, what is undone where that fails, how an existing bucket differs from the
  configuration it should have, which buckets belong to a stack, how buckets are paired, and
  how request files, batch jobs, inventory statistics and user listings are read. Every function
  states in its contract what it returns. Verus proves these contracts, except those of the
  wrappers around outside calls, which it believes: `service_name` and `service_class` in
  `storage_class.rs` (storage classes of the S3 SDK), `service_tagging` in `expiration.rs` (tag
  sets of the S3 SDK), `lossy_text` in `bucket_request.rs` (`String::from_utf8_lossy`) and
  `current_time` in `batch.rs` (the clock of `chrono`, of whose text only the offset at its end
  is claimed).
- `app/` talks to the services. It reads what the library asks for, hands it over as plain
  values and sends what the library answers. The naming rules and policy documents of an
  installation come from the embedding program, through the trait in `app/rules.rs`.
- `tests/` runs the library on concrete values.

What holds across functions is stated as public proof functions. The central ones are in
`src/conformance.rs`: a bucket that was created and set up is found to be configured as it
should be, and nobody can store objects in it before it is.
