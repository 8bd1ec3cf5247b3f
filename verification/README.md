# race_log_parser

Verified parsers for two binary logs of a racing game's multiplayer server.

- `src/data_gather/`: the data gathering log, a 20-byte header followed by records framed as
  `[`, category, `=`, payload, `/]`. `spec.rs` states what each part decodes to, `parse.rs`
  decodes it and is proved equal to the spec, `laws.rs` proves properties of the format.
- `src/race_log/`: the general race log, a 36-byte header and one 168-byte record per racer,
  with racers ordered by finish position (`sort.rs`, stable).
- `src/bytes.rs`: a read cursor over a byte slice; integers are read through scroll's
  `IOread`.
- `src/text.rs`: the UTF-16, trimming and lowercasing steps of usernames, from std.
- `app/`: the same results with `f32` fields and `scroll::Error`, for callers of the
  unverified interface.

Floating-point fields are kept as their bit patterns in the verified library.
