# conc_map_bench

Key-value tables over several concurrent map backends, each offering the four
operations of a map benchmark: lookup, insert, remove and update. Every table
is verified with Verus against one abstract model, a map from `u64` keys to
`u32` values (`src/model.rs`), so that the backends can be compared knowing
they do the same work.

- `src/model.rs`: the model, the spec functions the contracts are stated in,
  and the laws that relate the operations.
- `src/btree_table.rs`: a table kept in std's ordered map.
- `src/dashmap_backend.rs`, `src/dashmap_table.rs`: the sharded `dashmap`
  map, its trusted interface, and a table kept in it.
- `src/async_dashmap.rs`: a `dashmap` whose operations never block on a
  shard lock; each is a future whose `poll` makes one attempt.
- `src/flurry_table.rs`, `src/scc_table.rs`: tables kept in `flurry` and
  `scc` hash maps.
- `app/`: the benchmark program, which shares the tables between threads
  behind locks and runs the `bustle` workloads on them.
