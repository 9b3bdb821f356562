# mapreduce

The coordinator and worker logic of a small MapReduce framework, verified
with Verus.

- `src/apis/`: registering workers, recording their heartbeats, and handing
  map tasks to registered workers.
- `src/coordinator_state.rs`: the shared registry and heartbeat table, and
  the periodic heartbeat check that counts missed heartbeats and drops
  workers that keep missing them.
- `src/mapper/`: map tasks, their life cycle, and the queue from which they
  are handed out.
- `src/map/word_count.rs`: the word-count map function.
- `src/config.rs`, `src/worker/`: configuration values and the worker's task
  loop decisions.
- `src/concurrent.rs`, `src/timestamp.rs`: the `dashmap` and `crossbeam`
  collections and the clock, each call behind a wrapper with a contract.
- `app/`: the programs around the library: environment, files, the
  heartbeat monitor task and the service handlers' plumbing.
