# rusty_pool

Self growing / shrinking thread pool based on crossbeam's multi-producer multi-consumer channels
that enables awaiting the result of a task and offers async support. The logic of the pool is
verified with Verus.

A pool has two sizes: a core pool size filled with threads that live for as long as the channel,
and a max pool size which describes the maximum amount of worker threads that may live at the same
time. Threads beyond the core pool give up after they have waited for work for the keep_alive time.

- `src/` is the verified library. It decides where a task goes, what a worker does next, and when
  a thread that joins the pool has to wait or is notified. It makes the calls into atomics,
  crossbeam and oneshot channels, but starts and blocks no threads.
  - `counts`: the total and the idle worker count in one atomic word
  - `naming`: the names of pools and threads
  - `task`: tasks, jobs, and handles on results
  - `channel`: the channel on which jobs wait for a worker
  - `worker`: what a worker does next, and what follows when it panics
  - `pool`: where a submitted task goes, and when a join returns at once
  - `builder`: pools with default values
  - `protocol`: a model of all the threads of a pool, with what holds of them together: the pool
    keeps its sizes, no task gets lost, no joiner is left waiting, and, where there is a core pool,
    shutting down finishes all work
- `tests/` runs the library on one thread.
- `app/` runs the library on threads of the operating system.

Every assumption about code outside the library stands beside the call, under `Trusted:`.
