# scars

The verified core of SCARS, a fixed-priority preemptive real-time kernel
with an immediate priority ceiling protocol and a built-in async executor.

The library (`src/`) holds the kernel's decisions as plain values, each
function with a contract proved by Verus:

- `priority`, `priority_order`, `atomic_priority`: thread and interrupt
  priorities on one scale, their packed `i16` form, and atomic cells of them.
- `time`, `monitor`: durations and instants in clock ticks; the per-thread
  execution-time monitor.
- `fifo`, `channel`, `notify`, `semaphore`, `condvar`, `rendezvous`, `once`,
  `protected`, `async_sync`: ring buffer, bounded channels, priority-ordered
  wait queues and the primitives built on them. A blocking operation is a
  step that either completes or queues its caller; the kernel suspends the
  caller and runs the step again on wake.
- `lock`: the interrupt, preempt, ceiling, spin and inheritance locks as
  per-core state machines.
- `thread`: the thread record, its priority bookkeeping and deferred work.
- `local`: typed local storage lists, one-shot cells, publishing.
- `task`: poll steps of futures (join, select, timeout, sleep, events,
  yield), task slots and the executors' task queues.

`app/` adapts some of the poll steps to `core::future::Future`.
