# takyon

A single threaded async runtime on io_uring, with its logic verified by Verus.

- `src/` is the library: the scheduler and its join handles, the bookkeeping of submitted IO,
  the operations and what their results mean, socket addresses in memory, connecting, opening
  files, waiting, and combining futures. It does no IO and polls no future. `src/laws/`
  states what holds of the runtime as a whole.
- `app/` drives it: it owns the ring, polls the futures and lends the kernel their buffers.
- `tests/` runs the library on concrete values.

What is trusted: `src/int_map.rs` (maps of `nohash`), `src/platform/sys.rs` (numbers of `libc`
and `io_uring`, and what a probe holds), the byte order of the machine in
`src/platform/addr.rs`, and the text of an IO error in `src/error.rs`.
