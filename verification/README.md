# OMS Modbus

Modbus over TCP, RTU and ASCII, for masters and slaves, with the deciding parts
verified by Verus.

- `src/` is the library. It encodes and decodes PDUs and frames, computes
  checksums, keeps registers and coils, and decides what a client and a server
  do next. Nothing in it reads, writes or waits: each step takes what has
  happened and returns what to do. Contracts say what the functions return, and
  what holds across functions is stated and proved as laws (`law_*`).
- `app/` drives the library on tokio: sockets and serial transports, taps,
  reconnecting, file recording.
- `tests/` runs the library on concrete values.

## What is proved

- A valid request comes back from its wire form, and a response in canonical
  form (`src/frame/laws.rs`).
- The CRC and the LRC tell frames apart that differ in one byte; a frame of each
  protocol gives back what was framed (`src/transport/laws.rs`).
- A request that a client sends is found by the server, answered by the store,
  and the answer is what the client returns, over every protocol
  (`law_transaction`, `law_exchange`, `law_serving`).
- Registers and coils read as they were written, and nothing else changes
  (`src/slave_store/laws.rs`).
- Draining ends at its deadline, retries are limited, and only failures of the
  transport are retried (`src/transport/send_recv.rs`).
- Every timestamp is printed as 26 characters, and timestamps sort as the times do
  (`src/intercept.rs`); the clock behind them never runs backwards
  (`src/wire_tap.rs`).
- Captures and channels keep the newest data within their limits
  (`src/capture.rs`, `src/monitor/ring_buffer.rs`, `src/transport/sniff_io.rs`).

## What is trusted

`src/buffer.rs` states what the byte buffers of the `bytes` crate do; nothing
proves those statements. `src/error.rs` states that `String::from` copies a
string slice.
