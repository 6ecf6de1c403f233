# virtio_gpu

A driver for VirtIO GPU devices, written in Rust and verified with Verus.

The driver reaches its device through a `Transport`: virtqueues, the configuration space and memory
that the device can read. The contract of a transport says only that it does what it is asked, in
order; of the device nothing is assumed. Each driver call states, for every way in which the device
can answer, what it sends, what it returns and what the driver remembers afterwards. `VirtIOGpu::new`
gives up its transport where it fails, and says there that the error is that of a failed start;
`driver::initialise`, which it calls, says what was asked until then.

- `src/driver/`: the driver and its calls
- `src/request.rs`, `src/plan.rs`: what calls of one step and of several steps ask for
- `src/laws.rs`: what holds of calls of several steps as a whole, and of all 3D calls
- `src/wire.rs`, `src/bytes.rs` and the message modules: the layout of messages
- `src/transport.rs`, `src/dma.rs`: what the driver needs from its surroundings
- `src/replay.rs`: a transport without a device, which answers from a script
- `src/text.rs`: what is assumed, without proof, of the formatter of the standard library
- `app/`: the driver with a log, and with a destructor that takes its queues down

A transport is implemented in Verus code, since its `history` exists in proofs only.
