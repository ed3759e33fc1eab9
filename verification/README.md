# spdk_io

Verified core of async Rust bindings for SPDK, the Storage Performance
Development Kit.

SPDK is a C library reached through FFI. The library under `src/` holds
everything that is decided around those C calls, each function with a
contract that Verus proves:

- `error`, `cstr`, `nulchar`, `text`: the error model, conversion of text
  into C strings (and why such a text reads back whole from an SPDK
  character field), and the exact text of every message an error carries (the display
  text of each error variant is written in `app/`).
- `dma`: when a DMA allocation is asked for and whether it succeeded.
- `nvme`: transport identifiers (field limits, read-back of C character
  fields), controller and queue-pair option conversion, asynchronous probe
  steps, namespace selection, NVMe completion status decoding.
- `nvmf`: target, transport and subsystem options and outcomes.
- `bdev`, `event`, `thread`, `poller`, `app`: block-device outcomes, the
  reactor-core walk, thread-library bookkeeping, polling budgets and the
  yield-once future, the application builder and its launch options.

`app/` makes the C calls, owns SPDK's pointers and runs the async plumbing,
handing plain values to the library and taking plain values back.
`tests/` exercises the library on concrete values.
