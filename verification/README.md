# sans_core

The controller core of the Sans book scanner, written in Verus.

`src/` is the verified library:

- `ligature/` — the Ligature motion-board line protocol (`protocol.rs`), the
  operation lifecycle that correlates commands with their acceptance and
  terminal frames (`lifecycle.rs`), and the client that drives a wire
  (`client.rs`).
- `monospace/` — the Monospace relay-board protocol, its reply correlation,
  connection epochs and the decisions of its reader and writer.
- `camera.rs`, `camera/v4l.rs` — Captured frames (rotation, crop clamping,
  previews), retrying pair acquisition, and the fixed V4L2 camera profile.
- `config.rs` — Machine-profile validation and profile location.
- `controller.rs` — the controller's workflow state machine: snapshots,
  Capture status, transport faults and reconnects.
- `touchscreen.rs`, `text.rs` and the smaller modules hold helpers.

Every public function states its result in `ensures`; the properties that
span several calls stand as public proof functions named `law_*`.

`app/` holds what cannot be verified: serial and camera I/O, the controller
thread, profile files, and the diagnostic command-line tools. It hands the
library plain values and performs the actions the library decides on.

`tests/` runs the library on concrete inputs.
