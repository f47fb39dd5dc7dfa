# sandos

The host-side logic of SandOS, a WebAssembly-sandboxed robotics OS for the
ESP32-S3, written in Verus: executable Rust whose behaviour is stated in
`requires` / `ensures` contracts and proved.

## Layout

- `src/abi.rs`, `src/abi/` — the Host-Guest ABI: status codes, command ids,
  eye expressions, radio packets, IMU packing, pointer validation, movement
  intents, the CDR telemetry records and packets, the inference-result and
  OTA-status records, the Worker frame codec and CRC-32.
- `src/wire.rs` — little-endian encodings and two's-complement
  reinterpretations shared by every wire format.
- `src/guest_memory.rs` — the guest-memory half of the host calls: pointer
  checks against the guest's linear memory and the copies in and out.
- `src/mock_host.rs` — a model of the ABI host (LED, display, audio, IMU,
  motors and routing, dead-man's switch, telemetry, local inference, OTA and
  hot-swap) whose every state change is in its public fields.
- `src/firmware/` — the Brain board: its ABI host, message bus and router
  decisions, motor, sensor and link state (WiFi link steps, hot-swap
  settling), the inference engine and its result cell, the radio OTA
  receiver, touch decoding and tracking, CPU load, SNTP arithmetic, the
  screen (strip buffer, UI state machine, metrics text, display driver queue), the RGB
  LED's pulse train, the dashboard (request routing, body, LED form, JSON
  replies and headers) and the departure board (request, JSON reader,
  HTTP response checks).
- `src/worker/` — the Worker board's motor bridge and frame handling.
- `src/guest.rs` — the sample guest's decisions and telemetry payloads.
- `src/companion.rs` — the companion agent's state.
- `app/` — what the library cannot hold: a `wasmi` interpreter running WAT
  guests against the mock host, and the process-wide shared state.

Fixed-capacity queues, vectors and strings are `heapless` containers behind
small trusted wrappers whose contracts state what `heapless`' source does.
