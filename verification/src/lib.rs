//! SandOS: the host-side logic of a WebAssembly-sandboxed robotics OS,
//! written in Verus.
//!
//! * [`abi`] — the Host-Guest ABI: status codes, command ids, wire formats
//!   (CDR telemetry, IMU packing, inference and OTA status records) and the
//!   CRC-32 used to verify OTA binaries.
//! * [`firmware`] — the Brain board's logic: message bus and router, motor
//!   and sensor bridges, the inference engine, the OTA receiver, touch
//!   decoding, HTTP helpers and the departure-board JSON reader.
//! * [`worker`] — the Worker board's motor bridge and packet handling.
//! * [`guest_memory`] — the checks and copies between a guest's linear
//!   memory and the host behind each host call that takes a pointer.
//! * [`mock_host`] — a software model of the ABI host used to exercise the
//!   ABI without hardware.
pub mod abi;
pub mod companion;
pub mod firmware;
pub mod guest;
pub mod guest_memory;
pub mod mock_host;
pub mod text;
pub mod worker;
pub mod wire;

