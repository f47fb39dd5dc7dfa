//! The Brain board's logic, free of hardware: what its tasks decide and the
//! shared state they exchange.
pub mod inference;
pub mod ota;
pub mod bus;
pub mod motors;
pub mod sensors;
pub mod links;
pub mod profile;
pub mod openai;
pub mod core1;
pub mod touch;
pub mod telemetry;
pub mod router;
pub mod http;
pub mod departures;
pub mod lines;
pub mod ntp;
pub mod espnow;
pub mod cpu;
pub mod host;
pub mod strip;
pub mod ui;
pub mod metrics;
pub mod display;
pub mod json;
pub mod rgb_led;
