//! Bridges flight-simulator telemetry to a force-feedback controller's
//! text protocol: snapshot transformation, weapon-release latching, frame
//! encoding and the per-tick session decision.

pub mod decimal;
pub mod snapshot;
pub mod weapons;
pub mod ffb_data;
pub mod session;
