//! Worker supervision and request-dispatch fabric for an edge function
//! runtime: per-request sandbox lifecycle, resource-limit enforcement
//! decisions, request routing, and the event telemetry protocol.

pub mod cpu_timer;
pub mod events;
pub mod import_map_load;
pub mod routing;
pub mod sandbox;
pub mod server;
pub mod units;
