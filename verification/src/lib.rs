//! Verified core of the Bakopa VR stack: the Bloom signaling protocol, room
//! management and relaying, the per-connection WebSocket handler logic and
//! rate limiter, and the client-side lifecycle and pose synchronisation.
pub mod api;
pub mod ids;
pub mod room;
pub mod rate_limit;
pub mod signaling;
pub mod sinks;
pub mod core_api;
pub mod real_core;
pub mod mocks;
pub mod handler;
pub mod ecs;
pub mod client_errors;
pub mod ports;
pub mod xr;
pub mod bridge;
pub mod sync;
pub mod connection;
pub mod projection;
pub mod engine;
