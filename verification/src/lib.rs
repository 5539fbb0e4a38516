//! A relay that watches a chat gateway and raises one backend alert per
//! message.
//!
//! The library decides and its driver acts. The driver owns the gateway
//! connection and the HTTP client; it reports what happened as plain values
//! and carries out what the library asks for.
//!
//! - [`config`] loads the three startup values.
//! - [`session`] keeps the lifecycle of the gateway session: connect,
//!   reconnect with growing waits, shut down.
//! - [`dispatch`] maps each event kind to its handler.
//! - [`forward`] follows one alert from the request to its outcome.
//! - [`relay`] starts the whole from the configured values.
//! - [`laws`] proves what holds across these parts.

pub mod alert;
pub mod config;
pub mod dispatch;
pub mod event;
pub mod forward;
pub mod interest;
pub mod laws;
pub mod log;
pub mod relay;
pub mod session;
pub mod text;
