//! Supervision core of a daemon that keeps VU dials in step with host
//! telemetry: validated dial values, the per-dial state machine, the retry
//! classification, and the supervisor's matching and reload decisions.
//!
//! Everything that waits, talks to the network or reads the host lives with
//! the caller; the functions here decide what happens next.
pub mod dial;
pub mod metric;
pub mod multi_error;
pub mod api;
pub mod config;
pub mod retry;
pub mod manager;
pub mod supervisor;
pub mod protocol;
pub mod hotplug;
pub mod dialctl;
