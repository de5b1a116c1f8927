//! Collector registry and routing for a telemetry forwarder.
//!
//! Downstream collectors are described by [`Collector`] values; a
//! [`Collectors`] cell holds the current registry snapshot together with its
//! fetch time and time-to-live, and resolves, for one incoming signal, the
//! list of collectors that receive a copy and the endpoint used for each.

pub mod outside;
pub mod paths;
pub mod collector;
pub mod registry;
pub mod config;
pub mod auth;
