//! Request-handling core of a mentoring service backend.
//!
//! The crate verifies the admission-and-orchestration layer of the service:
//! a sliding-window rate limiter, a metrics collector, health reporting, the
//! per-operation service pipeline, and the validation and formatting rules the
//! pipeline applies.  Persistence is modelled by an in-memory store with the
//! same narrow interface the service expects from its database, and
//! notification delivery is returned to the caller as explicit fan-out
//! messages, so every decision the service makes is checked here.

pub mod seqs;
pub mod text;
pub mod metrics;
pub mod health;
pub mod rate_limit;
pub mod datetime;
pub mod models;
pub mod store;
pub mod fcm;
pub mod service;
pub mod auth;
pub mod config;
pub mod server;
