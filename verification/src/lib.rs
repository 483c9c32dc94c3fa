//! Platform toolkit for a webhook-driven bot service.
//!
//! The crate bundles three verified subsystems: a configuration resolution
//! engine that merges compiled-in defaults, an optional configuration file
//! and environment-variable overrides with a fixed precedence; a webhook
//! signature verifier built on HMAC-SHA256 with a constant-time comparison;
//! and a closed error taxonomy that every fallible operation funnels into.

pub mod config;
pub mod context;
pub mod document;
pub mod error;
pub mod hex;
pub mod observability;
pub mod text;
pub mod webhook;
