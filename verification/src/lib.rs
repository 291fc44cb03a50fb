//! Authenticated telemetry ingestion: bearer-token verification, issuer and
//! role authorization, request handling, and the size-or-timeout batching of
//! readings into rows for a time-series store.

pub mod error;
pub mod config;
pub mod json;
pub mod http;
pub mod handler;
pub mod auth;
pub mod batch;
pub mod consumer;
pub mod datasink;
pub mod server;
pub mod subscription;
