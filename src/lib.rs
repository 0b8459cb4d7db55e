//! A delivery sink for structured log records: it converts generic log events
//! into the log-record shape of an error-tracking backend, groups them into
//! batches, frames each batch as a newline-delimited envelope and decides how
//! each delivery attempt over HTTP is followed up.

pub mod attributes;
pub mod batch;
pub mod config;
pub mod convert;
pub mod dsn;
pub mod encoder;
pub mod envelope;
pub mod error;
pub mod event;
pub mod json;
pub mod laws;
pub mod service;
pub mod sink;
pub mod text;
