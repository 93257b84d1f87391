//! Core of an events queue server: events are ingested over HTTP, given ids,
//! timestamps and trace ids, batched per queue, and stored as rows.

pub mod app;
pub mod json;
pub mod routes;
pub mod server;
pub mod sys;
pub mod utils;
pub mod laws;
