//! HTTP endpoints.

pub mod room;
