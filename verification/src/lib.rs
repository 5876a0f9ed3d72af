//! A verified request-handling pipeline for a small HTTP user service:
//! byte buffers are decoded, parsed into method/path/body, routed to one of
//! five CRUD handlers over an in-memory user store, and rendered back into
//! raw HTTP response text.

pub mod text;
pub mod record;
pub mod httpreq;
pub mod json;
pub mod store;
pub mod service;
pub mod props;
