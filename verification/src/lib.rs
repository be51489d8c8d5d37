//! A minimal upload-ingestion core: method validation, unique identifier
//! allocation, streaming transfer of a request body into a storage sink,
//! and mapping of failures to HTTP-visible responses.
//!
//! The surrounding process (listener, connection handling, file system)
//! drives this library: it converts wire-level requests into plain values,
//! steps the verified handler state machine, performs the I/O actions the
//! state calls for, and writes the resulting response back to the client.

pub mod context;
pub mod decimal;
pub mod handler;
pub mod http;
