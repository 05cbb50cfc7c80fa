//! A minimal HTTP/1.1 origin server core: request parsing, routing, and
//! response serialization, verified down to the bytes.
//!
//! The crate turns a received byte buffer into a structured request, maps the
//! request onto a small fixed routing table, and serializes the chosen
//! response back into bytes. Transport concerns (sockets, files, threads)
//! live outside the library: the worker entry point reports the file-system
//! actions it needs as plain values, and separate entry points turn the
//! outcome of such an action into the final response bytes.

pub mod args;
pub mod bytes;
pub mod laws;
pub mod number;
pub mod parser;
pub mod request;
pub mod response;
pub mod router;
pub mod text;
pub mod worker;
