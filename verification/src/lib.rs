//! A bridge from tool calls to language servers, without its I/O.
//!
//! A caller asks about a file; the pool finds the backend that serves the
//! file's extension and the one client of that backend; the client makes
//! sure that the backend has been initialized and that the file is
//! announced as open, sends the request, and matches the response to it by
//! its identifier.
//!
//! Nothing here reads, writes, waits or launches. The modules decide what
//! is to be sent and what an answer means, and their owner performs it:
//!
//! - `framing`, `transport`: the Content-Length framing of messages.
//! - `protocol`, `requests`, `results`: JSON-RPC envelopes, the parameters
//!   of requests and the results of responses.
//! - `correlation`: the table of requests in flight.
//! - `client`: the client of one backend.
//! - `config`, `manager`: the configured backends and the pool of their
//!   clients.
//! - `paths`, `roots`, `uri`, `language`: paths, project roots, file URIs
//!   and language identifiers.
//! - `mcp`, `render`: the tool-calling front end and the text that it
//!   shows.
//! - `decimal`, `text`, `error`: numerals, text helpers and errors.

pub mod client;
pub mod config;
pub mod correlation;
pub mod decimal;
pub mod error;
pub mod framing;
pub mod language;
pub mod manager;
pub mod mcp;
pub mod paths;
pub mod protocol;
pub mod render;
pub mod requests;
pub mod results;
pub mod roots;
pub mod text;
pub mod transport;
pub mod uri;
