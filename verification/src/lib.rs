//! Core of a terminal client that mirrors a remote task/document board.
//!
//! The crate holds the verified heart of the client: the data model, the
//! application-state reducer, the key-input dispatcher, and the live-sync
//! engine that consumes a server-sent event stream and decides which
//! resources to refetch.  Transport, terminal handling and rendering live
//! outside the library and talk to it through plain values.

pub mod input;
pub mod model;
pub mod reducer;
pub mod sse;
pub mod state;
pub mod sync;
pub mod text;

