//! A file-sync engine: it keeps a remote basket in step with one watched file.
//!
//! The crate holds the decisions of the engine and nothing that blocks. The
//! host reads the file, sends the request and sleeps; it reports each outcome
//! to a [`ScoutFile`], which answers with what to do next.
//!
//! Every step takes the state by exclusive reference. However many threads
//! the host runs, their steps reach one state one after the other, in some
//! order; what [`laws`] proves holds of every order.

pub mod encoder;
pub mod engine;
pub mod laws;
pub mod model;
pub mod resolver;
pub mod status;
pub mod transfer;

pub use crate::engine::ScoutFile;
