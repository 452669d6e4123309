//! A client for a remote document-indexing service, without the network.
//!
//! `manager::OramaCoreManager` administers collections with the master API
//! key; `client::OramaCoreClient` inserts and deletes the documents of one
//! collection with that collection's write key. Every operation is built
//! from two verified steps: one that turns the caller's input into a
//! `transport::Request`, or into the error that forbids sending anything,
//! and one that turns the `transport::Reply` into the result. The
//! operation itself takes the transport as a function and calls it in
//! between. Bodies are JSON: `json::Json` holds a value, `wire` maps the
//! library's types to and from it, and `serde_json` reads and writes the
//! text.

pub mod client;
pub mod error;
pub mod fields;
pub mod internal;
pub mod json;
pub mod manager;
pub mod text;
pub mod transport;
pub mod wire;
