//! A poll-voting engine: create a poll with a future voting window, let each
//! voter cast exactly one vote while the window is open, and let the creator
//! cancel a poll before it opens.
//!
//! The engine itself is a set of pure state transitions over two record
//! types, [`records::Poll`] and [`records::Voter`]. The [`store`] module
//! keeps those records in an in-memory keyed store and exposes the three
//! operations over it; [`laws`] states and proves the properties the engine
//! guarantees.

pub mod engine;
pub mod laws;
pub mod records;
pub mod store;
