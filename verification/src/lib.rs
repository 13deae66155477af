//! Live status distribution for the river compositor: a queryable snapshot of
//! output and seat state, an event bus, and the subscription protocol.

pub mod bus;
pub mod client;
pub mod endpoint;
pub mod event;
pub mod filter;
pub mod frame;
pub mod json;
pub mod label;
pub mod payload;
pub mod query;
pub mod registry;
pub mod server;
pub mod shared;
pub mod snapshot;
pub mod strmap;
pub mod text;
