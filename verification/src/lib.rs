//! A DNS resolver core that answers for names learned from service
//! discovery and hands every other question to upstream resolvers.
//!
//! The crate holds the decisions only: which names are known, what a query
//! is answered with, which upstream server is tried next. Sockets, the
//! discovery provider and the clock belong to the program around it.

pub mod address;
pub mod codec;
pub mod discovery;
pub mod forward;
pub mod message;
pub mod name;
pub mod resolver;
pub mod store;
pub mod text;
