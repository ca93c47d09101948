//! Message service over an object store and a queue: the request handlers,
//! the decisions they take on what the store and the queue answer, and the
//! shapes of the answers sent back to clients.

pub mod dto;
pub mod infra;
pub mod services;
