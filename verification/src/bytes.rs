//! Immutable-source byte layer: exact ranges, tickets, and the bounded range store.

pub mod error;
pub mod limits;
pub mod model;
pub mod segments;
pub mod store;
pub mod store_laws;
pub mod store_model;
pub mod ticket_laws;
