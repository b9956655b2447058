//! Account monitoring back end for trading venues: the data model, the
//! decoding of venue replies, the routing and shaping of stored records and
//! the request-handling rules of the HTTP interface.

pub mod actors;
pub mod clock;
pub mod common;
pub mod models;
pub mod text;
