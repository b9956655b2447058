//! Work on stored records and on venue replies.

pub mod bybit;
pub mod database;
