//! The HTTP interface: request-body limits, session tokens and replies.

pub mod handlers;
