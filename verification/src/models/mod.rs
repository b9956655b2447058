//! The data model: stored rows and HTTP payloads.

pub mod db_data;
pub mod http_data;
