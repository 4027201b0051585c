//! A small note service: request pagination, a table of notes with unique
//! titles kept in ascending id order, and the shaping of its responses.

pub mod error;
pub mod ids;
pub mod laws;
pub mod model;
pub mod pagination;
pub mod response;
pub mod store;
