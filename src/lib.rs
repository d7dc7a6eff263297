//! Authenticated listing of tournaments and fan-out collection of their standings.
pub mod fanout;
pub mod headers;
pub mod json;
pub mod listing;
pub mod reply;
pub mod standings;
pub mod urls;
