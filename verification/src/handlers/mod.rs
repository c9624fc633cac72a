//! The decisions of the server's request handlers.

pub mod feed;
