//! The list pages that stand on their own.

pub mod saved;
