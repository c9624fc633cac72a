//! Windowed rendering and drag reordering of long episode lists, together
//! with the records the podcast client exchanges with its server.

pub mod components;
pub mod drag;
pub mod engine;
pub mod geometry;
pub mod handlers;
pub mod listing;
pub mod membership;
pub mod pages;
pub mod reorder;
pub mod requests;
pub mod resize;
pub mod scroll;
pub mod sequences;
pub mod strings;
pub mod text;
pub mod window;
