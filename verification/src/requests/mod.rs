//! Records exchanged with the podcast server.

pub mod endpoints;
pub mod episode;
pub mod people_req;
pub mod pod_req;
pub mod url;
