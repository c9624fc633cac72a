//! The records of the requests about hosts and guests.

use crate::requests::pod_req::Episode;
use vstd::prelude::*;

verus! {

/// A host or guest the listener follows.
#[derive(Debug, Clone, PartialEq)]
pub struct PersonSubscription {
    pub personid: i32,
    pub userid: i32,
    pub name: String,
    pub image: String,
    pub peopledbid: Option<i32>,
    pub associatedpodcasts: usize,
    pub episode_count: i32,
}

/// The server's answer to following a host or guest.
pub struct SubscribeResponse {
    pub message: String,
    pub person_id: i32,
}

/// The episodes a host or guest appears in.
pub struct PersonEpisodesResponse {
    pub episodes: Vec<Episode>,
}

} // verus!
