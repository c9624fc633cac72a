//! The episode record shared by every list page.

use crate::reorder::spec_ids;
use crate::sequences::lemma_filter_next;
use std::collections::HashMap;
use vstd::prelude::*;

verus! {

/// One episode as the list pages hold it.  The list engine reads only
/// `episodeid`; every other field is carried along for the item view.
#[derive(Debug, PartialEq, Clone, Default)]
pub struct Episode {
    pub podcastid: i32,
    pub podcastname: String,
    pub episodetitle: String,
    pub artworkurl: String,
    pub author: String,
    pub categories: Option<HashMap<String, String>>,
    pub episodedescription: String,
    pub episodecount: Option<i32>,
    pub feedurl: String,
    pub websiteurl: String,
    pub explicit: i32,
    pub userid: i32,
    pub episodeid: i32,
    pub episodeurl: String,
    pub episodeartwork: String,
    pub episodepubdate: String,
    pub episodeduration: i32,
    pub listenduration: i32,
    pub completed: bool,
    pub saved: bool,
    pub queued: bool,
    pub downloaded: bool,
    pub is_youtube: bool,
    pub guid: String,
    pub queueposition: Option<i32>,
    pub downloadedlocation: Option<String>,
}

impl Episode {
    /// The episode itself, for callers that hold it behind a more general
    /// handle and want the record back.
    pub fn as_any(&self) -> (any: &Episode)
        ensures
            *any == *self,
    {
        self
    }
}

/// What a listener has done with an episode.
#[derive(Debug, Clone, Copy, PartialEq, Eq, Structural)]
pub enum EpisodeFlag {
    /// Played to the end.
    Completed,
    /// Saved for later.
    Saved,
    /// Put into the queue.
    Queued,
    /// Downloaded to the server.
    Downloaded,
}

impl Episode {
    /// Whether `flag` is set for this episode.
    pub open spec fn spec_has(self, flag: EpisodeFlag) -> bool {
        match flag {
            EpisodeFlag::Completed => self.completed,
            EpisodeFlag::Saved => self.saved,
            EpisodeFlag::Queued => self.queued,
            EpisodeFlag::Downloaded => self.downloaded,
        }
    }

    /// Whether `flag` is set for this episode.
    pub fn has(&self, flag: EpisodeFlag) -> (set: bool)
        ensures
            set == self.spec_has(flag),
    {
        match flag {
            EpisodeFlag::Completed => self.completed,
            EpisodeFlag::Saved => self.saved,
            EpisodeFlag::Queued => self.queued,
            EpisodeFlag::Downloaded => self.downloaded,
        }
    }
}

/// The test for `flag`, as a filter takes it.
pub open spec fn spec_flagged(flag: EpisodeFlag) -> spec_fn(Episode) -> bool {
    |e: Episode| e.spec_has(flag)
}

/// The identifiers of the episodes for which `flag` is set, in the order
/// of the episodes.
pub fn ids_with(episodes: &Vec<Episode>, flag: EpisodeFlag) -> (ids: Vec<i32>)
    ensures
        ids@ == spec_ids(episodes@.filter(spec_flagged(flag))),
{
    let ghost keep = spec_flagged(flag);
    let mut ids: Vec<i32> = Vec::new();
    let mut i: usize = 0;
    assert(episodes@.take(0).filter(keep) =~= Seq::<Episode>::empty()) by {
        reveal(Seq::filter);
    }
    assert(ids@ =~= spec_ids(episodes@.take(0).filter(keep)));
    while i < episodes.len()
        invariant
            0 <= i <= episodes@.len(),
            keep == spec_flagged(flag),
            ids@ == spec_ids(episodes@.take(i as int).filter(keep)),
        decreases episodes@.len() - i,
    {
        proof {
            lemma_filter_next(episodes@, i as int, keep);
        }
        if episodes[i].has(flag) {
            ids.push(episodes[i].episodeid);
            assert(ids@ =~= spec_ids(episodes@.take(i + 1).filter(keep)));
        }
        i += 1;
    }
    assert(episodes@.take(i as int) =~= episodes@);
    ids
}

} // verus!
