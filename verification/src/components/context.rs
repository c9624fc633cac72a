//! State the pages share: which episodes are downloaded and where, and the
//! small settings the pages keep between visits.

use crate::membership::{remove_episode, spec_is_other};
use crate::requests::episode::Episode;
use crate::sequences::retain_by;
use std::collections::HashSet;
use vstd::std_specs::iter::IteratorSpec;
use vstd::prelude::*;

verus! {

broadcast use vstd::std_specs::hash::group_hash_axioms;

/// What a page can ask the shared state to do.
#[derive(Debug, Clone, PartialEq)]
pub enum AppStateMsg {
    /// Show the whole description of the episode with this guid.
    ExpandEpisode(String),
    /// Show the short description of the episode with this guid.
    CollapseEpisode(String),
    /// Show or hide the loading animation.
    SetLoading(bool),
    /// Mark this episode for deletion.
    UpdateSelectedEpisodesForDeletion(i32),
    /// Delete the marked episodes and unmark them.
    DeleteSelectedEpisodes,
}

/// The episodes whose descriptions are shown in full, by guid.
#[derive(Default, PartialEq)]
pub struct ExpandedDescriptions {
    pub expanded_descriptions: HashSet<String>,
}

/// The playlist form, as the listener has filled it in.
#[derive(Default, Clone, PartialEq)]
pub struct PlaylistState {
    pub include_unplayed: bool,
    pub include_partially_played: bool,
    pub include_played: bool,
    pub name: String,
    pub description: String,
    pub min_duration: String,
    pub max_duration: String,
    pub sort_order: String,
    pub group_by_podcast: bool,
    pub max_episodes: String,
    pub icon_name: String,
    pub play_progress_min: String,
    pub play_progress_max: String,
    pub time_filter_hours: String,
}

/// Which tab of the settings page is open.
#[derive(Default, Clone, PartialEq, Debug)]
pub struct SettingsState {
    pub active_tab: Option<String>,
}

/// The category filter of the podcast page.
#[derive(Default, Clone, PartialEq, Debug)]
pub struct FilterState {
    pub selected_category: Option<String>,
    pub category_filter_list: Option<Vec<String>>,
}

/// The feeds the listener added during this visit.
#[derive(Default, PartialEq)]
pub struct PodcastState {
    pub added_podcast_urls: HashSet<String>,
}

/// Whether an episode stays when every local record is dropped: it is
/// also on the server, or it was never recorded as local.
pub open spec fn spec_outlives_local(local: Set<i32>, server: Set<i32>) -> spec_fn(Episode) -> bool {
    |e: Episode| server.contains(e.episodeid) || !local.contains(e.episodeid)
}

/// Whether no two episodes of `episodes` share an identifier.
pub open spec fn spec_distinct(episodes: Seq<Episode>) -> bool {
    forall|i: int, j: int|
        0 <= i < j < episodes.len() ==> episodes[i].episodeid != episodes[j].episodeid
}

/// Whether some episode of `episodes` has identifier `id`.
pub open spec fn spec_lists(episodes: Seq<Episode>, id: i32) -> bool {
    exists|i: int| 0 <= i < episodes.len() && episodes[i].episodeid == id
}

/// Whether a list of episodes and the two sets of identifiers belong
/// together: every identifier of either set has exactly one episode in the
/// list, and the list holds no other episode.
pub open spec fn spec_consistent(episodes: Seq<Episode>, local: Set<i32>, server: Set<i32>) -> bool {
    &&& spec_distinct(episodes)
    &&& forall|id: i32| spec_lists(episodes, id) <==> local.contains(id) || server.contains(id)
}

/// A filter keeps episodes apart that were apart, lists no episode that
/// was not listed, and lists every episode that passes it.
pub proof fn lemma_filter_keeps_distinct(episodes: Seq<Episode>, keep: spec_fn(Episode) -> bool)
    ensures
        spec_distinct(episodes) ==> spec_distinct(episodes.filter(keep)),
        forall|id: i32| #[trigger]
            spec_lists(episodes.filter(keep), id) ==> spec_lists(episodes, id),
        forall|k: int|
            0 <= k < episodes.filter(keep).len() ==> keep(#[trigger] episodes.filter(keep)[k]),
        forall|i: int|
            0 <= i < episodes.len() && keep(episodes[i]) ==> spec_lists(
                episodes.filter(keep),
                #[trigger] episodes[i].episodeid,
            ),
    decreases episodes.len(),
{
    reveal(Seq::filter);
    let kept = episodes.filter(keep);
    if episodes.len() > 0 {
        let rest = episodes.drop_last();
        let last = episodes.last();
        let kept_rest = rest.filter(keep);
        lemma_filter_keeps_distinct(rest, keep);
        assert forall|id: i32| #[trigger] spec_lists(kept, id) implies spec_lists(episodes, id) by {
            let k = choose|k: int| 0 <= k < kept.len() && kept[k].episodeid == id;
            if k < kept_rest.len() {
                assert(kept_rest[k].episodeid == id);
                assert(spec_lists(kept_rest, id));
                assert(spec_lists(rest, id));
                let i = choose|i: int| 0 <= i < rest.len() && rest[i].episodeid == id;
                assert(episodes[i].episodeid == id);
            } else {
                assert(episodes[episodes.len() - 1].episodeid == id);
            }
        }
        assert forall|i: int| 0 <= i < episodes.len() && keep(episodes[i]) implies spec_lists(
            kept,
            #[trigger] episodes[i].episodeid,
        ) by {
            if i < rest.len() {
                assert(rest[i] == episodes[i]);
                assert(spec_lists(kept_rest, rest[i].episodeid));
                let k = choose|k: int|
                    0 <= k < kept_rest.len() && kept_rest[k].episodeid == rest[i].episodeid;
                assert(kept[k].episodeid == episodes[i].episodeid);
            } else {
                assert(kept[kept.len() - 1].episodeid == episodes[i].episodeid);
            }
        }
        if spec_distinct(episodes) {
            assert(spec_distinct(rest)) by {
                assert forall|i: int, j: int| 0 <= i < j < rest.len() implies rest[i].episodeid
                    != rest[j].episodeid by {
                    assert(rest[i] == episodes[i] && rest[j] == episodes[j]);
                }
            }
            assert forall|i: int, j: int| 0 <= i < j < kept.len() implies kept[i].episodeid
                != kept[j].episodeid by {
                if j < kept_rest.len() {
                    assert(kept[i] == kept_rest[i] && kept[j] == kept_rest[j]);
                } else {
                    assert(kept[j] == last);
                    assert(kept[i] == kept_rest[i]);
                    assert(spec_lists(kept_rest, kept[i].episodeid));
                    assert(spec_lists(rest, kept[i].episodeid));
                    let m = choose|m: int|
                        0 <= m < rest.len() && rest[m].episodeid == kept[i].episodeid;
                    assert(episodes[m].episodeid != episodes[episodes.len() - 1].episodeid);
                }
            }
        }
    }
}

/// Recording an episode keeps list and sets together.
pub proof fn lemma_push_keeps_consistent(
    episodes: Seq<Episode>,
    local: Set<i32>,
    server: Set<i32>,
    episode: Episode,
)
    requires
        spec_consistent(episodes, local, server),
    ensures
        spec_consistent(
            if local.contains(episode.episodeid) || server.contains(episode.episodeid) {
                episodes
            } else {
                episodes.push(episode)
            },
            local.insert(episode.episodeid),
            server,
        ),
        spec_consistent(
            if local.contains(episode.episodeid) || server.contains(episode.episodeid) {
                episodes
            } else {
                episodes.push(episode)
            },
            local,
            server.insert(episode.episodeid),
        ),
{
    let id = episode.episodeid;
    if local.contains(id) || server.contains(id) {
        assert(spec_lists(episodes, id));
    } else {
        let longer = episodes.push(episode);
        assert(!spec_lists(episodes, id));
        assert(spec_distinct(longer)) by {
            assert forall|i: int, j: int| 0 <= i < j < longer.len() implies longer[i].episodeid
                != longer[j].episodeid by {
                if j == episodes.len() {
                    assert(longer[i] == episodes[i]);
                    if longer[i].episodeid == id {
                        assert(spec_lists(episodes, id));
                    }
                } else {
                    assert(longer[i] == episodes[i] && longer[j] == episodes[j]);
                }
            }
        }
        assert forall|other: i32| spec_lists(longer, other) <==> (local.contains(other)
            || server.contains(other) || other == id) by {
            if spec_lists(longer, other) {
                let k = choose|k: int| 0 <= k < longer.len() && longer[k].episodeid == other;
                if k < episodes.len() {
                    assert(episodes[k].episodeid == other);
                    assert(spec_lists(episodes, other));
                }
            }
            if local.contains(other) || server.contains(other) {
                assert(spec_lists(episodes, other));
                let k = choose|k: int| 0 <= k < episodes.len() && episodes[k].episodeid == other;
                assert(longer[k].episodeid == other);
            }
            if other == id {
                assert(longer[episodes.len() as int].episodeid == id);
            }
        }
    }
}

/// Dropping the records of one place keeps list and sets together: the
/// episodes that are also recorded at the other place stay listed.
pub proof fn lemma_filter_keeps_consistent(
    episodes: Seq<Episode>,
    dropped: Set<i32>,
    other: Set<i32>,
    left: Set<i32>,
    keep: spec_fn(Episode) -> bool,
)
    requires
        spec_consistent(episodes, dropped, other),
        left.subset_of(dropped),
        forall|i: int|
            0 <= i < episodes.len() ==> (keep(#[trigger] episodes[i]) <==> other.contains(
                episodes[i].episodeid,
            ) || left.contains(episodes[i].episodeid)),
    ensures
        spec_consistent(episodes.filter(keep), left, other),
        spec_consistent(episodes.filter(keep), other, left),
{
    let kept = episodes.filter(keep);
    lemma_filter_keeps_distinct(episodes, keep);
    assert forall|id: i32| spec_lists(kept, id) <==> (left.contains(id) || other.contains(
        id,
    )) by {
        if spec_lists(kept, id) {
            let k = choose|k: int| 0 <= k < kept.len() && kept[k].episodeid == id;
            assert(keep(kept[k]));
            assert(kept.contains(kept[k]));
            episodes.lemma_filter_contains_rev(keep, kept[k]);
            let i = choose|i: int| 0 <= i < episodes.len() && episodes[i] == kept[k];
            assert(keep(episodes[i]));
        }
        if left.contains(id) || other.contains(id) {
            assert(spec_lists(episodes, id));
            let i = choose|i: int| 0 <= i < episodes.len() && episodes[i].episodeid == id;
            assert(keep(episodes[i]));
        }
    }
}

/// Dropping one record keeps list and sets together: the episode leaves
/// the list exactly when it is not recorded at the other place.
pub proof fn lemma_remove_keeps_consistent(
    episodes: Seq<Episode>,
    dropped: Set<i32>,
    other: Set<i32>,
    id: i32,
)
    requires
        spec_consistent(episodes, dropped, other) || spec_consistent(episodes, other, dropped),
    ensures
        spec_consistent(
            if other.contains(id) {
                episodes
            } else {
                episodes.filter(spec_is_other(id))
            },
            dropped.remove(id),
            other,
        ),
        spec_consistent(
            if other.contains(id) {
                episodes
            } else {
                episodes.filter(spec_is_other(id))
            },
            other,
            dropped.remove(id),
        ),
{
    assert(spec_consistent(episodes, dropped, other));
    if !other.contains(id) {
        lemma_filter_keeps_consistent(
            episodes,
            dropped,
            other,
            dropped.remove(id),
            spec_is_other(id),
        );
    }
}

/// The records of the episodes that are downloaded, to this device or to
/// the server.  Changing the records moves no file: downloads and
/// deletions have to follow what is recorded here.
#[derive(Debug, Default, PartialEq)]
pub struct DownloadedEpisodeRecords {
    episodes: Vec<Episode>,
    local_ids: HashSet<i32>,
    server_ids: HashSet<i32>,
}

impl DownloadedEpisodeRecords {
    /// The recorded episodes, in the order they were recorded.
    pub closed spec fn spec_episodes(&self) -> Seq<Episode> {
        self.episodes@
    }

    /// The identifiers of the episodes downloaded to this device.
    pub closed spec fn spec_local_ids(&self) -> Set<i32> {
        self.local_ids@
    }

    /// The identifiers of the episodes downloaded to the server.
    pub closed spec fn spec_server_ids(&self) -> Set<i32> {
        self.server_ids@
    }

    /// Whether list and sets belong together: every recorded identifier
    /// has exactly one episode in the list, and the list holds no other.
    pub open spec fn wf(&self) -> bool {
        spec_consistent(self.spec_episodes(), self.spec_local_ids(), self.spec_server_ids())
    }

    /// Whether `id` is recorded as downloaded anywhere.
    pub open spec fn spec_is_download(&self, id: i32) -> bool {
        self.spec_local_ids().contains(id) || self.spec_server_ids().contains(id)
    }

    /// Records without any episode.
    pub fn new() -> (records: DownloadedEpisodeRecords)
        ensures
            records.spec_episodes() == Seq::<Episode>::empty(),
            records.spec_local_ids() == Set::<i32>::empty(),
            records.spec_server_ids() == Set::<i32>::empty(),
            records.wf(),
    {
        DownloadedEpisodeRecords {
            episodes: Vec::new(),
            local_ids: HashSet::new(),
            server_ids: HashSet::new(),
        }
    }

    /// The recorded episodes, in the order they were recorded.
    pub fn episodes(&self) -> (episodes: &Vec<Episode>)
        ensures
            episodes@ == self.spec_episodes(),
    {
        &self.episodes
    }

    /// The identifiers of the episodes downloaded to this device, each
    /// once, in no particular order.
    pub fn local_ids(&self) -> (ids: Vec<i32>)
        ensures
            ids@.to_set() == self.spec_local_ids(),
            ids@.no_duplicates(),
    {
        ids_of_set(&self.local_ids)
    }

    /// The identifiers of the episodes downloaded to the server, each
    /// once, in no particular order.
    pub fn server_ids(&self) -> (ids: Vec<i32>)
        ensures
            ids@.to_set() == self.spec_server_ids(),
            ids@.no_duplicates(),
    {
        ids_of_set(&self.server_ids)
    }

    /// Whether the episode is downloaded to the server.
    pub fn is_server_download(&self, id: i32) -> (found: bool)
        ensures
            found == self.spec_server_ids().contains(id),
    {
        self.server_ids.contains(&id)
    }

    /// Whether the episode is downloaded to this device.
    pub fn is_local_download(&self, id: i32) -> (found: bool)
        ensures
            found == self.spec_local_ids().contains(id),
    {
        self.local_ids.contains(&id)
    }

    /// Whether the episode is downloaded to this device or to the server.
    pub fn is_download(&self, id: i32) -> (found: bool)
        ensures
            found == self.spec_is_download(id),
    {
        self.is_local_download(id) || self.is_server_download(id)
    }

    /// Records an episode downloaded to this device.  The episode joins
    /// the list unless it is recorded already, here or on the server.
    pub fn push_local(&mut self, episode: Episode)
        ensures
            final(self).spec_local_ids() == old(self).spec_local_ids().insert(episode.episodeid),
            final(self).spec_server_ids() == old(self).spec_server_ids(),
            final(self).spec_episodes() == if old(self).spec_is_download(episode.episodeid) {
                old(self).spec_episodes()
            } else {
                old(self).spec_episodes().push(episode)
            },
            old(self).wf() ==> final(self).wf(),
    {
        proof {
            if self.wf() {
                lemma_push_keeps_consistent(
                    self.episodes@,
                    self.local_ids@,
                    self.server_ids@,
                    episode,
                );
            }
        }
        let id: i32 = episode.episodeid;
        if !self.server_ids.contains(&id) && !self.local_ids.contains(&id) {
            self.episodes.push(episode);
        }
        self.local_ids.insert(id);
    }

    /// Records an episode downloaded to the server.  The episode joins
    /// the list unless it is recorded already, here or on the server.
    pub fn push_server(&mut self, episode: Episode)
        ensures
            final(self).spec_server_ids() == old(self).spec_server_ids().insert(episode.episodeid),
            final(self).spec_local_ids() == old(self).spec_local_ids(),
            final(self).spec_episodes() == if old(self).spec_is_download(episode.episodeid) {
                old(self).spec_episodes()
            } else {
                old(self).spec_episodes().push(episode)
            },
            old(self).wf() ==> final(self).wf(),
    {
        proof {
            if self.wf() {
                lemma_push_keeps_consistent(
                    self.episodes@,
                    self.local_ids@,
                    self.server_ids@,
                    episode,
                );
            }
        }
        let id: i32 = episode.episodeid;
        if !self.server_ids.contains(&id) && !self.local_ids.contains(&id) {
            self.episodes.push(episode);
        }
        self.server_ids.insert(id);
    }

    /// Drops the record of an episode downloaded to this device.  The
    /// episode leaves the list unless it is also on the server.
    pub fn remove_local(&mut self, id: i32)
        ensures
            final(self).spec_local_ids() == old(self).spec_local_ids().remove(id),
            final(self).spec_server_ids() == old(self).spec_server_ids(),
            final(self).spec_episodes() == if old(self).spec_server_ids().contains(id) {
                old(self).spec_episodes()
            } else {
                old(self).spec_episodes().filter(spec_is_other(id))
            },
            old(self).wf() ==> final(self).wf(),
    {
        proof {
            if self.wf() {
                lemma_remove_keeps_consistent(self.episodes@, self.local_ids@, self.server_ids@, id);
            }
        }
        self.local_ids.remove(&id);
        if !self.server_ids.contains(&id) {
            remove_episode(&mut self.episodes, id);
        }
    }

    /// Drops the record of an episode downloaded to the server.  The
    /// episode leaves the list unless it is also on this device.
    pub fn remove_server(&mut self, id: i32)
        ensures
            final(self).spec_server_ids() == old(self).spec_server_ids().remove(id),
            final(self).spec_local_ids() == old(self).spec_local_ids(),
            final(self).spec_episodes() == if old(self).spec_local_ids().contains(id) {
                old(self).spec_episodes()
            } else {
                old(self).spec_episodes().filter(spec_is_other(id))
            },
            old(self).wf() ==> final(self).wf(),
    {
        proof {
            if self.wf() {
                lemma_remove_keeps_consistent(self.episodes@, self.server_ids@, self.local_ids@, id);
            }
        }
        self.server_ids.remove(&id);
        if !self.local_ids.contains(&id) {
            remove_episode(&mut self.episodes, id);
        }
    }

    /// Drops every record.
    pub fn clear(&mut self)
        ensures
            final(self).spec_episodes() == Seq::<Episode>::empty(),
            final(self).spec_local_ids() == Set::<i32>::empty(),
            final(self).spec_server_ids() == Set::<i32>::empty(),
            final(self).wf(),
    {
        self.episodes.clear();
        self.server_ids.clear();
        self.local_ids.clear();
    }

    /// Drops every record of a download to this device.  An episode that
    /// was recorded as local leaves the list unless it is also on the
    /// server.
    pub fn clear_local(&mut self)
        ensures
            final(self).spec_local_ids() == Set::<i32>::empty(),
            final(self).spec_server_ids() == old(self).spec_server_ids(),
            final(self).spec_episodes() == old(self).spec_episodes().filter(
                spec_outlives_local(old(self).spec_local_ids(), old(self).spec_server_ids()),
            ),
            old(self).wf() ==> final(self).wf(),
    {
        proof {
            if self.wf() {
                lemma_filter_keeps_consistent(
                    self.episodes@,
                    self.local_ids@,
                    self.server_ids@,
                    Set::<i32>::empty(),
                    spec_outlives_local(self.local_ids@, self.server_ids@),
                );
            }
        }
        retain_outliving(&mut self.episodes, &self.local_ids, &self.server_ids);
        self.local_ids.clear();
    }

    /// Does what `clear_local` does: the local records are the ones that
    /// go, and the server's records stay as they are.
    pub fn clear_server(&mut self)
        ensures
            final(self).spec_local_ids() == Set::<i32>::empty(),
            final(self).spec_server_ids() == old(self).spec_server_ids(),
            final(self).spec_episodes() == old(self).spec_episodes().filter(
                spec_outlives_local(old(self).spec_local_ids(), old(self).spec_server_ids()),
            ),
            old(self).wf() ==> final(self).wf(),
    {
        self.clear_local();
    }

    /// The number of recorded episodes.
    pub fn len(&self) -> (len: usize)
        ensures
            len == self.spec_episodes().len(),
    {
        self.episodes.len()
    }
}

/// The members of `set`, each once, in the order the set hands them out.
fn ids_of_set(set: &HashSet<i32>) -> (ids: Vec<i32>)
    ensures
        ids@.to_set() == set@,
        ids@.no_duplicates(),
{
    let mut ids: Vec<i32> = Vec::new();
    let ghost all: Seq<i32> = set.iter().remaining().unref();
    assert(all.no_duplicates()) by {
        let refs = set.iter().remaining();
        assert forall|i: int, j: int| 0 <= i < all.len() && 0 <= j < all.len() && i != j implies all[i]
            != all[j] by {
            assert(refs[i] != refs[j]);
        }
    }
    for id in walk: set.iter()
        invariant
            walk.seq().unref() == all,
            all.to_set() == set@,
            all.no_duplicates(),
            ids@ == all.take(walk.index() as int),
    {
        assert(all.take(walk.index() + 1) =~= all.take(walk.index() as int).push(*id));
        ids.push(*id);
    }
    assert(ids@ =~= all);
    ids
}

/// Keeps the episodes that are on the server or were never recorded as
/// local, in their order.
fn retain_outliving(episodes: &mut Vec<Episode>, local: &HashSet<i32>, server: &HashSet<i32>)
    ensures
        final(episodes)@ == old(episodes)@.filter(spec_outlives_local(local@, server@)),
{
    let keep = |e: &Episode| -> (stays: bool)
        ensures
            stays == (server@.contains(e.episodeid) || !local@.contains(e.episodeid)),
        { server.contains(&e.episodeid) || !local.contains(&e.episodeid) };
    retain_by(episodes, keep, Ghost(spec_outlives_local(local@, server@)));
}

} // verus!
