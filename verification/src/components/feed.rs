//! The feed page: the recent episodes of every followed podcast.

use crate::requests::episode::Episode;
use vstd::prelude::*;

verus! {

/// What the feed page shows.
#[derive(Debug, Clone, Copy, PartialEq, Eq, Structural)]
pub enum FeedView {
    /// The loading animation.
    Loading,
    /// A notice that there are no recent episodes, in the listener's
    /// language, for a feed that was loaded and is empty.
    NothingRecent,
    /// The same notice in English, for a feed that was never loaded or
    /// came without a list.
    NeverLoaded,
    /// The windowed list of the recent episodes.
    List,
}

/// What the feed page shows while `loading` says whether the feed is
/// still being fetched and `recent` is the feed as the store holds it,
/// with the list of episodes it came with.
pub open spec fn spec_feed(loading: bool, recent: Option<Option<Seq<Episode>>>) -> FeedView {
    if loading {
        FeedView::Loading
    } else {
        match recent {
            Some(Some(episodes)) => if episodes.len() == 0 {
                FeedView::NothingRecent
            } else {
                FeedView::List
            },
            _ => FeedView::NeverLoaded,
        }
    }
}

/// Decides what the feed page shows.
pub fn feed(loading: bool, recent: Option<Option<&Vec<Episode>>>) -> (view: FeedView)
    ensures
        view == spec_feed(
            loading,
            match recent {
                Some(Some(episodes)) => Some(Some(episodes@)),
                Some(None) => Some(None),
                None => None,
            },
        ),
{
    if loading {
        FeedView::Loading
    } else {
        match recent {
            Some(Some(episodes)) => {
                if episodes.len() == 0 {
                    FeedView::NothingRecent
                } else {
                    FeedView::List
                }
            },
            _ => FeedView::NeverLoaded,
        }
    }
}

} // verus!
