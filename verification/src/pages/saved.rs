//! The saved page: the episodes a listener put aside, filtered and sorted
//! for the list.

use crate::listing::{prepare_list, spec_is_prepared, spec_preferred, SortDirection};
use crate::requests::episode::Episode;
use vstd::prelude::*;

verus! {

/// The orders the saved page offers.
#[derive(Debug, Clone, Copy, PartialEq, Eq, Structural)]
pub enum SavedSortDirection {
    NewestFirst,
    OldestFirst,
    ShortestFirst,
    LongestFirst,
    TitleAZ,
    TitleZA,
}

impl SavedSortDirection {
    /// The order this choice stands for.
    pub open spec fn spec_direction(self) -> SortDirection {
        match self {
            SavedSortDirection::NewestFirst => SortDirection::NewestFirst,
            SavedSortDirection::OldestFirst => SortDirection::OldestFirst,
            SavedSortDirection::ShortestFirst => SortDirection::ShortestFirst,
            SavedSortDirection::LongestFirst => SortDirection::LongestFirst,
            SavedSortDirection::TitleAZ => SortDirection::TitleAZ,
            SavedSortDirection::TitleZA => SortDirection::TitleZA,
        }
    }

    /// The order this choice stands for.
    pub fn direction(self) -> (direction: SortDirection)
        ensures
            direction == self.spec_direction(),
    {
        match self {
            SavedSortDirection::NewestFirst => SortDirection::NewestFirst,
            SavedSortDirection::OldestFirst => SortDirection::OldestFirst,
            SavedSortDirection::ShortestFirst => SortDirection::ShortestFirst,
            SavedSortDirection::LongestFirst => SortDirection::LongestFirst,
            SavedSortDirection::TitleAZ => SortDirection::TitleAZ,
            SavedSortDirection::TitleZA => SortDirection::TitleZA,
        }
    }

    /// The choice the page starts with, from the preference stored for it.
    pub fn from_preference(text: Option<&str>) -> (choice: SavedSortDirection)
        ensures
            choice.spec_direction() == spec_preferred(
                match text {
                    Some(name) => Some(name@),
                    None => None,
                },
            ),
    {
        match SortDirection::from_preference(text) {
            SortDirection::NewestFirst => SavedSortDirection::NewestFirst,
            SortDirection::OldestFirst => SavedSortDirection::OldestFirst,
            SortDirection::ShortestFirst => SavedSortDirection::ShortestFirst,
            SortDirection::LongestFirst => SavedSortDirection::LongestFirst,
            SortDirection::TitleAZ => SavedSortDirection::TitleAZ,
            SortDirection::TitleZA => SavedSortDirection::TitleZA,
        }
    }
}

/// The list of the saved page: the saved episodes that pass the search and
/// the status filter, in the chosen order.
pub fn saved(
    saved_episodes: Vec<Episode>,
    search: &str,
    sort_direction: Option<SavedSortDirection>,
    show_completed: bool,
    show_in_progress: bool,
) -> (list: Vec<Episode>)
    ensures
        spec_is_prepared(
            list@,
            saved_episodes@,
            search@,
            match sort_direction {
                Some(choice) => Some(choice.spec_direction()),
                None => None,
            },
            show_completed,
            show_in_progress,
        ),
{
    let direction: Option<SortDirection> = match sort_direction {
        Some(choice) => Some(choice.direction()),
        None => None,
    };
    prepare_list(saved_episodes, search, direction, show_completed, show_in_progress)
}

} // verus!
