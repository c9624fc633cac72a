//! The history page: the episodes a listener has played, filtered and
//! sorted for the list.

use crate::listing::{prepare_list, spec_is_prepared, spec_preferred, SortDirection};
use crate::requests::episode::Episode;
use vstd::prelude::*;

verus! {

/// The orders the history page offers.
#[derive(Debug, Clone, Copy, PartialEq, Eq, Structural)]
pub enum HistorySortDirection {
    NewestFirst,
    OldestFirst,
    ShortestFirst,
    LongestFirst,
    TitleAZ,
    TitleZA,
}

impl HistorySortDirection {
    /// The order this choice stands for.
    pub open spec fn spec_direction(self) -> SortDirection {
        match self {
            HistorySortDirection::NewestFirst => SortDirection::NewestFirst,
            HistorySortDirection::OldestFirst => SortDirection::OldestFirst,
            HistorySortDirection::ShortestFirst => SortDirection::ShortestFirst,
            HistorySortDirection::LongestFirst => SortDirection::LongestFirst,
            HistorySortDirection::TitleAZ => SortDirection::TitleAZ,
            HistorySortDirection::TitleZA => SortDirection::TitleZA,
        }
    }

    /// The order this choice stands for.
    pub fn direction(self) -> (direction: SortDirection)
        ensures
            direction == self.spec_direction(),
    {
        match self {
            HistorySortDirection::NewestFirst => SortDirection::NewestFirst,
            HistorySortDirection::OldestFirst => SortDirection::OldestFirst,
            HistorySortDirection::ShortestFirst => SortDirection::ShortestFirst,
            HistorySortDirection::LongestFirst => SortDirection::LongestFirst,
            HistorySortDirection::TitleAZ => SortDirection::TitleAZ,
            HistorySortDirection::TitleZA => SortDirection::TitleZA,
        }
    }

    /// The choice the page starts with, from the preference stored for it.
    pub fn from_preference(text: Option<&str>) -> (choice: HistorySortDirection)
        ensures
            choice.spec_direction() == spec_preferred(
                match text {
                    Some(name) => Some(name@),
                    None => None,
                },
            ),
    {
        match SortDirection::from_preference(text) {
            SortDirection::NewestFirst => HistorySortDirection::NewestFirst,
            SortDirection::OldestFirst => HistorySortDirection::OldestFirst,
            SortDirection::ShortestFirst => HistorySortDirection::ShortestFirst,
            SortDirection::LongestFirst => HistorySortDirection::LongestFirst,
            SortDirection::TitleAZ => HistorySortDirection::TitleAZ,
            SortDirection::TitleZA => HistorySortDirection::TitleZA,
        }
    }
}

/// The list of the history page: the played episodes that pass the search
/// and the status filter, in the chosen order.
pub fn history(
    history_episodes: Vec<Episode>,
    search: &str,
    sort_direction: Option<HistorySortDirection>,
    show_completed: bool,
    show_in_progress: bool,
) -> (list: Vec<Episode>)
    ensures
        spec_is_prepared(
            list@,
            history_episodes@,
            search@,
            match sort_direction {
                Some(choice) => Some(choice.spec_direction()),
                None => None,
            },
            show_completed,
            show_in_progress,
        ),
{
    let direction: Option<SortDirection> = match sort_direction {
        Some(choice) => Some(choice.direction()),
        None => None,
    };
    prepare_list(history_episodes, search, direction, show_completed, show_in_progress)
}

} // verus!
