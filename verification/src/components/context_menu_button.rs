//! The kinds of page an episode can be listed on.

use vstd::prelude::*;

verus! {

/// The page an item is drawn for; its menu differs from page to page.
#[derive(Debug, Clone, Copy, PartialEq, Eq, Structural)]
pub enum PageType {
    Saved,
    Queue,
    Downloads,
    LocalDownloads,
    Default,
}

} // verus!
