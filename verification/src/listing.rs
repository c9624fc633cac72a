//! Preparing a collection for a list page: which episodes the listener's
//! filters let through, and the order the listener asked for.
//!
//! Sorting is stable: episodes that the chosen order does not tell apart
//! stay in the order they came in.

use crate::requests::episode::Episode;
use crate::sequences::retain_by;
use crate::strings::{
    contains_text, lemma_bytes_less_irreflexive, lemma_bytes_less_transitive,
    lemma_bytes_not_less_transitive, lowercase_text, spec_bytes_less, spec_contains,
    spec_lowercase, spec_text_less, text_less,
};
use vstd::prelude::*;
use vstd::seq_lib::{to_multiset_insert, to_multiset_remove};
use vstd::string::StringExecFns;
use vstd::utf8::encode_utf8;

verus! {

/// The orders a list page offers.
#[derive(Debug, Clone, Copy, PartialEq, Eq, Structural)]
pub enum SortDirection {
    /// Latest publication date first.
    NewestFirst,
    /// Earliest publication date first.
    OldestFirst,
    /// Shortest duration first.
    ShortestFirst,
    /// Longest duration first.
    LongestFirst,
    /// Titles from A to Z.
    TitleAZ,
    /// Titles from Z to A.
    TitleZA,
}

/// Whether the order `direction` puts `a` before `b`.  Dates and titles
/// are compared as text.
pub open spec fn spec_before(a: Episode, b: Episode, direction: SortDirection) -> bool {
    match direction {
        SortDirection::NewestFirst => spec_text_less(b.episodepubdate@, a.episodepubdate@),
        SortDirection::OldestFirst => spec_text_less(a.episodepubdate@, b.episodepubdate@),
        SortDirection::ShortestFirst => a.episodeduration < b.episodeduration,
        SortDirection::LongestFirst => b.episodeduration < a.episodeduration,
        SortDirection::TitleAZ => spec_text_less(a.episodetitle@, b.episodetitle@),
        SortDirection::TitleZA => spec_text_less(b.episodetitle@, a.episodetitle@),
    }
}

/// Whether the order `direction` does not tell `a` and `b` apart.
pub open spec fn spec_tied(a: Episode, b: Episode, direction: SortDirection) -> bool {
    !spec_before(a, b, direction) && !spec_before(b, a, direction)
}

/// The test "tied with `x`", as a filter takes it.
pub open spec fn spec_tied_with(x: Episode, direction: SortDirection) -> spec_fn(Episode) -> bool {
    |e: Episode| spec_tied(e, x, direction)
}

/// Whether `episodes` are in the order `direction`: no episode stands
/// behind one that the order puts after it.
pub open spec fn spec_sorted(episodes: Seq<Episode>, direction: SortDirection) -> bool {
    forall|i: int, j: int|
        0 <= i < j < episodes.len() ==> !spec_before(episodes[j], episodes[i], direction)
}

/// Whether `sorted` holds the episodes of `episodes` with every group of
/// tied episodes in the order it had there.
pub open spec fn spec_stable(
    sorted: Seq<Episode>,
    episodes: Seq<Episode>,
    direction: SortDirection,
) -> bool {
    forall|x: Episode| #[trigger]
        sorted.filter(spec_tied_with(x, direction)) == episodes.filter(
            spec_tied_with(x, direction),
        )
}

/// No episode comes before itself, and the order is transitive, for what
/// comes before and for what does not come after.
pub proof fn lemma_order_laws(a: Episode, b: Episode, c: Episode, direction: SortDirection)
    ensures
        !spec_before(a, a, direction),
        spec_before(a, b, direction) && spec_before(b, c, direction) ==> spec_before(
            a,
            c,
            direction,
        ),
        !spec_before(b, a, direction) && !spec_before(c, b, direction) ==> !spec_before(
            c,
            a,
            direction,
        ),
{
    let (ka, kb, kc) = match direction {
        SortDirection::NewestFirst | SortDirection::OldestFirst => (
            encode_utf8(a.episodepubdate@),
            encode_utf8(b.episodepubdate@),
            encode_utf8(c.episodepubdate@),
        ),
        _ => (
            encode_utf8(a.episodetitle@),
            encode_utf8(b.episodetitle@),
            encode_utf8(c.episodetitle@),
        ),
    };
    lemma_bytes_less_irreflexive(ka);
    if spec_bytes_less(ka, kb) && spec_bytes_less(kb, kc) {
        lemma_bytes_less_transitive(ka, kb, kc);
    }
    if spec_bytes_less(kc, kb) && spec_bytes_less(kb, ka) {
        lemma_bytes_less_transitive(kc, kb, ka);
    }
    if !spec_bytes_less(kb, ka) && !spec_bytes_less(kc, kb) {
        lemma_bytes_not_less_transitive(ka, kb, kc);
    }
    if !spec_bytes_less(kb, kc) && !spec_bytes_less(ka, kb) {
        lemma_bytes_not_less_transitive(kc, kb, ka);
    }
}

/// Whether the order `direction` puts `a` before `b`.
pub fn before(a: &Episode, b: &Episode, direction: SortDirection) -> (first: bool)
    ensures
        first == spec_before(*a, *b, direction),
{
    match direction {
        SortDirection::NewestFirst => text_less(
            b.episodepubdate.as_str(),
            a.episodepubdate.as_str(),
        ),
        SortDirection::OldestFirst => text_less(
            a.episodepubdate.as_str(),
            b.episodepubdate.as_str(),
        ),
        SortDirection::ShortestFirst => a.episodeduration < b.episodeduration,
        SortDirection::LongestFirst => b.episodeduration < a.episodeduration,
        SortDirection::TitleAZ => text_less(a.episodetitle.as_str(), b.episodetitle.as_str()),
        SortDirection::TitleZA => text_less(b.episodetitle.as_str(), a.episodetitle.as_str()),
    }
}

/// Putting an episode into a sorted run, behind everything that does not
/// come after it, leaves the run sorted and every group of tied episodes
/// in its order with the new episode last.
proof fn lemma_insert_keeps_order(
    run: Seq<Episode>,
    x: Episode,
    at: int,
    direction: SortDirection,
)
    requires
        0 <= at <= run.len(),
        spec_sorted(run, direction),
        at > 0 ==> !spec_before(x, run[at - 1], direction),
        forall|j: int| at <= j < run.len() ==> spec_before(x, run[j], direction),
    ensures
        spec_sorted(run.insert(at, x), direction),
        forall|y: Episode| #[trigger]
            run.insert(at, x).filter(spec_tied_with(y, direction)) == run.push(x).filter(
                spec_tied_with(y, direction),
            ),
{
    let longer = run.insert(at, x);
    assert forall|i: int, j: int| 0 <= i < j < longer.len() implies !spec_before(
        longer[j],
        longer[i],
        direction,
    ) by {
        if j < at {
            assert(longer[i] == run[i] && longer[j] == run[j]);
        } else if j == at {
            assert(longer[i] == run[i]);
            lemma_order_laws(run[i], run[at - 1], x, direction);
            if i < at - 1 {
                assert(!spec_before(run[at - 1], run[i], direction));
            } else {
                lemma_order_laws(run[i], run[i], x, direction);
            }
        } else if i < at {
            assert(longer[i] == run[i] && longer[j] == run[j - 1]);
        } else if i == at {
            assert(longer[j] == run[j - 1]);
            lemma_order_laws(x, run[j - 1], x, direction);
        } else {
            assert(longer[i] == run[i - 1] && longer[j] == run[j - 1]);
        }
    }
    assert forall|y: Episode| #[trigger]
        longer.filter(spec_tied_with(y, direction)) == run.push(x).filter(
            spec_tied_with(y, direction),
        ) by {
        let tied = spec_tied_with(y, direction);
        let head = run.take(at);
        let tail = run.skip(at);
        let one = seq![x];
        assert(longer =~= head + one + tail);
        assert(run.push(x) =~= head + tail + one);
        Seq::filter_distributes_over_add(head + one, tail, tied);
        Seq::filter_distributes_over_add(head, one, tied);
        Seq::filter_distributes_over_add(head + tail, one, tied);
        Seq::filter_distributes_over_add(head, tail, tied);
        if tied(x) {
            assert(tail.all(|e: Episode| !tied(e))) by {
                assert forall|j: int| 0 <= j < tail.len() implies !tied(#[trigger] tail[j]) by {
                    assert(tail[j] == run[at + j]);
                    lemma_order_laws(tail[j], y, x, direction);
                }
            }
            tail.lemma_all_neg_filter_empty(tied);
            assert(tail.filter(tied) =~= Seq::<Episode>::empty());
            assert(head.filter(tied) + one.filter(tied) + tail.filter(tied) =~= head.filter(tied)
                + tail.filter(tied) + one.filter(tied));
        } else {
            assert(one.filter(tied) =~= Seq::<Episode>::empty()) by {
                reveal_with_fuel(Seq::filter, 2);
                assert(one.drop_last() =~= Seq::<Episode>::empty());
                assert(one.last() == x);
            }
            assert(head.filter(tied) + one.filter(tied) + tail.filter(tied) =~= head.filter(tied)
                + tail.filter(tied) + one.filter(tied));
        }
    }
}

/// Puts `episodes` into the order `direction`.  No episode is added or
/// lost, and episodes that the order does not tell apart stay in the order
/// they came in.
pub fn sort_episodes(episodes: &mut Vec<Episode>, direction: SortDirection)
    ensures
        final(episodes)@.len() == old(episodes)@.len(),
        final(episodes)@.to_multiset() == old(episodes)@.to_multiset(),
        spec_sorted(final(episodes)@, direction),
        spec_stable(final(episodes)@, old(episodes)@, direction),
{
    let ghost before_all = episodes@;
    let mut done: usize = 0;
    assert(episodes@.take(0) =~= before_all.take(0));
    while done < episodes.len()
        invariant
            0 <= done <= episodes@.len(),
            episodes@.len() == before_all.len(),
            episodes@.to_multiset() == before_all.to_multiset(),
            spec_sorted(episodes@.take(done as int), direction),
            episodes@.skip(done as int) == before_all.skip(done as int),
            spec_stable(episodes@.take(done as int), before_all.take(done as int), direction),
        decreases episodes@.len() - done,
    {
        let ghost here = episodes@;
        let ghost run = here.take(done as int);
        assert(here[done as int] == here.skip(done as int)[0]);
        assert(before_all[done as int] == before_all.skip(done as int)[0]);
        let mut at: usize = done;
        while at > 0 && before(&episodes[done], &episodes[at - 1], direction)
            invariant
                0 <= at <= done < episodes@.len(),
                episodes@ == here,
                forall|j: int|
                    at <= j < done ==> spec_before(here[done as int], here[j], direction),
            decreases at,
        {
            at -= 1;
        }
        let moved = episodes.remove(done);
        episodes.insert(at, moved);
        proof {
            let x = here[done as int];
            to_multiset_remove(here, done as int);
            to_multiset_insert(here.remove(done as int), at as int, x);
            here.to_multiset_ensures();
            assert(here.to_multiset().count(x) > 0);
            assert(here.to_multiset().remove(x).insert(x) =~= here.to_multiset());
            assert(forall|j: int| 0 <= j < done ==> run[j] == here[j]);
            lemma_insert_keeps_order(run, x, at as int, direction);
            assert(episodes@.take(done + 1) =~= run.insert(at as int, x));
            assert forall|j: int| done < j < here.len() implies here[j] == before_all[j] by {
                assert(here[j] == here.skip(done as int)[j - done]);
                assert(before_all[j] == before_all.skip(done as int)[j - done]);
            }
            assert(episodes@.skip(done + 1) =~= before_all.skip(done + 1));
            assert(before_all.take(done + 1) =~= before_all.take(done as int).push(x));
            assert forall|y: Episode| #[trigger]
                episodes@.take(done + 1).filter(spec_tied_with(y, direction))
                    == before_all.take(done + 1).filter(spec_tied_with(y, direction)) by {
                let tied = spec_tied_with(y, direction);
                let one = seq![x];
                Seq::filter_distributes_over_add(run, one, tied);
                Seq::filter_distributes_over_add(before_all.take(done as int), one, tied);
                assert(run.push(x) =~= run + one);
                assert(before_all.take(done as int).push(x) =~= before_all.take(done as int)
                    + one);
                assert(run.filter(tied) == before_all.take(done as int).filter(tied));
            }
        }
        done += 1;
    }
    assert(episodes@.take(done as int) =~= episodes@);
    assert(before_all.take(done as int) =~= before_all);
}

/// Whether an episode passes the status filter: only completed episodes
/// where those are asked for; else only episodes begun and not completed
/// where those are asked for; else every episode.
pub open spec fn spec_matches_status(
    episode: Episode,
    show_completed: bool,
    show_in_progress: bool,
) -> bool {
    if show_completed {
        episode.completed
    } else if show_in_progress {
        episode.listenduration > 0 && !episode.completed
    } else {
        true
    }
}

/// Whether an episode passes the search: there is nothing to search for,
/// or the search text occurs in its title or in its description, letter
/// case aside.
pub open spec fn spec_matches_search(episode: Episode, search: Seq<char>) -> bool {
    search.len() == 0 || spec_contains(
        spec_lowercase(episode.episodetitle@),
        spec_lowercase(search),
    ) || spec_contains(spec_lowercase(episode.episodedescription@), spec_lowercase(search))
}

/// The test of both filters, as a filter takes it.
pub open spec fn spec_passes(
    search: Seq<char>,
    show_completed: bool,
    show_in_progress: bool,
) -> spec_fn(Episode) -> bool {
    |e: Episode|
        spec_matches_search(e, search) && spec_matches_status(e, show_completed, show_in_progress)
}

/// Whether an episode passes the status filter.
pub fn matches_status(episode: &Episode, show_completed: bool, show_in_progress: bool) -> (passes:
    bool)
    ensures
        passes == spec_matches_status(*episode, show_completed, show_in_progress),
{
    if show_completed {
        episode.completed
    } else if show_in_progress {
        episode.listenduration > 0 && !episode.completed
    } else {
        true
    }
}

/// Whether an episode passes the search for `search`.
pub fn matches_search(episode: &Episode, search: &str) -> (passes: bool)
    ensures
        passes == spec_matches_search(*episode, search@),
{
    if search.is_empty() {
        return true;
    }
    let wanted: String = lowercase_text(search);
    let title: String = lowercase_text(episode.episodetitle.as_str());
    if contains_text(title.as_str(), wanted.as_str()) {
        return true;
    }
    let description: String = lowercase_text(episode.episodedescription.as_str());
    contains_text(description.as_str(), wanted.as_str())
}

/// Keeps the episodes that pass both filters, in their order.
pub fn filter_episodes(
    episodes: &mut Vec<Episode>,
    search: &str,
    show_completed: bool,
    show_in_progress: bool,
)
    ensures
        final(episodes)@ == old(episodes)@.filter(
            spec_passes(search@, show_completed, show_in_progress),
        ),
{
    let keep = |e: &Episode| -> (stays: bool)
        ensures
            stays == (spec_matches_search(*e, search@) && spec_matches_status(
                *e,
                show_completed,
                show_in_progress,
            )),
        { matches_search(e, search) && matches_status(e, show_completed, show_in_progress) };
    retain_by(episodes, keep, Ghost(spec_passes(search@, show_completed, show_in_progress)));
}

/// Whether `list` is what a page shows of `episodes`: the episodes that
/// pass the filters, in the order asked for, or as they came where no
/// order is asked for.
pub open spec fn spec_is_prepared(
    list: Seq<Episode>,
    episodes: Seq<Episode>,
    search: Seq<char>,
    direction: Option<SortDirection>,
    show_completed: bool,
    show_in_progress: bool,
) -> bool {
    let kept = episodes.filter(spec_passes(search, show_completed, show_in_progress));
    match direction {
        None => list == kept,
        Some(order) => {
            &&& list.len() == kept.len()
            &&& list.to_multiset() == kept.to_multiset()
            &&& spec_sorted(list, order)
            &&& spec_stable(list, kept, order)
        },
    }
}

/// What a list page shows of `episodes`: those that pass the search and
/// the status filter, sorted where an order is chosen.
pub fn prepare_list(
    episodes: Vec<Episode>,
    search: &str,
    direction: Option<SortDirection>,
    show_completed: bool,
    show_in_progress: bool,
) -> (list: Vec<Episode>)
    ensures
        spec_is_prepared(
            list@,
            episodes@,
            search@,
            direction,
            show_completed,
            show_in_progress,
        ),
{
    let mut list = episodes;
    filter_episodes(&mut list, search, show_completed, show_in_progress);
    match direction {
        Some(order) => {
            sort_episodes(&mut list, order);
        },
        None => {},
    }
    list
}

/// The order that the stored preference `text` names; the newest first
/// where it names none.
pub open spec fn spec_preferred(text: Option<Seq<char>>) -> SortDirection {
    match text {
        None => SortDirection::NewestFirst,
        Some(name) => if name == "oldest"@ {
            SortDirection::OldestFirst
        } else if name == "shortest"@ {
            SortDirection::ShortestFirst
        } else if name == "longest"@ {
            SortDirection::LongestFirst
        } else if name == "title_az"@ {
            SortDirection::TitleAZ
        } else if name == "title_za"@ {
            SortDirection::TitleZA
        } else {
            SortDirection::NewestFirst
        },
    }
}

/// Whether two texts are the same.
fn same_text(a: &str, b: &str) -> (same: bool)
    ensures
        same == (a@ == b@),
{
    String::from_str(a) == String::from_str(b)
}

impl SortDirection {
    /// The order a page starts with: the one the listener chose last time,
    /// as it was stored under one of the names `newest`, `oldest`,
    /// `shortest`, `longest`, `title_az` and `title_za`, or the newest
    /// first.
    pub fn from_preference(text: Option<&str>) -> (direction: SortDirection)
        ensures
            direction == spec_preferred(
                match text {
                    Some(name) => Some(name@),
                    None => None,
                },
            ),
    {
        match text {
            None => SortDirection::NewestFirst,
            Some(name) => {
                if same_text(name, "oldest") {
                    SortDirection::OldestFirst
                } else if same_text(name, "shortest") {
                    SortDirection::ShortestFirst
                } else if same_text(name, "longest") {
                    SortDirection::LongestFirst
                } else if same_text(name, "title_az") {
                    SortDirection::TitleAZ
                } else if same_text(name, "title_za") {
                    SortDirection::TitleZA
                } else {
                    SortDirection::NewestFirst
                }
            },
        }
    }
}

} // verus!
