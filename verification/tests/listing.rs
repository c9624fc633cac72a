use pinepods_core::components::history::{history, HistorySortDirection};
use pinepods_core::listing::{
    before, filter_episodes, matches_search, matches_status, prepare_list, sort_episodes,
    SortDirection,
};
use pinepods_core::pages::saved::{saved, SavedSortDirection};
use pinepods_core::requests::episode::Episode;

const DIRECTIONS: [SortDirection; 6] = [
    SortDirection::NewestFirst,
    SortDirection::OldestFirst,
    SortDirection::ShortestFirst,
    SortDirection::LongestFirst,
    SortDirection::TitleAZ,
    SortDirection::TitleZA,
];

fn episode(id: i32, title: &str, date: &str, duration: i32) -> Episode {
    Episode {
        episodeid: id,
        episodetitle: title.to_string(),
        episodepubdate: date.to_string(),
        episodeduration: duration,
        ..Episode::default()
    }
}

fn shelf() -> Vec<Episode> {
    let mut items = vec![
        episode(1, "Borrowing", "2024-03-01T10:00:00", 1800),
        episode(2, "async in anger", "2023-12-24T08:30:00", 3600),
        episode(3, "Zero-cost", "2024-03-01T10:00:00", 900),
        episode(4, "Ähnlich", "2022-01-05T00:00:00", 3600),
        episode(5, "borrowing", "2024-07-19T16:45:00", 1800),
        episode(6, "Async", "2023-12-24T08:30:00", 60),
    ];
    items[0].episodedescription = "Why the checker says no".to_string();
    items[1].episodedescription = "Futures and RUST runtimes".to_string();
    items[1].completed = true;
    items[2].listenduration = 30;
    items[3].listenduration = 10;
    items[3].completed = true;
    items[4].listenduration = 1;
    items
}

fn ids(items: &[Episode]) -> Vec<i32> {
    items.iter().map(|e| e.episodeid).collect()
}

/// The order a comparison sort of the standard library gives.
fn expected_order(items: &[Episode], direction: SortDirection) -> Vec<i32> {
    let mut sorted = items.to_vec();
    sorted.sort_by(|a, b| match direction {
        SortDirection::NewestFirst => b.episodepubdate.cmp(&a.episodepubdate),
        SortDirection::OldestFirst => a.episodepubdate.cmp(&b.episodepubdate),
        SortDirection::ShortestFirst => a.episodeduration.cmp(&b.episodeduration),
        SortDirection::LongestFirst => b.episodeduration.cmp(&a.episodeduration),
        SortDirection::TitleAZ => a.episodetitle.cmp(&b.episodetitle),
        SortDirection::TitleZA => b.episodetitle.cmp(&a.episodetitle),
    });
    ids(&sorted)
}

#[test]
fn sorting_by_title_compares_bytes() {
    let mut items = shelf();
    sort_episodes(&mut items, SortDirection::TitleAZ);
    assert_eq!(ids(&items), vec![6, 1, 3, 2, 5, 4]);
    sort_episodes(&mut items, SortDirection::TitleZA);
    assert_eq!(ids(&items), vec![4, 5, 2, 3, 1, 6]);
}

#[test]
fn sorting_keeps_ties_in_their_order() {
    let mut items = shelf();
    sort_episodes(&mut items, SortDirection::NewestFirst);
    assert_eq!(ids(&items), vec![5, 1, 3, 2, 6, 4]);
    let mut items = shelf();
    sort_episodes(&mut items, SortDirection::OldestFirst);
    assert_eq!(ids(&items), vec![4, 2, 6, 1, 3, 5]);
    let mut items = shelf();
    sort_episodes(&mut items, SortDirection::ShortestFirst);
    assert_eq!(ids(&items), vec![6, 3, 1, 5, 2, 4]);
    let mut items = shelf();
    sort_episodes(&mut items, SortDirection::LongestFirst);
    assert_eq!(ids(&items), vec![2, 4, 1, 5, 3, 6]);
}

#[test]
fn sorting_agrees_with_the_standard_library() {
    let mut state: u64 = 99;
    let mut next = move |bound: u64| {
        state = state.wrapping_mul(6364136223846793005).wrapping_add(1442695040888963407);
        (state >> 33) % bound
    };
    let titles = ["a", "A", "b", "ab", "", "é", "z", "Zebra", "zebra", "ab "];
    let dates = ["2020", "2021-01", "2021-02", "2019", ""];
    for round in 0..300 {
        let len = next(12) as usize;
        let items: Vec<Episode> = (0..len)
            .map(|i| {
                episode(
                    round * 100 + i as i32,
                    titles[next(10) as usize],
                    dates[next(5) as usize],
                    next(4) as i32 - 1,
                )
            })
            .collect();
        for direction in DIRECTIONS {
            let mut sorted = items.clone();
            sort_episodes(&mut sorted, direction);
            assert_eq!(ids(&sorted), expected_order(&items, direction));
        }
    }
}

#[test]
fn order_of_two_episodes() {
    let early = episode(1, "Alpha", "2020", 10);
    let late = episode(2, "beta", "2021", 20);
    assert!(before(&early, &late, SortDirection::OldestFirst));
    assert!(!before(&late, &early, SortDirection::OldestFirst));
    assert!(before(&late, &early, SortDirection::NewestFirst));
    assert!(before(&early, &late, SortDirection::ShortestFirst));
    assert!(before(&late, &early, SortDirection::LongestFirst));
    assert!(before(&early, &late, SortDirection::TitleAZ));
    assert!(before(&late, &early, SortDirection::TitleZA));
    for direction in DIRECTIONS {
        assert!(!before(&early, &early, direction));
    }
}

#[test]
fn search_ignores_letter_case_and_reads_title_and_description() {
    let items = shelf();
    assert!(matches_search(&items[0], ""));
    assert!(matches_search(&items[0], "BORROW"));
    assert!(matches_search(&items[4], "Borrowing"));
    assert!(matches_search(&items[0], "checker"));
    assert!(matches_search(&items[1], "rust"));
    assert!(matches_search(&items[3], "äHN"));
    assert!(!matches_search(&items[2], "rust"));
    assert!(!matches_search(&items[5], "asyncs"));
}

#[test]
fn status_filter_prefers_completed_over_in_progress() {
    let items = shelf();
    let passing = |show_completed: bool, show_in_progress: bool| -> Vec<i32> {
        items
            .iter()
            .filter(|e| matches_status(e, show_completed, show_in_progress))
            .map(|e| e.episodeid)
            .collect()
    };
    assert_eq!(passing(false, false), vec![1, 2, 3, 4, 5, 6]);
    assert_eq!(passing(true, false), vec![2, 4]);
    assert_eq!(passing(false, true), vec![3, 5]);
    assert_eq!(passing(true, true), vec![2, 4]);
}

#[test]
fn filtering_keeps_the_order() {
    let mut items = shelf();
    filter_episodes(&mut items, "o", false, false);
    assert_eq!(ids(&items), vec![1, 3, 5]);
    let mut items = shelf();
    filter_episodes(&mut items, "ASYNC", true, false);
    assert_eq!(ids(&items), vec![2]);
    let mut items = shelf();
    filter_episodes(&mut items, "", false, true);
    assert_eq!(ids(&items), vec![3, 5]);
    let mut items = shelf();
    filter_episodes(&mut items, "no such thing", false, false);
    assert!(items.is_empty());
}

#[test]
fn list_is_filtered_and_then_sorted() {
    let list = prepare_list(shelf(), "o", Some(SortDirection::ShortestFirst), false, false);
    assert_eq!(ids(&list), vec![3, 1, 5]);
    let unsorted = prepare_list(shelf(), "", None, false, false);
    assert_eq!(ids(&unsorted), vec![1, 2, 3, 4, 5, 6]);
    let none = prepare_list(Vec::new(), "", Some(SortDirection::TitleAZ), false, false);
    assert!(none.is_empty());
}

#[test]
fn pages_prepare_their_lists_alike() {
    let by_page = saved(shelf(), "", Some(SavedSortDirection::LongestFirst), false, false);
    assert_eq!(ids(&by_page), vec![2, 4, 1, 5, 3, 6]);
    let played = history(shelf(), "borrow", Some(HistorySortDirection::TitleZA), false, false);
    assert_eq!(ids(&played), vec![5, 1]);
    assert_eq!(SavedSortDirection::TitleAZ.direction(), SortDirection::TitleAZ);
    assert_eq!(HistorySortDirection::OldestFirst.direction(), SortDirection::OldestFirst);
}

#[test]
fn stored_preference_names_the_starting_order() {
    let cases = [
        (Some("newest"), SortDirection::NewestFirst),
        (Some("oldest"), SortDirection::OldestFirst),
        (Some("shortest"), SortDirection::ShortestFirst),
        (Some("longest"), SortDirection::LongestFirst),
        (Some("title_az"), SortDirection::TitleAZ),
        (Some("title_za"), SortDirection::TitleZA),
        (Some("Title_AZ"), SortDirection::NewestFirst),
        (Some(""), SortDirection::NewestFirst),
        (None, SortDirection::NewestFirst),
    ];
    for (text, expected) in cases {
        assert_eq!(SortDirection::from_preference(text), expected);
        assert_eq!(SavedSortDirection::from_preference(text).direction(), expected);
        assert_eq!(HistorySortDirection::from_preference(text).direction(), expected);
    }
}
