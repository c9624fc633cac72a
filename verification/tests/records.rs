use pinepods_core::components::context::{
    AppStateMsg, DownloadedEpisodeRecords, FilterState, PlaylistState, SettingsState,
};
use pinepods_core::handlers::feed::{
    after_key_lookup, after_user_lookup, request_domain, FeedQuery, FeedStep, RssKeyInfo,
    DEFAULT_FEED_LIMIT,
};
use pinepods_core::requests::episode::Episode;
use pinepods_core::requests::endpoints::Method;
use pinepods_core::requests::pod_req::{
    flag_youtube_feeds, is_youtube_feed, plan_reorder_queue, reorder_queue_body,
    reorder_queue_outcome, reorder_queue_url, status_ok, Podcast, PodcastExtra,
    ReorderQueueRequest, RequestError, API_KEY_HEADER, JSON_CONTENT_TYPE,
};

fn episode(id: i32) -> Episode {
    Episode { episodeid: id, ..Episode::default() }
}

fn recorded(records: &DownloadedEpisodeRecords) -> Vec<i32> {
    records.episodes().iter().map(|e| e.episodeid).collect()
}

fn sorted(mut ids: Vec<i32>) -> Vec<i32> {
    ids.sort();
    ids
}

fn podcast(feedurl: &str, index: Option<i64>) -> Podcast {
    Podcast {
        podcastid: 4,
        podcastname: "Name".to_string(),
        artworkurl: Some("art".to_string()),
        description: None,
        episodecount: Some(12),
        websiteurl: None,
        feedurl: feedurl.to_string(),
        author: Some("Author".to_string()),
        categories: None,
        explicit: true,
        podcastindexid: index,
    }
}

#[test]
fn reorder_url_names_the_listener() {
    assert_eq!(
        reorder_queue_url("https://pods.example", 7),
        "https://pods.example/api/data/reorder_queue?user_id=7"
    );
    assert_eq!(reorder_queue_url("", -12), "/api/data/reorder_queue?user_id=-12");
}

#[test]
fn reorder_request_needs_a_key() {
    let plan = plan_reorder_queue("http://s", &None, 1, vec![3, 1, 2]);
    assert_eq!(plan, Err(RequestError::MissingApiKey));
    assert_eq!(RequestError::MissingApiKey.message(), "API key is missing");
}

#[test]
fn reorder_request_carries_the_whole_order() {
    let plan = plan_reorder_queue("http://s", &Some("k3y".to_string()), 42, vec![3, 1, 2]);
    assert_eq!(
        plan,
        Ok(ReorderQueueRequest {
            method: Method::Post,
            url: "http://s/api/data/reorder_queue?user_id=42".to_string(),
            api_key: "k3y".to_string(),
            episode_ids: vec![3, 1, 2],
            body: "{\"episode_ids\":[3,1,2]}".to_string(),
        })
    );
    assert_eq!(API_KEY_HEADER, "Api-Key");
    assert_eq!(JSON_CONTENT_TYPE, "application/json");
}

#[test]
fn reorder_body_is_the_compact_json_of_the_order() {
    assert_eq!(reorder_queue_body(&vec![]), "{\"episode_ids\":[]}");
    assert_eq!(reorder_queue_body(&vec![7]), "{\"episode_ids\":[7]}");
    assert_eq!(reorder_queue_body(&vec![7, -3, 0]), "{\"episode_ids\":[7,-3,0]}");
    for ids in [vec![], vec![5], vec![2, 3, 4, 1, 5], vec![i32::MIN, i32::MAX, 0, -1]] {
        let numbers: Vec<serde_json::Value> =
            ids.iter().map(|id| serde_json::Value::from(*id)).collect();
        let mut object = serde_json::Map::new();
        object.insert("episode_ids".to_string(), serde_json::Value::Array(numbers));
        let expected = serde_json::to_string(&serde_json::Value::Object(object)).unwrap();
        assert_eq!(reorder_queue_body(&ids), expected);
        let read: serde_json::Value = serde_json::from_str(&reorder_queue_body(&ids)).unwrap();
        let back: Vec<i64> = read["episode_ids"]
            .as_array()
            .unwrap()
            .iter()
            .map(|v| v.as_i64().unwrap())
            .collect();
        assert_eq!(back, ids.iter().map(|id| *id as i64).collect::<Vec<i64>>());
    }
}

#[test]
fn reorder_outcome_follows_the_status() {
    assert_eq!(reorder_queue_outcome(200, "OK"), Ok(()));
    assert_eq!(reorder_queue_outcome(204, "No Content"), Ok(()));
    assert_eq!(reorder_queue_outcome(299, ""), Ok(()));
    let failed = reorder_queue_outcome(500, "Internal Server Error");
    assert_eq!(
        failed,
        Err(RequestError::Failed {
            what: "Failed to reorder queue".to_string(),
            status_text: "Internal Server Error".to_string(),
        })
    );
    assert_eq!(
        failed.unwrap_err().message(),
        "Failed to reorder queue: Internal Server Error"
    );
    assert!(reorder_queue_outcome(199, "x").is_err());
    assert!(reorder_queue_outcome(300, "x").is_err());
    assert!(reorder_queue_outcome(404, "Not Found").is_err());
    assert!(status_ok(200) && status_ok(299) && !status_ok(199) && !status_ok(300));
}

#[test]
fn youtube_feeds_are_told_by_their_address() {
    assert!(is_youtube_feed("https://www.youtube.com/channel/abc"));
    assert!(is_youtube_feed("youtube.com"));
    assert!(!is_youtube_feed("https://feeds.example.org/show.xml"));
    assert!(!is_youtube_feed("https://youtube.co/m"));
    assert!(!is_youtube_feed(""));
}

#[test]
fn podcast_gains_empty_statistics() {
    let extra = PodcastExtra::from(podcast("https://youtube.com/c/x", Some(99)));
    assert_eq!(extra.podcastid, 4);
    assert_eq!(extra.podcastname, "Name");
    assert_eq!(extra.feedurl, "https://youtube.com/c/x");
    assert_eq!(extra.podcastindexid, 99);
    assert_eq!(extra.play_count, 0);
    assert_eq!(extra.episodes_played, 0);
    assert_eq!(extra.oldest_episode_date, None);
    assert!(extra.is_youtube);
    assert!(extra.explicit);
    let plain = PodcastExtra::from(podcast("https://feeds.example.org/a", None));
    assert_eq!(plain.podcastindexid, 0);
    assert!(!plain.is_youtube);
}

#[test]
fn podcast_loses_its_statistics() {
    let mut extra = PodcastExtra::from(podcast("https://feeds.example.org/a", Some(5)));
    extra.play_count = 17;
    let back = Podcast::from(extra);
    assert_eq!(back, podcast("https://feeds.example.org/a", Some(5)));
}

#[test]
fn youtube_flag_is_set_for_every_podcast() {
    let mut pods = vec![
        PodcastExtra::from(podcast("https://feeds.example.org/a", None)),
        PodcastExtra::from(podcast("https://www.youtube.com/x", None)),
    ];
    pods[0].is_youtube = true;
    pods[1].is_youtube = false;
    pods[1].play_count = 3;
    flag_youtube_feeds(&mut pods);
    assert!(!pods[0].is_youtube);
    assert!(pods[1].is_youtube);
    assert_eq!(pods[1].play_count, 3);
    assert_eq!(pods.len(), 2);
}

#[test]
fn feed_limit_defaults_to_a_thousand() {
    let mut query = FeedQuery {
        api_key: "k".to_string(),
        limit: None,
        podcast_id: None,
        source_type: None,
    };
    assert_eq!(query.limit_or_default(), 1000);
    assert_eq!(DEFAULT_FEED_LIMIT, 1000);
    assert_eq!(query.podcast_id_list(), None);
    query.limit = Some(25);
    query.podcast_id = Some(8);
    assert_eq!(query.limit_or_default(), 25);
    assert_eq!(query.podcast_id_list(), Some(vec![8]));
}

#[test]
fn feed_key_decides_the_next_step() {
    let key = RssKeyInfo { podcast_ids: vec![1, 2], user_id: 5, key: "rss".to_string() };
    match after_key_lookup(Some(key)) {
        FeedStep::Generate(k) => {
            assert_eq!(k.podcast_ids, vec![1, 2]);
            assert_eq!(k.user_id, 5);
            assert_eq!(k.key, "rss");
        }
        other => panic!("unexpected step {:?}", other),
    }
    assert!(matches!(after_key_lookup(None), FeedStep::LookUpUser));
    assert!(matches!(after_user_lookup(0, "key"), FeedStep::Forbidden));
    match after_user_lookup(9, "key") {
        FeedStep::Generate(k) => {
            assert_eq!(k.podcast_ids, vec![-1]);
            assert_eq!(k.user_id, 9);
            assert_eq!(k.key, "key");
        }
        other => panic!("unexpected step {:?}", other),
    }
}

#[test]
fn domain_comes_from_the_headers() {
    assert_eq!(request_domain(Some("pods.example:8040"), None), "http://pods.example:8040");
    assert_eq!(request_domain(Some("pods.example"), Some("https")), "https://pods.example");
    assert_eq!(request_domain(None, Some("https")), "http://localhost:8041");
    assert_eq!(request_domain(None, None), "http://localhost:8041");
}

#[test]
fn download_records_start_empty() {
    let records = DownloadedEpisodeRecords::new();
    assert_eq!(records.len(), 0);
    assert!(records.episodes().is_empty());
    assert!(records.local_ids().is_empty());
    assert!(records.server_ids().is_empty());
    assert!(!records.is_download(1));
    assert_eq!(records, DownloadedEpisodeRecords::default());
}

#[test]
fn download_records_list_an_episode_once() {
    let mut records = DownloadedEpisodeRecords::new();
    records.push_local(episode(1));
    records.push_server(episode(1));
    records.push_server(episode(2));
    records.push_local(episode(3));
    records.push_local(episode(3));
    assert_eq!(recorded(&records), vec![1, 2, 3]);
    assert_eq!(records.len(), 3);
    assert_eq!(sorted(records.local_ids()), vec![1, 3]);
    assert_eq!(sorted(records.server_ids()), vec![1, 2]);
    assert!(records.is_local_download(1) && records.is_server_download(1));
    assert!(!records.is_local_download(2) && records.is_server_download(2));
    assert!(records.is_local_download(3) && !records.is_server_download(3));
    assert!(records.is_download(1) && records.is_download(2) && records.is_download(3));
    assert!(!records.is_download(4));
}

#[test]
fn download_records_drop_an_episode_with_its_last_record() {
    let mut records = DownloadedEpisodeRecords::new();
    records.push_local(episode(1));
    records.push_server(episode(1));
    records.push_server(episode(2));
    records.push_local(episode(3));
    records.remove_local(1);
    assert_eq!(recorded(&records), vec![1, 2, 3]);
    assert!(!records.is_local_download(1));
    records.remove_server(1);
    assert_eq!(recorded(&records), vec![2, 3]);
    records.remove_server(3);
    assert_eq!(recorded(&records), vec![2, 3]);
    records.remove_local(3);
    assert_eq!(recorded(&records), vec![2]);
    records.remove_local(77);
    assert_eq!(recorded(&records), vec![2]);
    records.clear();
    assert_eq!(records.len(), 0);
    assert!(!records.is_download(2));
}

#[test]
fn clearing_local_records_keeps_what_is_on_the_server() {
    let mut records = DownloadedEpisodeRecords::new();
    records.push_local(episode(1));
    records.push_server(episode(1));
    records.push_server(episode(2));
    records.push_local(episode(3));
    records.push_local(episode(4));
    records.clear_local();
    assert_eq!(recorded(&records), vec![1, 2]);
    assert!(records.local_ids().is_empty());
    assert_eq!(sorted(records.server_ids()), vec![1, 2]);
}

#[test]
fn clearing_server_records_drops_the_local_ones() {
    let mut records = DownloadedEpisodeRecords::new();
    records.push_local(episode(1));
    records.push_server(episode(1));
    records.push_server(episode(2));
    records.push_local(episode(3));
    records.clear_server();
    assert_eq!(recorded(&records), vec![1, 2]);
    assert!(records.local_ids().is_empty());
    assert_eq!(sorted(records.server_ids()), vec![1, 2]);
}

#[test]
fn page_state_starts_blank() {
    assert_eq!(SettingsState::default(), SettingsState { active_tab: None });
    assert_eq!(
        FilterState::default(),
        FilterState { selected_category: None, category_filter_list: None }
    );
    let form = PlaylistState::default();
    assert!(!form.include_played && form.name.is_empty());
    assert_ne!(AppStateMsg::SetLoading(true), AppStateMsg::DeleteSelectedEpisodes);
}
