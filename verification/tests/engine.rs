use pinepods_core::drag::{drop_point_for_tag, DropPoint, SpacerGeometry};
use pinepods_core::engine::{Command, Effect, ListState};
use pinepods_core::geometry::GeometryProvider;
use pinepods_core::requests::episode::{ids_with, Episode, EpisodeFlag};
use pinepods_core::requests::endpoints::{
    check_episode_in_db_url, check_podcast_url, check_youtube_channel_url, fixed_url,
    get_episode_by_url_key_url, get_episode_id_url, get_podcast_id_from_ep_name_url,
    get_podcast_id_from_ep_url, get_podcast_id_url, get_proxied_image_url, numbered_url,
    paired_url, subscribe_to_channel_url, FixedEndpoint, Method, NumberedEndpoint,
    PairedEndpoint,
};
use pinepods_core::requests::pod_req::{check_status, require_api_key, RequestError};
use pinepods_core::text::parse_item_id;

fn episode(id: i32) -> Episode {
    Episode { episodeid: id, ..Episode::default() }
}

fn collection(ids: &[i32]) -> Vec<Episode> {
    ids.iter().map(|id| episode(*id)).collect()
}

fn ids(items: &Vec<Episode>) -> Vec<i32> {
    items.iter().map(|e| e.episodeid).collect()
}

#[test]
fn identifiers_are_read_as_the_standard_library_reads_them() {
    let texts = [
        "0", "7", "42", "-1", "+5", "-0", "+0", "007", "2147483647", "2147483648", "-2147483648",
        "-2147483649", "99999999999999999999", "", "-", "+", "--1", "+-1", "1-", "12a", "a12",
        " 1", "1 ", "1.5", "١٢", "0x10", "1_000", "-+3", "٣",
    ];
    for text in texts {
        assert_eq!(parse_item_id(text), text.parse::<i32>().ok(), "for {:?}", text);
    }
}

#[test]
fn written_identifiers_are_read_back() {
    for id in [0, 1, -1, 9, 10, 99, 100, 12345, -12345, i32::MAX, i32::MIN, i32::MAX - 1] {
        assert_eq!(parse_item_id(&id.to_string()), Some(id));
        assert_eq!(parse_item_id(&pinepods_core::text::signed_decimal(id)), Some(id));
    }
}

#[test]
fn tag_names_an_item_or_is_unreadable() {
    assert_eq!(drop_point_for_tag("15"), DropPoint::Item(15));
    assert_eq!(drop_point_for_tag("-3"), DropPoint::Item(-3));
    assert_eq!(drop_point_for_tag("fifteen"), DropPoint::Unreadable);
    assert_eq!(drop_point_for_tag(""), DropPoint::Unreadable);
}

#[test]
fn flagged_identifiers_keep_their_order() {
    let mut items = collection(&[5, 3, 8, 1]);
    items[0].completed = true;
    items[2].completed = true;
    items[1].saved = true;
    items[3].queued = true;
    items[3].downloaded = true;
    items[0].downloaded = true;
    assert_eq!(ids_with(&items, EpisodeFlag::Completed), vec![5, 8]);
    assert_eq!(ids_with(&items, EpisodeFlag::Saved), vec![3]);
    assert_eq!(ids_with(&items, EpisodeFlag::Queued), vec![1]);
    assert_eq!(ids_with(&items, EpisodeFlag::Downloaded), vec![5, 1]);
    assert_eq!(ids_with(&Vec::new(), EpisodeFlag::Saved), Vec::<i32>::new());
    assert!(items[0].has(EpisodeFlag::Completed) && !items[0].has(EpisodeFlag::Saved));
}

#[test]
fn addresses_with_a_fixed_path() {
    let table = [
        (FixedEndpoint::AddPodcast, "add_podcast", Method::Post),
        (FixedEndpoint::RemovePodcastId, "remove_podcast_id", Method::Post),
        (FixedEndpoint::RemovePodcast, "remove_podcast", Method::Post),
        (FixedEndpoint::QueuePod, "queue_pod", Method::Post),
        (FixedEndpoint::RemoveQueuedPod, "remove_queued_pod", Method::Post),
        (FixedEndpoint::SaveEpisode, "save_episode", Method::Post),
        (FixedEndpoint::RemoveSavedEpisode, "remove_saved_episode", Method::Post),
        (FixedEndpoint::RecordPodcastHistory, "record_podcast_history", Method::Post),
        (FixedEndpoint::DownloadPodcast, "download_podcast", Method::Post),
        (FixedEndpoint::DownloadAllPodcast, "download_all_podcast", Method::Post),
        (FixedEndpoint::DeleteEpisode, "delete_episode", Method::Post),
        (FixedEndpoint::GetEpisodeMetadata, "get_episode_metadata", Method::Post),
        (FixedEndpoint::RecordListenDuration, "record_listen_duration", Method::Post),
        (FixedEndpoint::MarkEpisodeCompleted, "mark_episode_completed", Method::Post),
        (FixedEndpoint::MarkEpisodeUncompleted, "mark_episode_uncompleted", Method::Post),
        (FixedEndpoint::BulkMarkEpisodesCompleted, "bulk_mark_episodes_completed", Method::Post),
        (FixedEndpoint::BulkSaveEpisodes, "bulk_save_episodes", Method::Post),
        (FixedEndpoint::BulkQueueEpisodes, "bulk_queue_episodes", Method::Post),
        (FixedEndpoint::BulkDownloadEpisodes, "bulk_download_episodes", Method::Post),
        (
            FixedEndpoint::BulkDeleteDownloadedEpisodes,
            "bulk_delete_downloaded_episodes",
            Method::Post,
        ),
        (FixedEndpoint::EnableAutoDownload, "enable_auto_download", Method::Post),
        (FixedEndpoint::GetAutoDownloadStatus, "get_auto_download_status", Method::Post),
        (FixedEndpoint::SetPlaybackSpeed, "podcast/set_playback_speed", Method::Post),
        (FixedEndpoint::ClearPodcastPlaybackSpeed, "clear_podcast_playback_speed", Method::Post),
        (FixedEndpoint::GetPlaybackSpeed, "get_playback_speed", Method::Post),
        (FixedEndpoint::AdjustSkipTimes, "adjust_skip_times", Method::Post),
        (FixedEndpoint::GetAutoSkipTimes, "get_auto_skip_times", Method::Post),
        (FixedEndpoint::GetPlayEpisodeDetails, "get_play_episode_details", Method::Post),
        (FixedEndpoint::GetPinepodsVersion, "get_pinepods_version", Method::Get),
        (FixedEndpoint::AddCategory, "add_category", Method::Post),
        (FixedEndpoint::UpdateFeedCutoffDays, "update_feed_cutoff_days", Method::Post),
        (FixedEndpoint::RemoveCategory, "remove_category", Method::Post),
        (FixedEndpoint::ToggleNotifications, "podcast/toggle_notifications", Method::Put),
        (FixedEndpoint::NotificationStatus, "podcast/notification_status", Method::Post),
        (FixedEndpoint::RemoveYoutubeChannel, "remove_youtube_channel", Method::Post),
        (FixedEndpoint::CreatePlaylist, "create_playlist", Method::Post),
        (FixedEndpoint::DeletePlaylist, "delete_playlist", Method::Delete),
    ];
    for (endpoint, path, method) in table {
        assert_eq!(fixed_url("http://s", endpoint), format!("http://s/api/data/{}", path));
        assert_eq!(endpoint.path(), format!("/api/data/{}", path));
        assert_eq!(endpoint.method(), method);
    }
}

#[test]
fn addresses_with_one_number() {
    let table = [
        (NumberedEndpoint::ReturnEpisodes, "return_episodes/", Method::Get),
        (NumberedEndpoint::ReturnPods, "return_pods/", Method::Get),
        (NumberedEndpoint::SavedEpisodeList, "saved_episode_list/", Method::Get),
        (NumberedEndpoint::UserHistory, "user_history/", Method::Get),
        (NumberedEndpoint::IncrementListenTime, "increment_listen_time/", Method::Put),
        (NumberedEndpoint::IncrementPlayed, "increment_played/", Method::Put),
        (NumberedEndpoint::ShareEpisode, "share_episode/", Method::Post),
        (NumberedEndpoint::PersonSubscriptions, "person/subscriptions/", Method::Get),
        (NumberedEndpoint::GetTimeInfo, "get_time_info?user_id=", Method::Get),
        (NumberedEndpoint::GetQueuedEpisodes, "get_queued_episodes?user_id=", Method::Get),
        (NumberedEndpoint::DownloadEpisodeList, "download_episode_list?user_id=", Method::Get),
        (NumberedEndpoint::HomeOverview, "home_overview?user_id=", Method::Get),
        (NumberedEndpoint::GetPlaylists, "get_playlists?user_id=", Method::Get),
        (NumberedEndpoint::GetRssKey, "get_rss_key?user_id=", Method::Get),
    ];
    for (endpoint, path, method) in table {
        for number in [3, -3, 0, i32::MAX] {
            assert_eq!(
                numbered_url("http://s", endpoint, number),
                format!("http://s/api/data/{}{}", path, number)
            );
        }
        assert_eq!(endpoint.method(), method);
    }
    assert_eq!(
        numbered_url("https://pods.example", NumberedEndpoint::GetQueuedEpisodes, 3),
        "https://pods.example/api/data/get_queued_episodes?user_id=3"
    );
}

#[test]
fn addresses_with_two_numbers() {
    let table = [
        (
            PairedEndpoint::FetchPodcasting2Data,
            "fetch_podcasting_2_data?episode_id=",
            "&user_id=",
            Method::Get,
        ),
        (
            PairedEndpoint::FetchPodcasting2PodData,
            "fetch_podcasting_2_pod_data?podcast_id=",
            "&user_id=",
            Method::Get,
        ),
        (PairedEndpoint::GetPodcastDetails, "get_podcast_details?user_id=", "&podcast_id=", Method::Get),
        (PairedEndpoint::GetFeedCutoffDays, "get_feed_cutoff_days?podcast_id=", "&user_id=", Method::Get),
        (
            PairedEndpoint::GetPlaylistEpisodes,
            "get_playlist_episodes?user_id=",
            "&playlist_id=",
            Method::Get,
        ),
        (PairedEndpoint::PersonSubscribe, "person/subscribe/", "/", Method::Post),
        (PairedEndpoint::PersonUnsubscribe, "person/unsubscribe/", "/", Method::Delete),
        (PairedEndpoint::PersonEpisodes, "person/episodes/", "/", Method::Get),
    ];
    for (endpoint, path, joint, method) in table {
        assert_eq!(
            paired_url("http://s", endpoint, 12, -7),
            format!("http://s/api/data/{}{}{}{}", path, 12, joint, -7)
        );
        assert_eq!(endpoint.method(), method);
    }
    assert_eq!(
        paired_url("http://s", PairedEndpoint::PersonEpisodes, 4, 9),
        "http://s/api/data/person/episodes/4/9"
    );
}

#[test]
fn addresses_with_text() {
    assert_eq!(
        get_podcast_id_from_ep_url("http://s", 8, 2, None),
        "http://s/api/data/get_podcast_id_from_ep_id?episode_id=8&user_id=2"
    );
    assert_eq!(
        get_podcast_id_from_ep_url("http://s", 8, 2, Some(false)),
        "http://s/api/data/get_podcast_id_from_ep_id?episode_id=8&user_id=2"
    );
    assert_eq!(
        get_podcast_id_from_ep_url("http://s", 8, 2, Some(true)),
        "http://s/api/data/get_podcast_id_from_ep_id?episode_id=8&user_id=2&is_youtube=true"
    );
    assert_eq!(
        get_episode_by_url_key_url("http://s", "abc123"),
        "http://s/api/data/episode_by_url/abc123"
    );
    assert_eq!(
        subscribe_to_channel_url("http://s", "UC_x", 5),
        "http://s/api/data/youtube/subscribe?channel_id=UC_x&user_id=5"
    );
}

#[test]
fn requests_need_a_key_and_a_good_status() {
    assert_eq!(require_api_key(&None), Err(RequestError::MissingApiKey));
    assert_eq!(require_api_key(&Some("k".to_string())), Ok("k"));
    assert_eq!(check_status(200, "OK", "Failed to fetch episodes"), Ok(()));
    let failed = check_status(503, "Service Unavailable", "Failed to fetch episodes");
    assert_eq!(
        failed.unwrap_err().message(),
        "Failed to fetch episodes: Service Unavailable"
    );
}

#[test]
fn query_text_is_escaped_but_for_letters_and_digits() {
    let name = "Rust & Friends: ñandú-_.~";
    let url = "https://feeds.example.org/show.xml?id=7";
    let escaped_name =
        percent_encoding::utf8_percent_encode(name, percent_encoding::NON_ALPHANUMERIC).to_string();
    let escaped_url =
        percent_encoding::utf8_percent_encode(url, percent_encoding::NON_ALPHANUMERIC).to_string();
    assert_eq!(escaped_name, "Rust%20%26%20Friends%3A%20%C3%B1and%C3%BA%2D%5F%2E%7E");
    assert_eq!(
        check_podcast_url("http://s", 4, name, url),
        format!(
            "http://s/api/data/check_podcast?user_id=4&podcast_name={}&podcast_url={}",
            escaped_name, escaped_url
        )
    );
    assert_eq!(
        check_podcast_url("http://s", 4, "a b", "c/d"),
        "http://s/api/data/check_podcast?user_id=4&podcast_name=a%20b&podcast_url=c%2Fd"
    );
    assert_eq!(
        check_episode_in_db_url("http://s", 4, "a b", "c/d"),
        "http://s/api/data/check_episode_in_db/4?episode_title=a%20b&episode_url=c%2Fd"
    );
    assert_eq!(
        get_podcast_id_url("http://s", 4, "c/d", "a b"),
        "http://s/api/data/get_podcast_id?user_id=4&podcast_feed=c%2Fd&podcast_title=a%20b"
    );
    assert_eq!(
        get_episode_id_url("http://s", 4, "a b", "c/d", true),
        "http://s/api/data/get_episode_id_ep_name?user_id=4&episode_url=c%2Fd&episode_title=a%20b&is_youtube=true"
    );
    assert_eq!(
        get_episode_id_url("http://s", 4, "", "", false),
        "http://s/api/data/get_episode_id_ep_name?user_id=4&episode_url=&episode_title=&is_youtube=false"
    );
    assert_eq!(
        check_youtube_channel_url("http://s", 4, "a-b", "c_d"),
        "http://s/api/data/check_youtube_channel?user_id=4&channel_name=a%2Db&channel_url=c%5Fd"
    );
}

#[test]
fn query_text_is_escaped_but_for_unreserved_characters() {
    let name = "Rust & Friends: ñandú-_.~";
    assert_eq!(urlencoding::encode(name), "Rust%20%26%20Friends%3A%20%C3%B1and%C3%BA-_.~");
    assert_eq!(
        get_podcast_id_from_ep_name_url("http://s", name, "c/d", 9),
        format!(
            "http://s/api/data/get_podcast_id_from_ep_name?episode_name={}&episode_url=c%2Fd&user_id=9",
            urlencoding::encode(name)
        )
    );
    assert_eq!(
        get_proxied_image_url("http://s", "https://img.example/a b.png"),
        "http://s/api/proxy/image?url=https%3A%2F%2Fimg.example%2Fa%20b.png"
    );
    assert_eq!(get_proxied_image_url("http://s", "plain-name_1.~"), "http://s/api/proxy/image?url=plain-name_1.~");
    assert_eq!(get_proxied_image_url("http://s", ""), "http://s/api/proxy/image?url=");
}

#[test]
fn list_takes_commands_one_at_a_time() {
    let mut list = ListState::new(GeometryProvider::Breakpoints);
    assert_eq!(list.current_window().end, 0);
    assert_eq!(list.apply(Command::Loaded(collection(&(1..=100).collect::<Vec<i32>>()))), Effect::Render);
    assert_eq!(list.apply(Command::Resized { width: 500, height: 700 }), Effect::Render);
    assert_eq!(list.epoch.generation, 1);
    let window = list.current_window();
    assert_eq!((window.start, window.end), (0, 8));

    assert_eq!(list.apply(Command::Scrolled(1380)), Effect::RequestFrame);
    assert_eq!(list.apply(Command::Scrolled(2760)), Effect::Nothing);
    assert_eq!(list.current_window().start, 0);
    assert_eq!(list.apply(Command::Frame), Effect::Render);
    let window = list.current_window();
    assert_eq!((window.start, window.end), (18, 28));
    assert_eq!(window.top_spacer, 18 * 138);
    assert_eq!(window.bottom_spacer, 72 * 138);
    assert_eq!(list.apply(Command::Frame), Effect::Nothing);

    assert_eq!(list.apply(Command::DragStarted(20)), Effect::Nothing);
    let effect = list.apply(Command::Dropped(DropPoint::Item(23)));
    let mut expected: Vec<i32> = (1..=100).collect();
    expected.remove(19);
    expected.insert(22, 20);
    assert_eq!(effect, Effect::Persist(expected.clone()));
    assert_eq!(ids(&list.episodes), expected);
    assert_eq!(list.drag.dragged_id, None);

    assert_eq!(list.apply(Command::Dropped(DropPoint::Item(5))), Effect::Nothing);
    assert_eq!(ids(&list.episodes), expected);

    assert_eq!(list.apply(Command::Removed(20)), Effect::Render);
    expected.retain(|id| *id != 20);
    assert_eq!(ids(&list.episodes), expected);
    assert_eq!(list.episodes.len(), 99);
    assert_eq!(list.current_window().bottom_spacer, 71 * 138);

    assert_eq!(list.apply(Command::Unmounted), Effect::Nothing);
    assert_eq!(list.apply(Command::Scrolled(0)), Effect::Nothing);
    assert_eq!(list.apply(Command::Frame), Effect::Nothing);
    assert_eq!(list.tracker.published, 2760);
}

#[test]
fn drop_in_a_spacer_of_the_list_moves_the_item_there() {
    let mut list = ListState::new(GeometryProvider::Breakpoints);
    list.apply(Command::Loaded(collection(&[1, 2, 3, 4, 5, 6])));
    list.apply(Command::Resized { width: 1200, height: 900 });
    list.apply(Command::DragStarted(1));
    let spacer = DropPoint::Spacer(SpacerGeometry {
        pointer_client_y: 900,
        container_top: 100,
        container_scroll_top: 0,
        item_height: list.epoch.viewport.item_height,
    });
    // (900 - 100) / 237 = 3
    let effect = list.apply(Command::Dropped(spacer));
    assert_eq!(effect, Effect::Persist(vec![2, 3, 4, 1, 5, 6]));
}
