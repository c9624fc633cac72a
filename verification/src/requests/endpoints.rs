//! Where each request goes: the addresses of the server's interface.
//!
//! Most addresses are the server's name, a path, and one or two numbers.
//! They are listed here by shape; the few that carry text are built by
//! functions of their own.

use crate::requests::url::{
    percent_encode_text, spec_percent_encode, spec_url_encode, url_encode_text,
};
use crate::strings::{spec_starts_with, spec_trim_start, starts_with_text, trim_start_text};
use crate::text::{signed_decimal, spec_signed_decimal};
use vstd::prelude::*;
use vstd::string::StringExecFns;
use vstd::utf8::encode_utf8;

verus! {

/// How a request is sent.
#[derive(Debug, Clone, Copy, PartialEq, Eq, Structural)]
pub enum Method {
    Get,
    Post,
    Put,
    Delete,
}

/// The requests whose address is the server's name and a path.
#[derive(Debug, Clone, Copy, PartialEq, Eq, Structural)]
pub enum FixedEndpoint {
    /// Follows a podcast.
    AddPodcast,
    /// Stops following a podcast named by its identifier.
    RemovePodcastId,
    /// Stops following a podcast named by its title and feed.
    RemovePodcast,
    /// Puts an episode into the queue.
    QueuePod,
    /// Takes an episode out of the queue.
    RemoveQueuedPod,
    /// Saves an episode.
    SaveEpisode,
    /// Forgets a saved episode.
    RemoveSavedEpisode,
    /// Records that an episode was played.
    RecordPodcastHistory,
    /// Downloads an episode to the server.
    DownloadPodcast,
    /// Downloads every episode of a podcast.
    DownloadAllPodcast,
    /// Deletes a downloaded episode.
    DeleteEpisode,
    /// Asks for the details of an episode.
    GetEpisodeMetadata,
    /// Reports how far an episode was played.
    RecordListenDuration,
    /// Marks an episode as played.
    MarkEpisodeCompleted,
    /// Marks an episode as not played.
    MarkEpisodeUncompleted,
    /// Marks several episodes as played.
    BulkMarkEpisodesCompleted,
    /// Saves several episodes.
    BulkSaveEpisodes,
    /// Queues several episodes.
    BulkQueueEpisodes,
    /// Downloads several episodes.
    BulkDownloadEpisodes,
    /// Deletes several downloaded episodes.
    BulkDeleteDownloadedEpisodes,
    /// Turns automatic downloading on or off.
    EnableAutoDownload,
    /// Asks whether a podcast is downloaded automatically.
    GetAutoDownloadStatus,
    /// Sets the playback speed of a podcast.
    SetPlaybackSpeed,
    /// Forgets the playback speed of a podcast.
    ClearPodcastPlaybackSpeed,
    /// Asks for a playback speed.
    GetPlaybackSpeed,
    /// Sets the skip times of a podcast.
    AdjustSkipTimes,
    /// Asks for the skip times of a podcast.
    GetAutoSkipTimes,
    /// Asks for the playback settings of a podcast.
    GetPlayEpisodeDetails,
    /// Asks for the version of the server.
    GetPinepodsVersion,
    /// Adds a category to a podcast.
    AddCategory,
    /// Sets how many days of a feed are kept.
    UpdateFeedCutoffDays,
    /// Takes a category off a podcast.
    RemoveCategory,
    /// Turns the notifications of a podcast on or off.
    ToggleNotifications,
    /// Asks whether a podcast notifies.
    NotificationStatus,
    /// Stops following a video channel.
    RemoveYoutubeChannel,
    /// Creates a playlist.
    CreatePlaylist,
    /// Deletes a playlist.
    DeletePlaylist,
}

impl FixedEndpoint {
    /// The path of this request.
    pub open spec fn spec_path(self) -> Seq<char> {
        match self {
            FixedEndpoint::AddPodcast => "/api/data/add_podcast"@,
            FixedEndpoint::RemovePodcastId => "/api/data/remove_podcast_id"@,
            FixedEndpoint::RemovePodcast => "/api/data/remove_podcast"@,
            FixedEndpoint::QueuePod => "/api/data/queue_pod"@,
            FixedEndpoint::RemoveQueuedPod => "/api/data/remove_queued_pod"@,
            FixedEndpoint::SaveEpisode => "/api/data/save_episode"@,
            FixedEndpoint::RemoveSavedEpisode => "/api/data/remove_saved_episode"@,
            FixedEndpoint::RecordPodcastHistory => "/api/data/record_podcast_history"@,
            FixedEndpoint::DownloadPodcast => "/api/data/download_podcast"@,
            FixedEndpoint::DownloadAllPodcast => "/api/data/download_all_podcast"@,
            FixedEndpoint::DeleteEpisode => "/api/data/delete_episode"@,
            FixedEndpoint::GetEpisodeMetadata => "/api/data/get_episode_metadata"@,
            FixedEndpoint::RecordListenDuration => "/api/data/record_listen_duration"@,
            FixedEndpoint::MarkEpisodeCompleted => "/api/data/mark_episode_completed"@,
            FixedEndpoint::MarkEpisodeUncompleted => "/api/data/mark_episode_uncompleted"@,
            FixedEndpoint::BulkMarkEpisodesCompleted => "/api/data/bulk_mark_episodes_completed"@,
            FixedEndpoint::BulkSaveEpisodes => "/api/data/bulk_save_episodes"@,
            FixedEndpoint::BulkQueueEpisodes => "/api/data/bulk_queue_episodes"@,
            FixedEndpoint::BulkDownloadEpisodes => "/api/data/bulk_download_episodes"@,
            FixedEndpoint::BulkDeleteDownloadedEpisodes => "/api/data/bulk_delete_downloaded_episodes"@,
            FixedEndpoint::EnableAutoDownload => "/api/data/enable_auto_download"@,
            FixedEndpoint::GetAutoDownloadStatus => "/api/data/get_auto_download_status"@,
            FixedEndpoint::SetPlaybackSpeed => "/api/data/podcast/set_playback_speed"@,
            FixedEndpoint::ClearPodcastPlaybackSpeed => "/api/data/clear_podcast_playback_speed"@,
            FixedEndpoint::GetPlaybackSpeed => "/api/data/get_playback_speed"@,
            FixedEndpoint::AdjustSkipTimes => "/api/data/adjust_skip_times"@,
            FixedEndpoint::GetAutoSkipTimes => "/api/data/get_auto_skip_times"@,
            FixedEndpoint::GetPlayEpisodeDetails => "/api/data/get_play_episode_details"@,
            FixedEndpoint::GetPinepodsVersion => "/api/data/get_pinepods_version"@,
            FixedEndpoint::AddCategory => "/api/data/add_category"@,
            FixedEndpoint::UpdateFeedCutoffDays => "/api/data/update_feed_cutoff_days"@,
            FixedEndpoint::RemoveCategory => "/api/data/remove_category"@,
            FixedEndpoint::ToggleNotifications => "/api/data/podcast/toggle_notifications"@,
            FixedEndpoint::NotificationStatus => "/api/data/podcast/notification_status"@,
            FixedEndpoint::RemoveYoutubeChannel => "/api/data/remove_youtube_channel"@,
            FixedEndpoint::CreatePlaylist => "/api/data/create_playlist"@,
            FixedEndpoint::DeletePlaylist => "/api/data/delete_playlist"@,
        }
    }

    /// The path of this request.
    pub fn path(self) -> (path: &'static str)
        ensures
            path@ == self.spec_path(),
    {
        match self {
            FixedEndpoint::AddPodcast => "/api/data/add_podcast",
            FixedEndpoint::RemovePodcastId => "/api/data/remove_podcast_id",
            FixedEndpoint::RemovePodcast => "/api/data/remove_podcast",
            FixedEndpoint::QueuePod => "/api/data/queue_pod",
            FixedEndpoint::RemoveQueuedPod => "/api/data/remove_queued_pod",
            FixedEndpoint::SaveEpisode => "/api/data/save_episode",
            FixedEndpoint::RemoveSavedEpisode => "/api/data/remove_saved_episode",
            FixedEndpoint::RecordPodcastHistory => "/api/data/record_podcast_history",
            FixedEndpoint::DownloadPodcast => "/api/data/download_podcast",
            FixedEndpoint::DownloadAllPodcast => "/api/data/download_all_podcast",
            FixedEndpoint::DeleteEpisode => "/api/data/delete_episode",
            FixedEndpoint::GetEpisodeMetadata => "/api/data/get_episode_metadata",
            FixedEndpoint::RecordListenDuration => "/api/data/record_listen_duration",
            FixedEndpoint::MarkEpisodeCompleted => "/api/data/mark_episode_completed",
            FixedEndpoint::MarkEpisodeUncompleted => "/api/data/mark_episode_uncompleted",
            FixedEndpoint::BulkMarkEpisodesCompleted => "/api/data/bulk_mark_episodes_completed",
            FixedEndpoint::BulkSaveEpisodes => "/api/data/bulk_save_episodes",
            FixedEndpoint::BulkQueueEpisodes => "/api/data/bulk_queue_episodes",
            FixedEndpoint::BulkDownloadEpisodes => "/api/data/bulk_download_episodes",
            FixedEndpoint::BulkDeleteDownloadedEpisodes => "/api/data/bulk_delete_downloaded_episodes",
            FixedEndpoint::EnableAutoDownload => "/api/data/enable_auto_download",
            FixedEndpoint::GetAutoDownloadStatus => "/api/data/get_auto_download_status",
            FixedEndpoint::SetPlaybackSpeed => "/api/data/podcast/set_playback_speed",
            FixedEndpoint::ClearPodcastPlaybackSpeed => "/api/data/clear_podcast_playback_speed",
            FixedEndpoint::GetPlaybackSpeed => "/api/data/get_playback_speed",
            FixedEndpoint::AdjustSkipTimes => "/api/data/adjust_skip_times",
            FixedEndpoint::GetAutoSkipTimes => "/api/data/get_auto_skip_times",
            FixedEndpoint::GetPlayEpisodeDetails => "/api/data/get_play_episode_details",
            FixedEndpoint::GetPinepodsVersion => "/api/data/get_pinepods_version",
            FixedEndpoint::AddCategory => "/api/data/add_category",
            FixedEndpoint::UpdateFeedCutoffDays => "/api/data/update_feed_cutoff_days",
            FixedEndpoint::RemoveCategory => "/api/data/remove_category",
            FixedEndpoint::ToggleNotifications => "/api/data/podcast/toggle_notifications",
            FixedEndpoint::NotificationStatus => "/api/data/podcast/notification_status",
            FixedEndpoint::RemoveYoutubeChannel => "/api/data/remove_youtube_channel",
            FixedEndpoint::CreatePlaylist => "/api/data/create_playlist",
            FixedEndpoint::DeletePlaylist => "/api/data/delete_playlist",
        }
    }

    /// How this request is sent.
    pub open spec fn spec_method(self) -> Method {
        match self {
            FixedEndpoint::GetPinepodsVersion => Method::Get,
            FixedEndpoint::ToggleNotifications => Method::Put,
            FixedEndpoint::DeletePlaylist => Method::Delete,
            _ => Method::Post,
        }
    }

    /// How this request is sent.
    pub fn method(self) -> (method: Method)
        ensures
            method == self.spec_method(),
    {
        match self {
            FixedEndpoint::GetPinepodsVersion => Method::Get,
            FixedEndpoint::ToggleNotifications => Method::Put,
            FixedEndpoint::DeletePlaylist => Method::Delete,
            _ => Method::Post,
        }
    }
}

/// The address of `endpoint` on the server at `server_name`.
pub fn fixed_url(server_name: &str, endpoint: FixedEndpoint) -> (url: String)
    ensures
        url@ == server_name@ + endpoint.spec_path(),
{
    String::from_str(server_name).concat(endpoint.path())
}

/// The requests whose address ends in one number, most often the
/// listener's identifier.
#[derive(Debug, Clone, Copy, PartialEq, Eq, Structural)]
pub enum NumberedEndpoint {
    /// Lists the recent episodes of a listener.
    ReturnEpisodes,
    /// Lists the podcasts of a listener.
    ReturnPods,
    /// Lists the saved episodes of a listener.
    SavedEpisodeList,
    /// Lists what a listener has played.
    UserHistory,
    /// Adds to the listening time of a listener.
    IncrementListenTime,
    /// Adds to the play count of a listener.
    IncrementPlayed,
    /// Creates a share link for an episode.
    ShareEpisode,
    /// Lists the hosts and guests a listener follows.
    PersonSubscriptions,
    /// Asks for the time settings of a listener.
    GetTimeInfo,
    /// Lists the queue of a listener.
    GetQueuedEpisodes,
    /// Lists the downloads of a listener.
    DownloadEpisodeList,
    /// Asks for the home page of a listener.
    HomeOverview,
    /// Lists the playlists of a listener.
    GetPlaylists,
    /// Asks for the feed key of a listener.
    GetRssKey,
}

impl NumberedEndpoint {
    /// The path of this request, up to the number.
    pub open spec fn spec_path(self) -> Seq<char> {
        match self {
            NumberedEndpoint::ReturnEpisodes => "/api/data/return_episodes/"@,
            NumberedEndpoint::ReturnPods => "/api/data/return_pods/"@,
            NumberedEndpoint::SavedEpisodeList => "/api/data/saved_episode_list/"@,
            NumberedEndpoint::UserHistory => "/api/data/user_history/"@,
            NumberedEndpoint::IncrementListenTime => "/api/data/increment_listen_time/"@,
            NumberedEndpoint::IncrementPlayed => "/api/data/increment_played/"@,
            NumberedEndpoint::ShareEpisode => "/api/data/share_episode/"@,
            NumberedEndpoint::PersonSubscriptions => "/api/data/person/subscriptions/"@,
            NumberedEndpoint::GetTimeInfo => "/api/data/get_time_info?user_id="@,
            NumberedEndpoint::GetQueuedEpisodes => "/api/data/get_queued_episodes?user_id="@,
            NumberedEndpoint::DownloadEpisodeList => "/api/data/download_episode_list?user_id="@,
            NumberedEndpoint::HomeOverview => "/api/data/home_overview?user_id="@,
            NumberedEndpoint::GetPlaylists => "/api/data/get_playlists?user_id="@,
            NumberedEndpoint::GetRssKey => "/api/data/get_rss_key?user_id="@,
        }
    }

    /// The path of this request, up to the number.
    pub fn path(self) -> (path: &'static str)
        ensures
            path@ == self.spec_path(),
    {
        match self {
            NumberedEndpoint::ReturnEpisodes => "/api/data/return_episodes/",
            NumberedEndpoint::ReturnPods => "/api/data/return_pods/",
            NumberedEndpoint::SavedEpisodeList => "/api/data/saved_episode_list/",
            NumberedEndpoint::UserHistory => "/api/data/user_history/",
            NumberedEndpoint::IncrementListenTime => "/api/data/increment_listen_time/",
            NumberedEndpoint::IncrementPlayed => "/api/data/increment_played/",
            NumberedEndpoint::ShareEpisode => "/api/data/share_episode/",
            NumberedEndpoint::PersonSubscriptions => "/api/data/person/subscriptions/",
            NumberedEndpoint::GetTimeInfo => "/api/data/get_time_info?user_id=",
            NumberedEndpoint::GetQueuedEpisodes => "/api/data/get_queued_episodes?user_id=",
            NumberedEndpoint::DownloadEpisodeList => "/api/data/download_episode_list?user_id=",
            NumberedEndpoint::HomeOverview => "/api/data/home_overview?user_id=",
            NumberedEndpoint::GetPlaylists => "/api/data/get_playlists?user_id=",
            NumberedEndpoint::GetRssKey => "/api/data/get_rss_key?user_id=",
        }
    }

    /// How this request is sent.
    pub open spec fn spec_method(self) -> Method {
        match self {
            NumberedEndpoint::IncrementListenTime | NumberedEndpoint::IncrementPlayed => Method::Put,
            NumberedEndpoint::ShareEpisode => Method::Post,
            _ => Method::Get,
        }
    }

    /// How this request is sent.
    pub fn method(self) -> (method: Method)
        ensures
            method == self.spec_method(),
    {
        match self {
            NumberedEndpoint::IncrementListenTime | NumberedEndpoint::IncrementPlayed => Method::Put,
            NumberedEndpoint::ShareEpisode => Method::Post,
            _ => Method::Get,
        }
    }
}

/// The address of `endpoint` for `number` on the server at `server_name`.
pub fn numbered_url(server_name: &str, endpoint: NumberedEndpoint, number: i32) -> (url: String)
    ensures
        url@ == server_name@ + endpoint.spec_path() + spec_signed_decimal(number as int),
{
    let digits: String = signed_decimal(number);
    String::from_str(server_name).concat(endpoint.path()).concat(digits.as_str())
}

/// The requests whose address carries two numbers.
#[derive(Debug, Clone, Copy, PartialEq, Eq, Structural)]
pub enum PairedEndpoint {
    /// Asks for the chapters, transcripts and people of an episode; the numbers are the episode and the listener.
    FetchPodcasting2Data,
    /// Asks for the people and funding of a podcast; the numbers are the podcast and the listener.
    FetchPodcasting2PodData,
    /// Asks for the details of a podcast; the numbers are the listener and the podcast.
    GetPodcastDetails,
    /// Asks how many days of a feed are kept; the numbers are the podcast and the listener.
    GetFeedCutoffDays,
    /// Lists the episodes of a playlist; the numbers are the listener and the playlist.
    GetPlaylistEpisodes,
    /// Follows a host or guest; the numbers are the listener and the person.
    PersonSubscribe,
    /// Stops following a host or guest; the numbers are the listener and the person.
    PersonUnsubscribe,
    /// Lists the episodes of a host or guest; the numbers are the listener and the person.
    PersonEpisodes,
}

impl PairedEndpoint {
    /// The path of this request, up to the first number.
    pub open spec fn spec_path(self) -> Seq<char> {
        match self {
            PairedEndpoint::FetchPodcasting2Data => "/api/data/fetch_podcasting_2_data?episode_id="@,
            PairedEndpoint::FetchPodcasting2PodData => "/api/data/fetch_podcasting_2_pod_data?podcast_id="@,
            PairedEndpoint::GetPodcastDetails => "/api/data/get_podcast_details?user_id="@,
            PairedEndpoint::GetFeedCutoffDays => "/api/data/get_feed_cutoff_days?podcast_id="@,
            PairedEndpoint::GetPlaylistEpisodes => "/api/data/get_playlist_episodes?user_id="@,
            PairedEndpoint::PersonSubscribe => "/api/data/person/subscribe/"@,
            PairedEndpoint::PersonUnsubscribe => "/api/data/person/unsubscribe/"@,
            PairedEndpoint::PersonEpisodes => "/api/data/person/episodes/"@,
        }
    }

    /// What stands between the two numbers.
    pub open spec fn spec_joint(self) -> Seq<char> {
        match self {
            PairedEndpoint::FetchPodcasting2Data => "&user_id="@,
            PairedEndpoint::FetchPodcasting2PodData => "&user_id="@,
            PairedEndpoint::GetPodcastDetails => "&podcast_id="@,
            PairedEndpoint::GetFeedCutoffDays => "&user_id="@,
            PairedEndpoint::GetPlaylistEpisodes => "&playlist_id="@,
            PairedEndpoint::PersonSubscribe => "/"@,
            PairedEndpoint::PersonUnsubscribe => "/"@,
            PairedEndpoint::PersonEpisodes => "/"@,
        }
    }

    /// The path of this request, up to the first number.
    pub fn path(self) -> (path: &'static str)
        ensures
            path@ == self.spec_path(),
    {
        match self {
            PairedEndpoint::FetchPodcasting2Data => "/api/data/fetch_podcasting_2_data?episode_id=",
            PairedEndpoint::FetchPodcasting2PodData => "/api/data/fetch_podcasting_2_pod_data?podcast_id=",
            PairedEndpoint::GetPodcastDetails => "/api/data/get_podcast_details?user_id=",
            PairedEndpoint::GetFeedCutoffDays => "/api/data/get_feed_cutoff_days?podcast_id=",
            PairedEndpoint::GetPlaylistEpisodes => "/api/data/get_playlist_episodes?user_id=",
            PairedEndpoint::PersonSubscribe => "/api/data/person/subscribe/",
            PairedEndpoint::PersonUnsubscribe => "/api/data/person/unsubscribe/",
            PairedEndpoint::PersonEpisodes => "/api/data/person/episodes/",
        }
    }

    /// What stands between the two numbers.
    pub fn joint(self) -> (joint: &'static str)
        ensures
            joint@ == self.spec_joint(),
    {
        match self {
            PairedEndpoint::FetchPodcasting2Data => "&user_id=",
            PairedEndpoint::FetchPodcasting2PodData => "&user_id=",
            PairedEndpoint::GetPodcastDetails => "&podcast_id=",
            PairedEndpoint::GetFeedCutoffDays => "&user_id=",
            PairedEndpoint::GetPlaylistEpisodes => "&playlist_id=",
            PairedEndpoint::PersonSubscribe => "/",
            PairedEndpoint::PersonUnsubscribe => "/",
            PairedEndpoint::PersonEpisodes => "/",
        }
    }

    /// How this request is sent.
    pub open spec fn spec_method(self) -> Method {
        match self {
            PairedEndpoint::PersonSubscribe => Method::Post,
            PairedEndpoint::PersonUnsubscribe => Method::Delete,
            _ => Method::Get,
        }
    }

    /// How this request is sent.
    pub fn method(self) -> (method: Method)
        ensures
            method == self.spec_method(),
    {
        match self {
            PairedEndpoint::PersonSubscribe => Method::Post,
            PairedEndpoint::PersonUnsubscribe => Method::Delete,
            _ => Method::Get,
        }
    }
}

/// The address of `endpoint` for the numbers `first` and `second`, in the
/// order the variant names them, on the server at `server_name`.
pub fn paired_url(server_name: &str, endpoint: PairedEndpoint, first: i32, second: i32) -> (url:
    String)
    ensures
        url@ == server_name@ + endpoint.spec_path() + spec_signed_decimal(first as int)
            + endpoint.spec_joint() + spec_signed_decimal(second as int),
{
    let first_digits: String = signed_decimal(first);
    let second_digits: String = signed_decimal(second);
    String::from_str(server_name).concat(endpoint.path()).concat(first_digits.as_str()).concat(
        endpoint.joint(),
    ).concat(second_digits.as_str())
}

/// The address that asks for the podcast of episode `episode_id`.  The
/// query says that the episode is a video only where it is known to be
/// one.
pub open spec fn spec_podcast_id_from_ep_url(
    server_name: Seq<char>,
    episode_id: int,
    user_id: int,
    is_youtube: Option<bool>,
) -> Seq<char> {
    let plain = server_name + "/api/data/get_podcast_id_from_ep_id?episode_id="@
        + spec_signed_decimal(episode_id) + "&user_id="@ + spec_signed_decimal(user_id);
    if is_youtube == Some(true) {
        plain + "&is_youtube=true"@
    } else {
        plain
    }
}

/// The address that asks for the podcast of episode `episode_id`.
pub fn get_podcast_id_from_ep_url(
    server_name: &str,
    episode_id: i32,
    user_id: i32,
    is_youtube: Option<bool>,
) -> (url: String)
    ensures
        url@ == spec_podcast_id_from_ep_url(
            server_name@,
            episode_id as int,
            user_id as int,
            is_youtube,
        ),
{
    let episode_digits: String = signed_decimal(episode_id);
    let user_digits: String = signed_decimal(user_id);
    let plain: String = String::from_str(server_name).concat(
        "/api/data/get_podcast_id_from_ep_id?episode_id=",
    ).concat(episode_digits.as_str()).concat("&user_id=").concat(user_digits.as_str());
    match is_youtube {
        Some(true) => plain.concat("&is_youtube=true"),
        _ => plain,
    }
}

/// The address of the episode behind the share key `url_key`.
pub fn get_episode_by_url_key_url(server_name: &str, url_key: &str) -> (url: String)
    ensures
        url@ == server_name@ + "/api/data/episode_by_url/"@ + url_key@,
{
    String::from_str(server_name).concat("/api/data/episode_by_url/").concat(url_key)
}

/// The address that follows the video channel `channel_id` for listener
/// `user_id`.
pub fn subscribe_to_channel_url(server: &str, channel_id: &str, user_id: i32) -> (url: String)
    ensures
        url@ == server@ + "/api/data/youtube/subscribe?channel_id="@ + channel_id@ + "&user_id="@
            + spec_signed_decimal(user_id as int),
{
    let digits: String = signed_decimal(user_id);
    String::from_str(server).concat("/api/data/youtube/subscribe?channel_id=").concat(
        channel_id,
    ).concat("&user_id=").concat(digits.as_str())
}

/// `head`, then `label`, then the decimal text of `number`.
fn append_number(head: String, label: &str, number: i32) -> (joined: String)
    ensures
        joined@ == head@ + label@ + spec_signed_decimal(number as int),
{
    let digits: String = signed_decimal(number);
    head.concat(label).concat(digits.as_str())
}

/// `head`, then `label`, then `value`.
fn append_text(head: String, label: &str, value: &str) -> (joined: String)
    ensures
        joined@ == head@ + label@ + value@,
{
    head.concat(label).concat(value)
}

/// `true` or `false`, as a query carries a flag.
pub open spec fn spec_flag_text(flag: bool) -> Seq<char> {
    if flag {
        "true"@
    } else {
        "false"@
    }
}

/// The address that asks whether listener `user_id` follows the podcast
/// with this title and feed address.  Title and address are escaped but
/// for their letters and digits.
pub fn check_podcast_url(server: &str, user_id: i32, podcast_name: &str, podcast_url: &str) -> (url: String)
    ensures
        url@ == server@ + "/api/data/check_podcast?user_id="@ + spec_signed_decimal(user_id as int)
            + "&podcast_name="@ + spec_percent_encode(encode_utf8(podcast_name@))
            + "&podcast_url="@ + spec_percent_encode(encode_utf8(podcast_url@)),
{
    let encoded_name: String = percent_encode_text(podcast_name);
    let encoded_url: String = percent_encode_text(podcast_url);
    let head: String = append_number(
        String::from_str(server),
        "/api/data/check_podcast?user_id=",
        user_id,
    );
    let head: String = append_text(head, "&podcast_name=", encoded_name.as_str());
    append_text(head, "&podcast_url=", encoded_url.as_str())
}

/// The address that asks whether the server knows the episode with this
/// title and address.  Title and address are escaped but for their
/// letters and digits.
pub fn check_episode_in_db_url(
    server: &str,
    user_id: i32,
    episode_title: &str,
    episode_url: &str,
) -> (url: String)
    ensures
        url@ == server@ + "/api/data/check_episode_in_db/"@ + spec_signed_decimal(user_id as int)
            + "?episode_title="@ + spec_percent_encode(encode_utf8(episode_title@))
            + "&episode_url="@ + spec_percent_encode(encode_utf8(episode_url@)),
{
    let encoded_title: String = percent_encode_text(episode_title);
    let encoded_url: String = percent_encode_text(episode_url);
    let head: String = append_number(
        String::from_str(server),
        "/api/data/check_episode_in_db/",
        user_id,
    );
    let head: String = append_text(head, "?episode_title=", encoded_title.as_str());
    append_text(head, "&episode_url=", encoded_url.as_str())
}

/// The address that asks for the identifier of the podcast with this feed
/// address and title.  Both are escaped but for their letters and digits.
pub fn get_podcast_id_url(
    server_name: &str,
    user_id: i32,
    podcast_feed: &str,
    podcast_title: &str,
) -> (url: String)
    ensures
        url@ == server_name@ + "/api/data/get_podcast_id?user_id="@ + spec_signed_decimal(
            user_id as int,
        ) + "&podcast_feed="@ + spec_percent_encode(encode_utf8(podcast_feed@))
            + "&podcast_title="@ + spec_percent_encode(encode_utf8(podcast_title@)),
{
    let encoded_feed: String = percent_encode_text(podcast_feed);
    let encoded_title: String = percent_encode_text(podcast_title);
    let head: String = append_number(
        String::from_str(server_name),
        "/api/data/get_podcast_id?user_id=",
        user_id,
    );
    let head: String = append_text(head, "&podcast_feed=", encoded_feed.as_str());
    append_text(head, "&podcast_title=", encoded_title.as_str())
}

/// The address that asks for the identifier of the episode with this
/// title and address.  Both are escaped but for their letters and digits.
pub fn get_episode_id_url(
    server_name: &str,
    user_id: i32,
    episode_title: &str,
    episode_url: &str,
    is_youtube: bool,
) -> (url: String)
    ensures
        url@ == server_name@ + "/api/data/get_episode_id_ep_name?user_id="@ + spec_signed_decimal(
            user_id as int,
        ) + "&episode_url="@ + spec_percent_encode(encode_utf8(episode_url@))
            + "&episode_title="@ + spec_percent_encode(encode_utf8(episode_title@))
            + "&is_youtube="@ + spec_flag_text(is_youtube),
{
    let encoded_url: String = percent_encode_text(episode_url);
    let encoded_title: String = percent_encode_text(episode_title);
    let head: String = append_number(
        String::from_str(server_name),
        "/api/data/get_episode_id_ep_name?user_id=",
        user_id,
    );
    let head: String = append_text(head, "&episode_url=", encoded_url.as_str());
    let head: String = append_text(head, "&episode_title=", encoded_title.as_str());
    let flag: &str = if is_youtube {
        "true"
    } else {
        "false"
    };
    append_text(head, "&is_youtube=", flag)
}

/// The address that asks for the podcast of the episode with this name
/// and address.  Both are escaped but for letters, digits, `-`, `.`, `_`
/// and `~`.
pub fn get_podcast_id_from_ep_name_url(
    server_name: &str,
    episode_name: &str,
    episode_url: &str,
    user_id: i32,
) -> (url: String)
    ensures
        url@ == server_name@ + "/api/data/get_podcast_id_from_ep_name?episode_name="@
            + spec_url_encode(encode_utf8(episode_name@)) + "&episode_url="@ + spec_url_encode(
            encode_utf8(episode_url@),
        ) + "&user_id="@ + spec_signed_decimal(user_id as int),
{
    let encoded_name: String = url_encode_text(episode_name);
    let encoded_url: String = url_encode_text(episode_url);
    let head: String = append_text(
        String::from_str(server_name),
        "/api/data/get_podcast_id_from_ep_name?episode_name=",
        encoded_name.as_str(),
    );
    let head: String = append_text(head, "&episode_url=", encoded_url.as_str());
    append_number(head, "&user_id=", user_id)
}

/// The address that asks whether listener `user_id` follows the video
/// channel with this name and address.  Both are escaped but for their
/// letters and digits.
pub fn check_youtube_channel_url(
    server: &str,
    user_id: i32,
    channel_name: &str,
    channel_url: &str,
) -> (url: String)
    ensures
        url@ == server@ + "/api/data/check_youtube_channel?user_id="@ + spec_signed_decimal(
            user_id as int,
        ) + "&channel_name="@ + spec_percent_encode(encode_utf8(channel_name@))
            + "&channel_url="@ + spec_percent_encode(encode_utf8(channel_url@)),
{
    let encoded_name: String = percent_encode_text(channel_name);
    let encoded_url: String = percent_encode_text(channel_url);
    let head: String = append_number(
        String::from_str(server),
        "/api/data/check_youtube_channel?user_id=",
        user_id,
    );
    let head: String = append_text(head, "&channel_name=", encoded_name.as_str());
    append_text(head, "&channel_url=", encoded_url.as_str())
}

/// The address under which the server hands on the image at
/// `image_url`, for images that the page may not load itself.  The
/// image address is escaped but for letters, digits, `-`, `.`, `_` and
/// `~`.
pub fn get_proxied_image_url(server_name: &str, image_url: &str) -> (url: String)
    ensures
        url@ == server_name@ + "/api/proxy/image?url="@ + spec_url_encode(
            encode_utf8(image_url@),
        ),
{
    let encoded: String = url_encode_text(image_url);
    append_text(String::from_str(server_name), "/api/proxy/image?url=", encoded.as_str())
}

/// The address of the socket that reports a refresh of the feeds: the
/// server's name without its `http://` and `https://`, behind `wss://`
/// where the name began with `https://` and behind `ws://` otherwise.
pub open spec fn spec_episode_websocket_url(
    server_name: Seq<char>,
    user_id: int,
    api_key: Seq<char>,
    nextcloud_refresh: bool,
) -> Seq<char> {
    let scheme = if spec_starts_with(server_name, "https://"@) {
        "wss://"@
    } else {
        "ws://"@
    };
    let host = spec_trim_start(spec_trim_start(server_name, "http://"@), "https://"@);
    scheme + host + "/ws/api/data/episodes/"@ + spec_signed_decimal(user_id) + "?api_key="@
        + api_key + "&nextcloud_refresh="@ + spec_flag_text(nextcloud_refresh)
}

/// The address of the socket that reports a refresh of the feeds of
/// listener `user_id`.
pub fn episode_websocket_url(
    server_name: &str,
    user_id: i32,
    api_key: &str,
    nextcloud_refresh: bool,
) -> (url: String)
    ensures
        url@ == spec_episode_websocket_url(
            server_name@,
            user_id as int,
            api_key@,
            nextcloud_refresh,
        ),
{
    let without_http: &str = trim_start_text(server_name, "http://");
    let host: &str = trim_start_text(without_http, "https://");
    let scheme: &str = if starts_with_text(server_name, "https://") {
        "wss://"
    } else {
        "ws://"
    };
    let flag: &str = if nextcloud_refresh {
        "true"
    } else {
        "false"
    };
    let head: String = String::from_str(scheme).concat(host);
    let head: String = append_number(head, "/ws/api/data/episodes/", user_id);
    let head: String = append_text(head, "?api_key=", api_key);
    append_text(head, "&nextcloud_refresh=", flag)
}

} // verus!
