//! The records of the podcast, episode, queue, history, download and
//! playlist requests.

use crate::requests::endpoints::Method;
use crate::strings::{contains_text, spec_contains};
use crate::text::{signed_decimal, spec_signed_decimal};
use std::collections::HashMap;
use vstd::prelude::*;
use vstd::std_specs::convert::FromSpec;
use vstd::std_specs::convert::FromSpecImpl;
use vstd::string::StringExecFns;

verus! {

/// Why a request did not succeed.
#[derive(Debug, Clone, PartialEq)]
pub enum RequestError {
    /// The listener is not signed in: there is no key to send.
    MissingApiKey,
    /// The server answered with a status outside 200 to 299.
    Failed {
        /// What the request was about, as the message begins.
        what: String,
        /// The status text of the answer.
        status_text: String,
    },
}

impl RequestError {
    /// The message of this error, as the log shows it.
    pub open spec fn spec_message(self) -> Seq<char> {
        match self {
            RequestError::MissingApiKey => "API key is missing"@,
            RequestError::Failed { what, status_text } => what@ + ": "@ + status_text@,
        }
    }

    /// The message of this error, as the log shows it.
    pub fn message(&self) -> (message: String)
        ensures
            message@ == self.spec_message(),
    {
        match self {
            RequestError::MissingApiKey => String::from_str("API key is missing"),
            RequestError::Failed { what, status_text } => {
                what.clone().concat(": ").concat(status_text.as_str())
            },
        }
    }
}

/// The header that carries the listener's key.
pub const API_KEY_HEADER: &'static str = "Api-Key";

/// The content type of a request with a body.
pub const JSON_CONTENT_TYPE: &'static str = "application/json";

/// Whether `status` is one of the success codes, 200 to 299.
pub open spec fn spec_status_ok(status: u16) -> bool {
    200 <= status <= 299
}

/// Whether `status` is one of the success codes, 200 to 299.
pub fn status_ok(status: u16) -> (ok: bool)
    ensures
        ok == spec_status_ok(status),
{
    200 <= status && status <= 299
}

/// The address that stores a listener's queue order.
pub open spec fn spec_reorder_queue_url(server_name: Seq<char>, user_id: int) -> Seq<char> {
    server_name + "/api/data/reorder_queue?user_id="@ + spec_signed_decimal(user_id)
}

/// The address that stores the queue order of listener `user_id` on the
/// server at `server_name`.
pub fn reorder_queue_url(server_name: &str, user_id: i32) -> (url: String)
    ensures
        url@ == spec_reorder_queue_url(server_name@, user_id as int),
{
    let id_text: String = signed_decimal(user_id);
    String::from_str(server_name).concat("/api/data/reorder_queue?user_id=").concat(
        id_text.as_str(),
    )
}

/// The identifiers `ids` as decimal numbers with commas between them.
pub open spec fn spec_joined_ids(ids: Seq<i32>) -> Seq<char>
    decreases ids.len(),
{
    if ids.len() == 0 {
        Seq::empty()
    } else if ids.len() == 1 {
        spec_signed_decimal(ids[0] as int)
    } else {
        spec_joined_ids(ids.drop_last()) + ","@ + spec_signed_decimal(ids.last() as int)
    }
}

/// The body of a reorder request: one object whose only member,
/// `episode_ids`, is the array of the identifiers in the order to store,
/// written without any white space.
pub open spec fn spec_reorder_queue_body(ids: Seq<i32>) -> Seq<char> {
    "{\"episode_ids\":["@ + spec_joined_ids(ids) + "]}"@
}

/// The body of a reorder request for the identifiers `episode_ids`.
pub fn reorder_queue_body(episode_ids: &Vec<i32>) -> (body: String)
    ensures
        body@ == spec_reorder_queue_body(episode_ids@),
{
    let mut joined: String = String::new();
    let mut i: usize = 0;
    assert(episode_ids@.take(0) =~= Seq::<i32>::empty());
    while i < episode_ids.len()
        invariant
            0 <= i <= episode_ids@.len(),
            joined@ == spec_joined_ids(episode_ids@.take(i as int)),
        decreases episode_ids@.len() - i,
    {
        let digits: String = signed_decimal(episode_ids[i]);
        proof {
            let before = episode_ids@.take(i as int);
            let after = episode_ids@.take(i + 1);
            assert(after.drop_last() =~= before);
            assert(after.last() == episode_ids@[i as int]);
            if i == 0 {
                assert(before =~= Seq::<i32>::empty());
                assert(joined@ + digits@ =~= digits@);
            }
        }
        if i > 0 {
            joined.append(",");
        }
        joined.append(digits.as_str());
        i += 1;
    }
    assert(episode_ids@.take(i as int) =~= episode_ids@);
    String::from_str("{\"episode_ids\":[").concat(joined.as_str()).concat("]}")
}

/// A request to store the queue in a new order: how and where to send it,
/// the key to send with it, and every identifier of the queue in the new
/// order, as a list and as the body that carries it.
#[derive(Debug, Clone, PartialEq)]
pub struct ReorderQueueRequest {
    /// How to send: the order is posted.
    pub method: Method,
    /// The address to post to.
    pub url: String,
    /// The value of the `Api-Key` header.
    pub api_key: String,
    /// The whole queue, by identifier, in the order to store.
    pub episode_ids: Vec<i32>,
    /// The body, of content type `application/json`.
    pub body: String,
}

/// Prepares the request that stores the queue order.  There is a request
/// exactly when there is a key; it carries the whole sequence of
/// identifiers, not the change.
pub fn plan_reorder_queue(
    server_name: &str,
    api_key: &Option<String>,
    user_id: i32,
    episode_ids: Vec<i32>,
) -> (plan: Result<ReorderQueueRequest, RequestError>)
    ensures
        plan is Ok <==> api_key is Some,
        plan matches Err(error) ==> error == RequestError::MissingApiKey,
        plan matches Ok(request) ==> {
            &&& request.method == Method::Post
            &&& request.url@ == spec_reorder_queue_url(server_name@, user_id as int)
            &&& request.api_key@ == api_key->0@
            &&& request.episode_ids@ == episode_ids@
            &&& request.body@ == spec_reorder_queue_body(episode_ids@)
        },
{
    match api_key {
        None => Err(RequestError::MissingApiKey),
        Some(key) => {
            let body: String = reorder_queue_body(&episode_ids);
            Ok(
                ReorderQueueRequest {
                    method: Method::Post,
                    url: reorder_queue_url(server_name, user_id),
                    api_key: key.clone(),
                    episode_ids,
                    body,
                },
            )
        },
    }
}

/// The key to send with a request, or the error of a listener who is not
/// signed in.
pub fn require_api_key(api_key: &Option<String>) -> (key: Result<&str, RequestError>)
    ensures
        key is Ok <==> api_key is Some,
        key matches Ok(text) ==> text@ == api_key->0@,
        key matches Err(error) ==> error == RequestError::MissingApiKey,
{
    match api_key {
        Some(text) => Ok(text.as_str()),
        None => Err(RequestError::MissingApiKey),
    }
}

/// What the status of an answer means for a request that is described by
/// `what`: success for a status from 200 to 299, and for any other a
/// failure whose message is `what`, a colon and the status text.
pub fn check_status(status: u16, status_text: &str, what: &str) -> (outcome: Result<
    (),
    RequestError,
>)
    ensures
        outcome is Ok <==> spec_status_ok(status),
        outcome matches Err(error) ==> {
            &&& error matches RequestError::Failed { what: described, status_text: text }
            &&& described@ == what@
            &&& text@ == status_text@
            &&& error.spec_message() == what@ + ": "@ + status_text@
        },
{
    if status_ok(status) {
        Ok(())
    } else {
        Err(
            RequestError::Failed {
                what: String::from_str(what),
                status_text: String::from_str(status_text),
            },
        )
    }
}

/// What the answer to a reorder request means: success for a status from
/// 200 to 299, and a failure that names the status text for any other.
/// Nothing is tried again and the local order is not taken back.
pub fn reorder_queue_outcome(status: u16, status_text: &str) -> (outcome: Result<(), RequestError>)
    ensures
        outcome is Ok <==> spec_status_ok(status),
        outcome matches Err(error) ==> {
            &&& error matches RequestError::Failed { what, status_text: text }
            &&& what@ == "Failed to reorder queue"@
            &&& text@ == status_text@
            &&& error.spec_message() == "Failed to reorder queue"@ + ": "@ + status_text@
        },
{
    check_status(status, status_text, "Failed to reorder queue")
}

/// An episode as the recent-episodes feed lists it.
#[derive(Debug, Clone, PartialEq)]
pub struct Episode {
    pub podcastname: String,
    pub episodetitle: String,
    pub episodepubdate: String,
    pub episodedescription: String,
    pub episodeartwork: String,
    pub episodeurl: String,
    pub episodeduration: i32,
    pub listenduration: Option<i32>,
    pub episodeid: i32,
    pub completed: bool,
    pub saved: bool,
    pub queued: bool,
    pub downloaded: bool,
    pub is_youtube: bool,
}

/// The recent-episodes feed: absent where the listener follows nothing yet.
#[derive(Debug, Clone, PartialEq)]
pub struct RecentEps {
    pub episodes: Option<Vec<Episode>>,
}

/// What the server needs to know of a podcast that is being added.
#[derive(Debug, Clone)]
pub struct PodcastValues {
    pub pod_title: String,
    pub pod_artwork: String,
    pub pod_author: String,
    pub categories: HashMap<String, String>,
    pub pod_description: String,
    pub pod_episode_count: i32,
    pub pod_feed_url: String,
    pub pod_website: String,
    pub pod_explicit: bool,
    pub user_id: i32,
}

/// The first episode of a podcast that was just added.
#[derive(Debug)]
pub struct FirstEpisodeInfo {
    pub episode_id: i32,
    pub podcast_id: i32,
    pub title: String,
    pub description: String,
    pub audio_url: String,
    pub artwork_url: String,
    pub release_datetime: String,
    pub duration: i32,
    pub completed: bool,
}

/// The server's answer to adding a podcast.
#[derive(Debug)]
pub struct PodcastStatusResponse {
    pub success: bool,
    pub podcast_id: i32,
    pub first_episode_id: i32,
}

/// Names a podcast to remove by its identifier.
#[derive(Debug, Clone)]
pub struct RemovePodcastValues {
    pub podcast_id: i32,
    pub user_id: i32,
    pub is_youtube: bool,
}

/// Whether a podcast was removed.
#[derive(Debug)]
pub struct RemovePodcastResponse {
    pub success: bool,
}

/// Names a podcast to remove by its title and feed address.
#[derive(Debug, Clone)]
pub struct RemovePodcastValuesName {
    pub user_id: i32,
    pub podcast_name: String,
    pub podcast_url: String,
}

/// The podcasts a listener follows.
#[derive(Debug, Clone, PartialEq)]
pub struct PodcastResponse {
    pub pods: Option<Vec<Podcast>>,
}

/// A followed podcast.
#[derive(Debug, Clone, PartialEq)]
pub struct Podcast {
    pub podcastid: i32,
    pub podcastname: String,
    pub artworkurl: Option<String>,
    pub description: Option<String>,
    pub episodecount: Option<i32>,
    pub websiteurl: Option<String>,
    pub feedurl: String,
    pub author: Option<String>,
    pub categories: Option<HashMap<String, String>>,
    pub explicit: bool,
    pub podcastindexid: Option<i64>,
}

/// The podcasts a listener follows, with listening statistics.
#[derive(Debug, Clone, PartialEq)]
pub struct PodcastResponseExtra {
    pub pods: Option<Vec<PodcastExtra>>,
}

/// A followed podcast with its listening statistics.
#[derive(Debug, Clone, PartialEq)]
pub struct PodcastExtra {
    pub podcastid: i32,
    pub podcastname: String,
    pub artworkurl: Option<String>,
    pub description: Option<String>,
    pub episodecount: Option<i32>,
    pub websiteurl: Option<String>,
    pub feedurl: String,
    pub author: Option<String>,
    pub categories: Option<HashMap<String, String>>,
    pub explicit: bool,
    pub podcastindexid: i64,
    pub play_count: i64,
    pub episodes_played: i32,
    pub oldest_episode_date: Option<String>,
    pub is_youtube: bool,
}

/// A listener's time zone and clock preference.
#[derive(Debug)]
pub struct TimeInfoResponse {
    pub timezone: String,
    pub hour_pref: i32,
}

/// Whether the listener already follows a podcast.
#[derive(Debug, Default)]
pub struct CheckPodcastResponse {
    pub exists: bool,
}

/// Whether the server knows an episode.
#[derive(Debug)]
pub struct EpisodeInDbResponse {
    pub episode_in_db: bool,
}

/// Names an episode to put into, or take out of, the queue.
#[derive(Debug)]
pub struct QueuePodcastRequest {
    pub episode_id: i32,
    pub user_id: i32,
    pub is_youtube: bool,
}

/// The queue as the pages hold it.
#[derive(Debug, Clone, PartialEq)]
pub struct QueuedEpisodesResponse {
    pub episodes: Vec<QueuedEpisode>,
}

/// An episode in the queue.
#[derive(Debug, Clone, PartialEq)]
pub struct QueuedEpisode {
    pub episodetitle: String,
    pub podcastname: String,
    pub episodepubdate: String,
    pub episodedescription: String,
    pub episodeartwork: String,
    pub episodeurl: String,
    pub queueposition: Option<i32>,
    pub episodeduration: i32,
    pub queuedate: String,
    pub listenduration: Option<i32>,
    pub episodeid: i32,
    pub completed: bool,
    pub saved: bool,
    pub queued: bool,
    pub downloaded: bool,
    pub is_youtube: bool,
}

/// The queue as the server sends it.
#[derive(Debug, Clone, PartialEq)]
pub struct DataResponse {
    pub data: Vec<QueuedEpisode>,
}

/// The saved episodes as the pages hold them.
#[derive(Debug, Clone, PartialEq)]
pub struct SavedEpisodesResponse {
    pub episodes: Vec<SavedEpisode>,
}

/// A saved episode.
#[derive(Debug, Clone, PartialEq)]
pub struct SavedEpisode {
    pub episodetitle: String,
    pub podcastname: String,
    pub episodepubdate: String,
    pub episodedescription: String,
    pub episodeartwork: String,
    pub episodeurl: String,
    pub episodeduration: i32,
    pub listenduration: Option<i32>,
    pub episodeid: i32,
    pub websiteurl: String,
    pub completed: bool,
    pub saved: bool,
    pub queued: bool,
    pub downloaded: bool,
    pub is_youtube: bool,
}

/// The saved episodes as the server sends them.
#[derive(Debug, Clone, PartialEq)]
pub struct SavedDataResponse {
    pub saved_episodes: Vec<SavedEpisode>,
}

/// Names an episode to save or to forget.
#[derive(Debug)]
pub struct SavePodcastRequest {
    pub episode_id: i32,
    pub user_id: i32,
    pub is_youtube: bool,
}

/// The listening history as the pages hold it.
#[derive(Debug, Clone, PartialEq)]
pub struct HistoryEpisodesResponse {
    pub episodes: Vec<HistoryEpisode>,
}

/// An episode the listener has played.
#[derive(Debug, Clone, PartialEq)]
pub struct HistoryEpisode {
    pub episodetitle: String,
    pub podcastname: String,
    pub episodepubdate: String,
    pub episodedescription: String,
    pub episodeartwork: String,
    pub episodeurl: String,
    pub episodeduration: i32,
    pub listenduration: Option<i32>,
    pub episodeid: i32,
    pub completed: bool,
    pub is_youtube: bool,
}

/// The listening history as the server sends it.
#[derive(Debug, Clone, PartialEq)]
pub struct HistoryDataResponse {
    pub data: Vec<HistoryEpisode>,
}

/// The downloaded episodes as the pages hold them.
#[derive(Debug, Clone, PartialEq)]
pub struct EpisodeDownloadResponse {
    pub episodes: Vec<EpisodeDownload>,
}

/// An episode that was downloaded to the server.
#[derive(Debug, Clone, PartialEq)]
pub struct EpisodeDownload {
    pub episodetitle: String,
    pub podcastname: String,
    pub episodepubdate: String,
    pub episodedescription: String,
    pub episodeartwork: String,
    pub episodeurl: String,
    pub episodeduration: i32,
    pub listenduration: Option<i32>,
    pub episodeid: i32,
    pub downloadedlocation: Option<String>,
    pub podcastid: i32,
    pub podcastindexid: Option<i64>,
    pub completed: bool,
    pub queued: bool,
    pub saved: bool,
    pub downloaded: bool,
    pub is_youtube: bool,
}

/// The downloaded episodes as the server sends them.
#[derive(Debug, Clone, PartialEq)]
pub struct DownloadDataResponse {
    pub episodes: Vec<EpisodeDownload>,
}

/// Names an episode to download or to delete from the server.
#[derive(Debug)]
pub struct DownloadEpisodeRequest {
    pub episode_id: i32,
    pub user_id: i32,
    pub is_youtube: bool,
}

/// Names a podcast whose episodes are all to be downloaded.
#[derive(Debug)]
pub struct DownloadAllPodcastRequest {
    pub podcast_id: i32,
    pub user_id: i32,
}

/// Everything the episode page shows of one episode.
#[derive(Debug, Clone, PartialEq, Default)]
pub struct EpisodeInfo {
    pub episodetitle: String,
    pub podcastname: String,
    pub podcastid: i32,
    pub podcastindexid: Option<i64>,
    pub feedurl: String,
    pub episodepubdate: String,
    pub episodedescription: String,
    pub episodeartwork: String,
    pub episodeurl: String,
    pub episodeduration: i32,
    pub listenduration: Option<i32>,
    pub episodeid: i32,
    pub completed: bool,
    pub is_queued: bool,
    pub is_saved: bool,
    pub is_downloaded: bool,
    pub is_youtube: bool,
}

/// Names an episode whose details are wanted.
#[derive(Debug)]
pub struct EpisodeRequest {
    pub episode_id: i32,
    pub user_id: i32,
    pub person_episode: bool,
    pub is_youtube: bool,
}

/// The server's answer to a request for episode details.
#[derive(Debug, Clone, PartialEq)]
pub struct EpisodeMetadataResponse {
    pub episode: EpisodeInfo,
}

/// A chapter mark of an episode.
#[derive(Debug, Clone, PartialEq)]
#[allow(non_snake_case)]
pub struct Chapter {
    pub startTime: Option<i32>,
    pub title: String,
    pub url: Option<String>,
    pub img: Option<String>,
}

/// Where a transcript of an episode can be fetched.
#[derive(Debug, Clone, PartialEq)]
pub struct Transcript {
    pub url: String,
    pub mime_type: String,
    pub language: Option<String>,
    pub rel: Option<String>,
}

/// A host or guest.
#[derive(Debug, Clone, PartialEq)]
pub struct Person {
    pub name: String,
    pub role: Option<String>,
    pub group: Option<String>,
    pub img: Option<String>,
    pub href: Option<String>,
    pub id: Option<i32>,
    pub description: Option<String>,
}

/// The chapters, transcripts and people of an episode.
#[derive(Debug, Clone, PartialEq)]
pub struct Podcasting2Data {
    pub chapters: Vec<Chapter>,
    pub transcripts: Vec<Transcript>,
    pub people: Vec<Person>,
}

/// Names an episode whose chapters, transcripts and people are wanted.
#[derive(Debug)]
pub struct FetchPodcasting2DataRequest {
    pub episode_id: i32,
    pub user_id: i32,
}

/// A podcast that another podcast recommends.
#[derive(Debug, Clone, PartialEq)]
pub struct PodrollItem {
    pub feed_guid: String,
}

/// A way to support a podcast.
#[derive(Debug, Clone, PartialEq)]
pub struct Funding {
    pub url: String,
    pub description: String,
}

/// Someone who receives a share of a listener's payment.
#[derive(Debug, Clone, PartialEq)]
pub struct ValueRecipient {
    pub name: String,
    pub kind: String,
    pub address: String,
    pub split: String,
}

/// How listeners can pay a podcast, and who receives what.
#[derive(Debug, Clone, PartialEq)]
pub struct Value {
    pub kind: String,
    pub method: String,
    pub suggested: Option<String>,
    pub recipients: Vec<ValueRecipient>,
}

/// The people, recommendations and funding of a podcast.
#[derive(Debug, Clone, PartialEq)]
pub struct Podcasting2PodData {
    pub people: Vec<Person>,
    pub podroll: Vec<PodrollItem>,
    pub funding: Vec<Funding>,
    pub value: Vec<Value>,
}

/// Names a podcast whose people, recommendations and funding are wanted.
#[derive(Debug)]
pub struct FetchPodcasting2PodDataRequest {
    pub podcast_id: i32,
    pub user_id: i32,
}

/// The server's answer to a report of listening progress.
#[derive(Debug)]
pub struct RecordListenDurationResponse {
    pub detail: String,
}

/// The identifier the server found for a feed.
#[derive(Debug, Clone, PartialEq)]
pub struct PodcastIdResponse {
    pub episodes: i32,
}

/// The podcast an episode belongs to.
#[derive(Debug, Clone, PartialEq)]
pub struct PodcastIdEpResponse {
    pub podcast_id: i32,
}

/// Everything the podcast page shows of one podcast.
#[derive(Debug, Clone)]
pub struct PodcastDetails {
    pub podcastid: i32,
    pub podcastname: String,
    pub artworkurl: String,
    pub author: String,
    pub categories: HashMap<String, String>,
    pub description: String,
    pub episodecount: i32,
    pub feedurl: String,
    pub websiteurl: String,
    pub explicit: bool,
    pub userid: i32,
    pub podcastindexid: Option<i64>,
    pub is_youtube: bool,
}

/// Names an episode to mark as played or as not played.
#[derive(Debug)]
pub struct MarkEpisodeCompletedRequest {
    pub episode_id: i32,
    pub user_id: i32,
    pub is_youtube: bool,
}

/// Names episodes that one action applies to.
#[derive(Debug)]
pub struct BulkEpisodeActionRequest {
    pub episode_ids: Vec<i32>,
    pub user_id: i32,
    pub is_youtube: Option<bool>,
}

/// Turns automatic downloading of a podcast on or off.
#[derive(Debug)]
pub struct AutoDownloadRequest {
    pub podcast_id: i32,
    pub user_id: i32,
    pub auto_download: bool,
}

/// Asks whether a podcast is downloaded automatically.
#[derive(Debug)]
pub struct AutoDownloadStatusRequest {
    pub podcast_id: i32,
    pub user_id: i32,
}

/// Whether a podcast is downloaded automatically.
#[derive(Debug)]
pub struct AutoDownloadStatusResponse {
    pub auto_download: bool,
}

/// Names a podcast whose own playback speed is to be forgotten.
#[derive(Debug)]
pub struct ClearPlaybackSpeedRequest {
    pub podcast_id: i32,
    pub user_id: i32,
}

/// Asks for the playback speed of a podcast, or of the listener.
#[derive(Debug)]
pub struct GetPlaybackSpeedRequest {
    pub user_id: i32,
    pub podcast_id: Option<i32>,
}

/// Sets how many seconds to skip at the start and the end of a podcast's episodes.
#[derive(Debug)]
pub struct SkipTimesRequest {
    pub podcast_id: i32,
    pub start_skip: i32,
    pub end_skip: i32,
    pub user_id: i32,
}

/// Asks for the skip times of a podcast.
#[derive(Debug)]
pub struct AutoSkipTimesRequest {
    pub podcast_id: i32,
    pub user_id: i32,
}

/// Seconds to skip at the start and the end of a podcast's episodes.
#[derive(Debug)]
pub struct AutoSkipTimesResponse {
    pub start_skip: i32,
    pub end_skip: i32,
}

/// Asks for the playback settings of a podcast.
#[derive(Debug)]
pub struct PlayEpisodeDetailsRequest {
    pub podcast_id: i32,
    pub user_id: i32,
    pub is_youtube: bool,
}

/// An episode found while the feeds are refreshed.
#[derive(Debug, Clone, PartialEq)]
pub struct EpisodeWebsocketResponse {
    pub episode_id: i32,
    pub podcast_id: i32,
    pub title: String,
    pub description: Option<String>,
    pub audio_url: String,
    pub artwork_url: Option<String>,
    pub release_datetime: String,
    pub duration: i32,
    pub completed: bool,
}

/// A message that announces a new episode.
#[derive(Debug, Clone, PartialEq)]
pub struct EpisodeResponse {
    pub new_episode: EpisodeWebsocketResponse,
}

/// How far a refresh of the feeds has come.
#[derive(Debug, Clone, PartialEq)]
pub struct RefreshProgress {
    pub current: i32,
    pub total: i32,
    pub current_podcast: String,
}

/// An episode as a share link shows it.
#[derive(Debug, Clone, PartialEq)]
pub struct EpisodeMetadata {
    pub podcastid: i32,
    pub podcastname: String,
    pub feedurl: String,
    pub artworkurl: String,
    pub episodeid: i32,
    pub episodetitle: String,
    pub episodepubdate: String,
    pub episodedescription: String,
    pub episodeartwork: String,
    pub episodeurl: String,
    pub episodeduration: i32,
    pub completed: bool,
    pub is_youtube: bool,
}

/// The server's answer to a share link.
#[derive(Debug, Clone, PartialEq)]
pub struct SharedEpisodeResponse {
    pub episode: EpisodeMetadata,
}

/// Adds a category to a podcast.
pub struct AddCategoryRequest {
    pub podcast_id: i32,
    pub user_id: i32,
    pub category: String,
}

/// Sets how many days of a podcast's feed are kept.
pub struct UpdateFeedCutoffDaysRequest {
    pub podcast_id: i32,
    pub user_id: i32,
    pub feed_cutoff_days: i32,
}

/// Asks how many days of a podcast's feed are kept.
pub struct GetFeedCutoffDaysRequest {
    pub podcast_id: i32,
    pub user_id: i32,
}

/// Takes a category off a podcast.
pub struct RemoveCategoryRequest {
    pub podcast_id: i32,
    pub user_id: i32,
    pub category: String,
}

/// The server's answer to following a video channel.
#[derive(Debug)]
pub struct YouTubeSubscribeResponse {
    pub success: bool,
    pub podcast_id: i32,
    pub message: String,
}

/// Names a video channel to stop following.
#[derive(Debug, Clone)]
pub struct RemoveYouTubeChannelValues {
    pub user_id: i32,
    pub channel_name: String,
    pub channel_url: String,
}

/// Whether a video channel was removed.
#[derive(Debug, Clone)]
pub struct YoutubeChannelResponse {
    pub success: bool,
}

/// Whether the listener already follows a video channel.
#[derive(Debug, Default)]
pub struct CheckYouTubeChannelResponse {
    pub exists: bool,
}

/// A podcast on the home page.
#[derive(Debug, Clone, PartialEq)]
pub struct HomePodcast {
    pub podcastid: i32,
    pub podcastname: String,
    pub podcastindexid: Option<i64>,
    pub artworkurl: Option<String>,
    pub author: Option<String>,
    pub categories: Option<HashMap<String, String>>,
    pub description: Option<String>,
    pub episodecount: Option<i32>,
    pub feedurl: Option<String>,
    pub websiteurl: Option<String>,
    pub explicit: Option<bool>,
    pub is_youtube: bool,
    pub play_count: i32,
    pub total_listen_time: Option<i32>,
}

/// An episode on the home page.
#[derive(Debug, Clone, PartialEq)]
pub struct HomeEpisode {
    pub episodeid: i32,
    pub podcastid: i32,
    pub episodetitle: String,
    pub episodedescription: String,
    pub episodeurl: String,
    pub episodeartwork: String,
    pub episodepubdate: String,
    pub episodeduration: i32,
    pub completed: bool,
    pub podcastname: String,
    pub is_youtube: bool,
    pub listenduration: Option<i32>,
    pub saved: bool,
    pub queued: bool,
    pub downloaded: bool,
}

/// Everything the home page shows.
#[derive(Debug, Clone, PartialEq)]
pub struct HomeOverview {
    pub recent_episodes: Vec<HomeEpisode>,
    pub in_progress_episodes: Vec<HomeEpisode>,
    pub top_podcasts: Vec<HomePodcast>,
    pub saved_count: i32,
    pub downloaded_count: i32,
    pub queue_count: i32,
}

/// An episode in a playlist's preview.
#[derive(Debug, Clone, PartialEq)]
pub struct PlaylistEpisode {
    pub title: String,
    pub artwork: String,
}

/// A playlist and the rules that fill it.
#[derive(Debug, Clone, PartialEq)]
pub struct Playlist {
    pub playlist_id: i32,
    pub user_id: i32,
    pub name: String,
    pub description: Option<String>,
    pub is_system_playlist: bool,
    pub podcast_ids: Option<Vec<i32>>,
    pub include_unplayed: bool,
    pub include_partially_played: bool,
    pub include_played: bool,
    pub min_duration: Option<i32>,
    pub max_duration: Option<i32>,
    pub sort_order: String,
    pub group_by_podcast: bool,
    pub max_episodes: Option<i32>,
    pub last_updated: String,
    pub created: String,
    pub episode_count: Option<i32>,
    pub preview_episodes: Vec<PlaylistEpisode>,
    pub icon_name: Option<String>,
}

/// The playlists of a listener.
#[derive(Debug, Clone)]
pub struct PlaylistResponse {
    pub playlists: Vec<Playlist>,
}

/// The server's answer to creating a playlist.
#[derive(Debug, Clone)]
pub struct CreatePlaylistResponse {
    pub detail: String,
    pub playlist_id: i32,
}

/// The episodes of a playlist.
#[derive(Debug, Clone)]
pub struct PlaylistEpisodesResponse {
    pub episodes: Vec<Episode>,
    pub playlist_info: PlaylistInfo,
}

/// The heading of a playlist.
#[derive(Debug, Clone, PartialEq)]
pub struct PlaylistInfo {
    pub name: String,
    pub description: Option<String>,
    pub episode_count: Option<i32>,
    pub icon_name: Option<String>,
}

/// The key under which a listener's feeds are published.
#[derive(Debug)]
pub struct RssKeyResponse {
    pub rss_key: String,
}

/// Whether a feed at `feedurl` is a video channel: its address names the
/// video site.
pub open spec fn spec_is_youtube_feed(feedurl: Seq<char>) -> bool {
    spec_contains(feedurl, "youtube.com"@)
}

/// Whether a feed at `feedurl` is a video channel.
pub fn is_youtube_feed(feedurl: &str) -> (is_youtube: bool)
    ensures
        is_youtube == spec_is_youtube_feed(feedurl@),
{
    contains_text(feedurl, "youtube.com")
}

impl From<Podcast> for PodcastExtra {
    /// A followed podcast without statistics yet: nothing played, no
    /// index identifier read as 0, and a video channel where the feed
    /// address says so.
    fn from(podcast: Podcast) -> (extra: PodcastExtra) {
        let is_youtube: bool = is_youtube_feed(podcast.feedurl.as_str());
        PodcastExtra {
            podcastid: podcast.podcastid,
            podcastname: podcast.podcastname,
            artworkurl: podcast.artworkurl,
            description: podcast.description,
            episodecount: podcast.episodecount,
            websiteurl: podcast.websiteurl,
            feedurl: podcast.feedurl,
            author: podcast.author,
            categories: podcast.categories,
            explicit: podcast.explicit,
            podcastindexid: match podcast.podcastindexid {
                Some(id) => id,
                None => 0,
            },
            play_count: 0,
            episodes_played: 0,
            oldest_episode_date: None,
            is_youtube,
        }
    }
}

impl FromSpecImpl<Podcast> for PodcastExtra {
    open spec fn obeys_from_spec() -> bool {
        true
    }

    open spec fn from_spec(podcast: Podcast) -> PodcastExtra {
        PodcastExtra {
            podcastid: podcast.podcastid,
            podcastname: podcast.podcastname,
            artworkurl: podcast.artworkurl,
            description: podcast.description,
            episodecount: podcast.episodecount,
            websiteurl: podcast.websiteurl,
            feedurl: podcast.feedurl,
            author: podcast.author,
            categories: podcast.categories,
            explicit: podcast.explicit,
            podcastindexid: match podcast.podcastindexid {
                Some(id) => id,
                None => 0,
            },
            play_count: 0,
            episodes_played: 0,
            oldest_episode_date: None,
            is_youtube: spec_is_youtube_feed(podcast.feedurl@),
        }
    }
}

impl From<PodcastExtra> for Podcast {
    /// The podcast without its statistics.
    fn from(podcast_extra: PodcastExtra) -> (podcast: Podcast) {
        Podcast {
            podcastid: podcast_extra.podcastid,
            podcastname: podcast_extra.podcastname,
            artworkurl: podcast_extra.artworkurl,
            description: podcast_extra.description,
            episodecount: podcast_extra.episodecount,
            websiteurl: podcast_extra.websiteurl,
            feedurl: podcast_extra.feedurl,
            author: podcast_extra.author,
            categories: podcast_extra.categories,
            explicit: podcast_extra.explicit,
            podcastindexid: Some(podcast_extra.podcastindexid),
        }
    }
}

impl FromSpecImpl<PodcastExtra> for Podcast {
    open spec fn obeys_from_spec() -> bool {
        true
    }

    open spec fn from_spec(podcast_extra: PodcastExtra) -> Podcast {
        Podcast {
            podcastid: podcast_extra.podcastid,
            podcastname: podcast_extra.podcastname,
            artworkurl: podcast_extra.artworkurl,
            description: podcast_extra.description,
            episodecount: podcast_extra.episodecount,
            websiteurl: podcast_extra.websiteurl,
            feedurl: podcast_extra.feedurl,
            author: podcast_extra.author,
            categories: podcast_extra.categories,
            explicit: podcast_extra.explicit,
            podcastindexid: Some(podcast_extra.podcastindexid),
        }
    }
}

/// A podcast that lost and regained its statistics is the podcast it was,
/// but for the statistics.
pub proof fn lemma_podcast_round_trip(podcast_extra: PodcastExtra)
    ensures
        <PodcastExtra as FromSpec<Podcast>>::from_spec(
            <Podcast as FromSpec<PodcastExtra>>::from_spec(podcast_extra),
        ) == (PodcastExtra {
            play_count: 0,
            episodes_played: 0,
            oldest_episode_date: None,
            is_youtube: spec_is_youtube_feed(podcast_extra.feedurl@),
            ..podcast_extra
        }),
{
}

/// `podcast` with the video-channel flag set from its feed address.
pub open spec fn spec_flag_youtube(podcast: PodcastExtra) -> PodcastExtra {
    PodcastExtra { is_youtube: spec_is_youtube_feed(podcast.feedurl@), ..podcast }
}

/// Sets the video-channel flag of every podcast from its feed address,
/// whatever the server sent for it, and changes nothing else.
pub fn flag_youtube_feeds(pods: &mut Vec<PodcastExtra>)
    ensures
        final(pods)@.len() == old(pods)@.len(),
        forall|i: int|
            0 <= i < old(pods)@.len() ==> #[trigger] final(pods)@[i] == spec_flag_youtube(
                old(pods)@[i],
            ),
{
    let mut i: usize = 0;
    while i < pods.len()
        invariant
            0 <= i <= pods@.len(),
            pods@.len() == old(pods)@.len(),
            forall|j: int| 0 <= j < i ==> #[trigger] pods@[j] == spec_flag_youtube(old(pods)@[j]),
            forall|j: int| i <= j < pods@.len() ==> #[trigger] pods@[j] == old(pods)@[j],
        decreases pods@.len() - i,
    {
        let is_youtube: bool = is_youtube_feed(pods[i].feedurl.as_str());
        pods[i].is_youtube = is_youtube;
        i += 1;
    }
}

} // verus!
