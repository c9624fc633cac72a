//! Serving a listener's podcasts as a feed: which key the request runs
//! under, how many episodes it may list, and the address the feed's links
//! start with.
//!
//! The handler itself waits for the store between these decisions; each
//! function here takes what the store answered and says what comes next.

use vstd::prelude::*;
use vstd::string::StringExecFns;

verus! {

/// Episodes a feed lists where the request names no limit.
pub const DEFAULT_FEED_LIMIT: i32 = 1000;

/// The query of a feed request.
pub struct FeedQuery {
    pub api_key: String,
    pub limit: Option<i32>,
    pub podcast_id: Option<i32>,
    pub source_type: Option<String>,
}

/// A key that gives access to the feeds of a listener's podcasts.
#[derive(Debug, Clone)]
pub struct RssKeyInfo {
    pub podcast_ids: Vec<i32>,
    pub user_id: i32,
    pub key: String,
}

impl FeedQuery {
    /// The number of episodes to list: the limit of the query, or 1000.
    pub open spec fn spec_limit(self) -> i32 {
        match self.limit {
            Some(limit) => limit,
            None => 1000,
        }
    }

    /// The podcasts the query is about: the one it names, or no
    /// restriction.
    pub open spec fn spec_podcast_id_list(self) -> Option<Seq<i32>> {
        match self.podcast_id {
            Some(id) => Some(seq![id]),
            None => None,
        }
    }

    /// The number of episodes to list: the limit of the query, or 1000.
    pub fn limit_or_default(&self) -> (limit: i32)
        ensures
            limit == self.spec_limit(),
    {
        match self.limit {
            Some(limit) => limit,
            None => DEFAULT_FEED_LIMIT,
        }
    }

    /// The podcasts the query is about, as the store takes them: the one
    /// podcast it names, as a list, or `None` for all of them.
    pub fn podcast_id_list(&self) -> (list: Option<Vec<i32>>)
        ensures
            list is Some <==> self.podcast_id is Some,
            list matches Some(ids) ==> Some(ids@) == self.spec_podcast_id_list(),
    {
        match self.podcast_id {
            Some(id) => {
                let mut ids: Vec<i32> = Vec::new();
                ids.push(id);
                assert(ids@ =~= seq![id]);
                Some(ids)
            },
            None => None,
        }
    }
}

/// What the handler does after it asked the store for a feed key.
#[derive(Debug)]
pub enum FeedStep {
    /// Ask the store which listener the key of the query belongs to.
    LookUpUser,
    /// Build the feed under this key.
    Generate(RssKeyInfo),
    /// Refuse the request: the key belongs to nobody.
    Forbidden,
}

/// The step after the store was asked for a feed key: with a key, the
/// feed is built under it; without, the listener is looked up.
pub fn after_key_lookup(found: Option<RssKeyInfo>) -> (step: FeedStep)
    ensures
        match found {
            Some(key) => step == FeedStep::Generate(key),
            None => step == FeedStep::LookUpUser,
        },
{
    match found {
        Some(key) => FeedStep::Generate(key),
        None => FeedStep::LookUpUser,
    }
}

/// The step after the store was asked for the listener behind `api_key`.
/// Listener 0 is nobody and the request is refused.  For any other
/// listener the feed is built under a key made up for the occasion, which
/// holds the one identifier -1 for "every podcast".
pub fn after_user_lookup(key_id: i32, api_key: &str) -> (step: FeedStep)
    ensures
        key_id == 0 ==> step == FeedStep::Forbidden,
        key_id != 0 ==> {
            &&& step matches FeedStep::Generate(key)
            &&& key.podcast_ids@ == seq![-1i32]
            &&& key.user_id == key_id
            &&& key.key@ == api_key@
        },
{
    if key_id == 0 {
        FeedStep::Forbidden
    } else {
        let mut podcast_ids: Vec<i32> = Vec::new();
        podcast_ids.push(-1);
        assert(podcast_ids@ =~= seq![-1i32]);
        FeedStep::Generate(
            RssKeyInfo { podcast_ids, user_id: key_id, key: String::from_str(api_key) },
        )
    }
}

/// The address a feed's links start with, from the headers of the request.
pub open spec fn spec_request_domain(host: Option<Seq<char>>, forwarded_proto: Option<Seq<char>>) -> Seq<char> {
    match host {
        Some(host) => {
            let scheme = match forwarded_proto {
                Some(proto) => proto,
                None => "http"@,
            };
            scheme + "://"@ + host
        },
        None => "http://localhost:8041"@,
    }
}

/// The address a feed's links start with.  `host` is the request's host
/// header and `forwarded_proto` the protocol a proxy reports, each where
/// the header is there and is text.  Without a host the address is that of
/// a local server; without a reported protocol it is plain http.
pub fn request_domain(host: Option<&str>, forwarded_proto: Option<&str>) -> (domain: String)
    ensures
        domain@ == spec_request_domain(
            match host {
                Some(h) => Some(h@),
                None => None,
            },
            match forwarded_proto {
                Some(p) => Some(p@),
                None => None,
            },
        ),
{
    match host {
        Some(host) => {
            let scheme: &str = match forwarded_proto {
                Some(proto) => proto,
                None => "http",
            };
            String::from_str(scheme).concat("://").concat(host)
        },
        None => String::from_str("http://localhost:8041"),
    }
}

} // verus!
