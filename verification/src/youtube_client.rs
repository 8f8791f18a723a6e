//! One upstream call with key failover, as steps around the transport: the
//! client reserves a key and says what to send, the caller sends it and
//! reports what came back, and the client says what that means.

use crate::key_manager::{lemma_expire, lemma_selection, Expiry, KeyManager, Pool};
use crate::models::content_type::ContentType;
use std::collections::BTreeMap;
use vstd::prelude::*;
use vstd::set_lib::{lemma_int_range, lemma_len_subset, set_int_range};

verus! {

/// The address under which the upstream's lists stand.
pub const YOUTUBE_URL: &'static str = "https://www.googleapis.com/youtube/v3";

/// Budget units that one search costs.
pub const COST_SEARCH: usize = 100;

/// Budget units that one lookup of a single item costs.
pub const COST_SINGLE: usize = 6;

/// Budget units that one page of playlist items costs.
pub const COST_PLAYLIST_PAGE: usize = 3;

/// The status with which the upstream refuses a key whose budget is spent.
pub const QUOTA_EXHAUSTED: u16 = 429;

/// The kinds of upstream call.
#[derive(Clone, Copy, Debug, PartialEq, Eq, Structural)]
pub enum Operation {
    Search,
    Single,
    PlaylistItems,
}

impl Operation {
    /// The name by which an operation is told to the caller.
    pub open spec fn named(self) -> Seq<char> {
        match self {
            Operation::Search => "search"@,
            Operation::Single => "single"@,
            Operation::PlaylistItems => "playlist items"@,
        }
    }

    pub fn name(&self) -> (name: &'static str)
        ensures
            name@ == self.named(),
    {
        match self {
            Operation::Search => "search",
            Operation::Single => "single",
            Operation::PlaylistItems => "playlist items",
        }
    }
}

/// Why a call ended without a result.
#[derive(Clone, Copy, Debug, PartialEq, Eq, Structural)]
pub enum DispatchError {
    /// No key has enough budget left for the operation.
    KeysExhausted { operation: Operation },
    /// The base address and the parameters make no URL.
    InvalidUrl,
    /// The upstream could not be reached, or did not answer in time.
    Transport,
    /// The upstream answered with a status that is neither a success nor
    /// the refusal of the key.
    Upstream { status: u16 },
    /// The answer does not have the shape that the operation expects.
    Decode,
}

/// What the caller reports after it has sent a request.
#[derive(Clone, Copy, Debug, PartialEq, Eq, Structural)]
pub enum Reply {
    /// The request failed before any status came back.
    Unreachable,
    /// The upstream answered with this status.
    Status { code: u16 },
}

/// What a reply means for the call.
#[derive(Clone, Copy, Debug, PartialEq, Eq, Structural)]
pub enum Verdict {
    /// Success: the body is to be decoded.
    Decode,
    /// The key was refused and is now marked as exhausted: start again.
    /// `found` says how the pool held the key.
    Retry { found: Expiry },
    /// The call ends with this error.
    Fail { error: DispatchError },
}

/// A request that is ready to be sent, and the key that pays for it.
pub struct UpstreamRequest {
    pub key: String,
    pub url: String,
}

/// Query parameters: names and values, in order.
pub type Query = Seq<(Seq<char>, Seq<char>)>;

/// The URL that `reqwest::Url::parse_with_params` makes of an address and
/// query parameters, as text; `None` where it makes none.
pub uninterp spec fn url_with_params(input: Seq<char>, params: Seq<(Seq<char>, Seq<char>)>) -> Option<
    Seq<char>,
>;

/// Calls `reqwest::Url::parse_with_params`, which parses `input` as an
/// absolute URL and appends `params` to its query string, and hands back
/// the URL's text. The contract names the result, which the two arguments
/// alone decide, and says no more of it. The parse error, which tells no
/// more than that there is no URL, is dropped.
#[verifier::external_body]
fn parse_with_params(input: &str, params: &Vec<(&'static str, String)>) -> (url: Option<String>)
    ensures
        url matches Some(text) ==> url_with_params(input@, params.deep_view()) == Some(text@),
        url is None ==> url_with_params(input@, params.deep_view()) is None,
{
    reqwest::Url::parse_with_params(input, params).ok().map(String::from)
}

/// Whether a status is a success: 200 to 299.
pub open spec fn is_success(code: u16) -> bool {
    200 <= code < 300
}

/// What a reply to a request that `key` paid for means.
pub open spec fn judge(pool: Pool, key: Seq<char>, reply: Reply) -> Verdict {
    match reply {
        Reply::Unreachable => Verdict::Fail { error: DispatchError::Transport },
        Reply::Status { code } => if is_success(code) {
            Verdict::Decode
        } else if code == QUOTA_EXHAUSTED {
            Verdict::Retry { found: pool.expiry(key) }
        } else {
            Verdict::Fail { error: DispatchError::Upstream { status: code } }
        },
    }
}

/// The pool after the reply to a request that `key` paid for: a refused
/// key is marked as exhausted, anything else leaves the pool as it is.
pub open spec fn settled(pool: Pool, key: Seq<char>, reply: Reply) -> Pool {
    if judge(pool, key, reply) is Retry {
        pool.expire(key)
    } else {
        pool
    }
}

/// What an attempt yields: the key that pays and the URL to send, or the
/// error that ends the call. `url` gives the URL for a key.
pub open spec fn prepared(
    pool: Pool,
    operation: Operation,
    cost: nat,
    url: spec_fn(Seq<char>) -> Option<Seq<char>>,
) -> Result<(Seq<char>, Seq<char>), DispatchError> {
    match pool.selection(cost) {
        None => Err(DispatchError::KeysExhausted { operation }),
        Some(i) => match url(pool.keys[i]) {
            Some(text) => Ok((pool.keys[i], text)),
            None => Err(DispatchError::InvalidUrl),
        },
    }
}

/// The parameters of a search.
pub open spec fn search_query(content_type: ContentType, key: Seq<char>, search_params: Query) -> Query {
    seq![
        ("part"@, "snippet"@),
        ("key"@, key),
        ("maxResults"@, "50"@),
        ("safeSearch"@, "none"@),
        ("order"@, "date"@),
    ] + search_params + match content_type {
        ContentType::CHANNEL => seq![("type"@, "channel"@)],
        ContentType::VIDEO => seq![("type"@, "video"@), ("videoDimension"@, "2d"@)],
        ContentType::PLAYLIST => seq![("type"@, "playlist"@)],
    }
}

/// The path of the list that holds single items of a content type.
pub open spec fn single_path(content_type: ContentType) -> Seq<char> {
    match content_type {
        ContentType::CHANNEL => "/channels"@,
        ContentType::VIDEO => "/videos"@,
        ContentType::PLAYLIST => "/playlists"@,
    }
}

/// The parameters of the lookup of a single item.
pub open spec fn single_query(content_type: ContentType, key: Seq<char>, id: Seq<char>) -> Query {
    seq![("key"@, key), ("id"@, id)] + match content_type {
        ContentType::CHANNEL => seq![("part"@, "snippet,id,statistics,contentDetails"@)],
        ContentType::VIDEO => seq![("part"@, "snippet,id"@)],
        ContentType::PLAYLIST => seq![("part"@, "snippet,id"@)],
    }
}

/// The parameters of a page of playlist items.
pub open spec fn playlist_page_query(key: Seq<char>, search_params: Query) -> Query {
    seq![("part"@, "id,snippet"@), ("key"@, key), ("maxResults"@, "50"@)] + search_params
}

/// What the start of a search yields.
pub open spec fn search_attempt(
    pool: Pool,
    base: Seq<char>,
    content_type: ContentType,
    search_params: Query,
) -> Result<(Seq<char>, Seq<char>), DispatchError> {
    prepared(
        pool,
        Operation::Search,
        COST_SEARCH as nat,
        |key: Seq<char>|
            url_with_params(base + "/search"@, search_query(content_type, key, search_params)),
    )
}

/// What the start of the lookup of a single item yields.
pub open spec fn single_attempt(
    pool: Pool,
    base: Seq<char>,
    content_type: ContentType,
    id: Seq<char>,
) -> Result<(Seq<char>, Seq<char>), DispatchError> {
    prepared(
        pool,
        Operation::Single,
        COST_SINGLE as nat,
        |key: Seq<char>|
            url_with_params(base + single_path(content_type), single_query(content_type, key, id)),
    )
}

/// What the start of the listing of a page of playlist items yields.
pub open spec fn playlist_page_attempt(pool: Pool, base: Seq<char>, search_params: Query) -> Result<
    (Seq<char>, Seq<char>),
    DispatchError,
> {
    prepared(
        pool,
        Operation::PlaylistItems,
        COST_PLAYLIST_PAGE as nat,
        |key: Seq<char>|
            url_with_params(base + "/playlistItems"@, playlist_page_query(key, search_params)),
    )
}

impl UpstreamRequest {
    /// The key and the URL as characters.
    pub open spec fn parts(&self) -> (Seq<char>, Seq<char>) {
        (self.key@, self.url@)
    }

    /// A request or an error, the request as characters.
    pub open spec fn outcome(request: Result<UpstreamRequest, DispatchError>) -> Result<
        (Seq<char>, Seq<char>),
        DispatchError,
    > {
        match request {
            Ok(r) => Ok(r.parts()),
            Err(error) => Err(error),
        }
    }

    /// The request for `key` and the URL that was made for it, or the error
    /// where none could be made.
    pub fn for_key(key: String, url: Option<String>) -> (request: Result<
        UpstreamRequest,
        DispatchError,
    >)
        ensures
            match request {
                Ok(r) => url == Some(r.url) && r.key == key,
                Err(error) => url is None && error == DispatchError::InvalidUrl,
            },
    {
        match url {
            Some(url) => Ok(UpstreamRequest { key, url }),
            None => Err(DispatchError::InvalidUrl),
        }
    }
}

/// Appends one parameter to `params`.
fn push_param(params: &mut Vec<(&'static str, String)>, name: &'static str, value: String)
    ensures
        final(params).deep_view() == old(params).deep_view().push((name@, value@)),
{
    let ghost before = params.deep_view();
    params.push((name, value));
    assert(params.deep_view() =~= before.push((name@, value@)));
}

/// Appends `more` to `params`.
fn extend_query(params: &mut Vec<(&'static str, String)>, more: &Vec<(&'static str, String)>)
    ensures
        final(params).deep_view() == old(params).deep_view() + more.deep_view(),
{
    let ghost before = params.deep_view();
    let mut i: usize = 0;
    while i < more.len()
        invariant
            i <= more.len(),
            params.deep_view() == before + more.deep_view().take(i as int),
        decreases more.len() - i,
    {
        let ghost so_far = params.deep_view();
        let name: &'static str = more[i].0;
        params.push((name, more[i].1.clone()));
        assert(params.deep_view() =~= so_far.push(more[i as int].deep_view()));
        assert(more.deep_view().take(i + 1) =~= more.deep_view().take(i as int).push(
            more[i as int].deep_view(),
        ));
        i += 1;
    }
    assert(more.deep_view().take(more.len() as int) =~= more.deep_view());
}

/// The key pool and the address of the upstream.
pub struct YoutubeClient {
    key_manager: KeyManager,
    base_url: String,
}

impl YoutubeClient {
    /// The key pool.
    pub closed spec fn pool(&self) -> Pool {
        self.key_manager@
    }

    /// The address under which the upstream's lists stand.
    pub closed spec fn base(&self) -> Seq<char> {
        self.base_url@
    }

    /// The pool is well-formed, as every pool is.
    pub open spec fn wf(&self) -> bool {
        self.pool().wf()
    }

    pub fn new(key_manager: KeyManager, base_url: String) -> (client: YoutubeClient)
        ensures
            client.wf(),
            client.pool() == key_manager@,
            client.base() == base_url@,
    {
        proof {
            use_type_invariant(&key_manager);
        }
        YoutubeClient { key_manager, base_url }
    }

    /// The remaining budget of every key, by its position in the pool.
    pub fn get_key_status(&self) -> (status: BTreeMap<usize, usize>)
        ensures
            self.wf(),
            status@ == self.pool().status(),
    {
        self.key_manager.get_status()
    }

    /// Gives every key its default budget again.
    pub fn reset_key_status(&mut self)
        ensures
            final(self).wf(),
            final(self).pool() == old(self).pool().reset(),
            final(self).base() == old(self).base(),
    {
        self.key_manager.reset_keys();
    }

    /// Reserves a key for `operation`.
    fn reserve(&mut self, operation: Operation, cost: usize) -> (key: Result<String, DispatchError>)
        ensures
            final(self).wf(),
            final(self).pool() == old(self).pool().reserve(cost as nat),
            final(self).base() == old(self).base(),
            match key {
                Ok(k) => old(self).pool().selection(cost as nat) matches Some(i) && k@ == old(
                    self,
                ).pool().keys[i],
                Err(error) => old(self).pool().selection(cost as nat) is None && error
                    == (DispatchError::KeysExhausted { operation }),
            },
    {
        match self.key_manager.get_key(cost) {
            Some(key) => Ok(key),
            None => Err(DispatchError::KeysExhausted { operation }),
        }
    }

    /// Starts a search: reserves a key for `COST_SEARCH` and makes the
    /// request. Without a key that can pay, the pool stays as it is.
    pub fn search(
        &mut self,
        content_type: ContentType,
        search_params: Vec<(&'static str, String)>,
    ) -> (request: Result<UpstreamRequest, DispatchError>)
        ensures
            final(self).wf(),
            final(self).pool() == old(self).pool().reserve(COST_SEARCH as nat),
            final(self).base() == old(self).base(),
            UpstreamRequest::outcome(request) == search_attempt(
                old(self).pool(),
                old(self).base(),
                content_type,
                search_params.deep_view(),
            ),
    {
        let key = match self.reserve(Operation::Search, COST_SEARCH) {
            Ok(key) => key,
            Err(error) => {
                return Err(error);
            },
        };
        let mut params: Vec<(&'static str, String)> = Vec::new();
        assert(params.deep_view() =~= Seq::empty());
        push_param(&mut params, "part", "snippet".to_owned());
        push_param(&mut params, "key", key.clone());
        push_param(&mut params, "maxResults", "50".to_owned());
        push_param(&mut params, "safeSearch", "none".to_owned());
        push_param(&mut params, "order", "date".to_owned());
        extend_query(&mut params, &search_params);
        match content_type {
            ContentType::CHANNEL => {
                push_param(&mut params, "type", "channel".to_owned());
            },
            ContentType::VIDEO => {
                push_param(&mut params, "type", "video".to_owned());
                push_param(&mut params, "videoDimension", "2d".to_owned());
            },
            ContentType::PLAYLIST => {
                push_param(&mut params, "type", "playlist".to_owned());
            },
        }
        assert(params.deep_view() =~= search_query(content_type, key@, search_params.deep_view()));
        let address = self.base_url.clone().concat("/search");
        UpstreamRequest::for_key(key, parse_with_params(address.as_str(), &params))
    }

    /// Starts the lookup of the item `id`: reserves a key for `COST_SINGLE`
    /// and makes the request. Without a key that can pay, the pool stays as
    /// it is.
    pub fn single(&mut self, content_type: ContentType, id: String) -> (request: Result<
        UpstreamRequest,
        DispatchError,
    >)
        ensures
            final(self).wf(),
            final(self).pool() == old(self).pool().reserve(COST_SINGLE as nat),
            final(self).base() == old(self).base(),
            UpstreamRequest::outcome(request) == single_attempt(
                old(self).pool(),
                old(self).base(),
                content_type,
                id@,
            ),
    {
        let key = match self.reserve(Operation::Single, COST_SINGLE) {
            Ok(key) => key,
            Err(error) => {
                return Err(error);
            },
        };
        let mut params: Vec<(&'static str, String)> = Vec::new();
        assert(params.deep_view() =~= Seq::empty());
        push_param(&mut params, "key", key.clone());
        push_param(&mut params, "id", id);
        let path;
        match content_type {
            ContentType::CHANNEL => {
                path = "/channels";
                push_param(&mut params, "part", "snippet,id,statistics,contentDetails".to_owned());
            },
            ContentType::VIDEO => {
                path = "/videos";
                push_param(&mut params, "part", "snippet,id".to_owned());
            },
            ContentType::PLAYLIST => {
                path = "/playlists";
                push_param(&mut params, "part", "snippet,id".to_owned());
            },
        }
        assert(params.deep_view() =~= single_query(content_type, key@, id@));
        let address = self.base_url.clone().concat(path);
        UpstreamRequest::for_key(key, parse_with_params(address.as_str(), &params))
    }

    /// Starts the listing of one page of playlist items: reserves a key for
    /// `COST_PLAYLIST_PAGE` and makes the request. Without a key that can
    /// pay, the pool stays as it is.
    pub fn playlist_page(&mut self, search_params: Vec<(&'static str, String)>) -> (request: Result<
        UpstreamRequest,
        DispatchError,
    >)
        ensures
            final(self).wf(),
            final(self).pool() == old(self).pool().reserve(COST_PLAYLIST_PAGE as nat),
            final(self).base() == old(self).base(),
            UpstreamRequest::outcome(request) == playlist_page_attempt(
                old(self).pool(),
                old(self).base(),
                search_params.deep_view(),
            ),
    {
        let key = match self.reserve(Operation::PlaylistItems, COST_PLAYLIST_PAGE) {
            Ok(key) => key,
            Err(error) => {
                return Err(error);
            },
        };
        let mut params: Vec<(&'static str, String)> = Vec::new();
        assert(params.deep_view() =~= Seq::empty());
        push_param(&mut params, "part", "id,snippet".to_owned());
        push_param(&mut params, "key", key.clone());
        push_param(&mut params, "maxResults", "50".to_owned());
        extend_query(&mut params, &search_params);
        assert(params.deep_view() =~= playlist_page_query(key@, search_params.deep_view()));
        let address = self.base_url.clone().concat("/playlistItems");
        UpstreamRequest::for_key(key, parse_with_params(address.as_str(), &params))
    }

    /// Takes the reply to `request`. A success is to be decoded. The
    /// refusal of the key marks the key as exhausted and asks for another
    /// attempt. Anything else ends the call and leaves the pool as it is:
    /// what the key paid is not given back.
    pub fn settle(&mut self, request: &UpstreamRequest, reply: Reply) -> (verdict: Verdict)
        ensures
            final(self).wf(),
            verdict == judge(old(self).pool(), request.key@, reply),
            final(self).pool() == settled(old(self).pool(), request.key@, reply),
            final(self).base() == old(self).base(),
    {
        proof {
            use_type_invariant(&self.key_manager);
        }
        match reply {
            Reply::Unreachable => Verdict::Fail { error: DispatchError::Transport },
            Reply::Status { code } => {
                if 200 <= code && code < 300 {
                    Verdict::Decode
                } else if code == QUOTA_EXHAUSTED {
                    let found = self.key_manager.set_key_as_expired(request.key.clone());
                    Verdict::Retry { found }
                } else {
                    Verdict::Fail { error: DispatchError::Upstream { status: code } }
                }
            },
        }
    }
}

/// The single item of a decoded list: its first entry, if it has one.
pub fn single_item<T>(items: Option<Vec<T>>) -> (item: Option<T>)
    ensures
        item == match items {
            Some(list) => if list.len() > 0 {
                Some(list[0])
            } else {
                None
            },
            None => None,
        },
{
    match items {
        Some(mut list) => {
            if list.len() > 0 {
                Some(list.remove(0))
            } else {
                None
            }
        },
        None => None,
    }
}

/// How a call stands.
pub enum End {
    /// The upstream answered with a success: the body is to be decoded.
    Decode,
    /// The call ended with this error.
    Failed { error: DispatchError },
    /// A request is out and no reply to it is known yet.
    Pending,
}

/// A call as far as the replies reach: the pool after it, the positions of
/// the keys that paid for an attempt, in order, and how the call stands.
pub struct Run {
    pub pool: Pool,
    pub tried: Seq<int>,
    pub end: End,
}

/// The call that the steps of the client make when the caller goes on
/// after every `Retry`: an attempt reserves a key and makes the request,
/// the next of `replies` is settled, and a refused key leads to the next
/// attempt. `url` gives the URL for a key.
pub open spec fn run(
    pool: Pool,
    operation: Operation,
    cost: nat,
    url: spec_fn(Seq<char>) -> Option<Seq<char>>,
    replies: Seq<Reply>,
) -> Run
    decreases replies.len(),
{
    match pool.selection(cost) {
        None => Run {
            pool,
            tried: Seq::empty(),
            end: End::Failed { error: DispatchError::KeysExhausted { operation } },
        },
        Some(i) => {
            let charged = pool.charge(i, cost);
            let key = pool.keys[i];
            if url(key) is None {
                Run { pool: charged, tried: seq![i], end: End::Failed { error: DispatchError::InvalidUrl } }
            } else if replies.len() == 0 {
                Run { pool: charged, tried: seq![i], end: End::Pending }
            } else {
                let after = settled(charged, key, replies[0]);
                match judge(charged, key, replies[0]) {
                    Verdict::Decode => Run { pool: after, tried: seq![i], end: End::Decode },
                    Verdict::Fail { error } => Run {
                        pool: after,
                        tried: seq![i],
                        end: End::Failed { error },
                    },
                    Verdict::Retry { .. } => {
                        let rest = run(after, operation, cost, url, replies.drop_first());
                        Run { pool: rest.pool, tried: seq![i] + rest.tried, end: rest.end }
                    },
                }
            }
        },
    }
}

/// What holds of every call with a positive cost: each attempt is paid by
/// a key that could pay when the call began, no key pays twice, no budget
/// rises, and a call that still waits has made one attempt more than it
/// has replies.
pub proof fn lemma_run(
    pool: Pool,
    operation: Operation,
    cost: nat,
    url: spec_fn(Seq<char>) -> Option<Seq<char>>,
    replies: Seq<Reply>,
)
    requires
        pool.wf(),
        cost > 0,
    ensures
        run(pool, operation, cost, url, replies).pool.wf(),
        run(pool, operation, cost, url, replies).pool.keys == pool.keys,
        forall|i: int|
            0 <= i < pool.len() ==> #[trigger] run(pool, operation, cost, url, replies).pool.quotas[i]
                <= pool.quotas[i],
        forall|k: int|
            0 <= k < run(pool, operation, cost, url, replies).tried.len() ==> pool.eligible(
                #[trigger] run(pool, operation, cost, url, replies).tried[k],
                cost,
            ),
        run(pool, operation, cost, url, replies).tried.no_duplicates(),
        run(pool, operation, cost, url, replies).tried.len() <= replies.len() + 1,
        run(pool, operation, cost, url, replies).end is Pending ==> run(
            pool,
            operation,
            cost,
            url,
            replies,
        ).tried.len() == replies.len() + 1,
        run(pool, operation, cost, url, replies).end == (End::Failed {
            error: DispatchError::KeysExhausted { operation },
        }) ==> run(pool, operation, cost, url, replies).pool.selection(cost) is None,
    decreases replies.len(),
{
    lemma_selection(pool, cost);
    match pool.selection(cost) {
        None => {},
        Some(i) => {
            let charged = pool.charge(i, cost);
            let key = pool.keys[i];
            assert(pool.eligible(i, cost));
            assert(charged.wf());
            if url(key) is Some && replies.len() > 0 {
                let after = settled(charged, key, replies[0]);
                lemma_expire(charged, key);
                if judge(charged, key, replies[0]) is Retry {
                    assert(charged.keys.index_of(key) == i);
                    assert(after.quotas[i] == 0);
                    let rest = run(after, operation, cost, url, replies.drop_first());
                    lemma_run(after, operation, cost, url, replies.drop_first());
                    let all = run(pool, operation, cost, url, replies);
                    assert(all.tried == seq![i] + rest.tried);
                    assert forall|k: int| 0 <= k < all.tried.len() implies pool.eligible(
                        #[trigger] all.tried[k],
                        cost,
                    ) by {
                        if k > 0 {
                            assert(all.tried[k] == rest.tried[k - 1]);
                            assert(after.eligible(rest.tried[k - 1], cost));
                        }
                    }
                    assert forall|a: int, b: int|
                        0 <= a < all.tried.len() && 0 <= b < all.tried.len() && a
                            != b implies all.tried[a] != all.tried[b] by {
                        if a > 0 {
                            assert(all.tried[a] == rest.tried[a - 1]);
                            assert(after.eligible(rest.tried[a - 1], cost));
                        }
                        if b > 0 {
                            assert(all.tried[b] == rest.tried[b - 1]);
                            assert(after.eligible(rest.tried[b - 1], cost));
                        }
                    }
                    assert forall|j: int| 0 <= j < pool.len() implies #[trigger] all.pool.quotas[j]
                        <= pool.quotas[j] by {
                        assert(rest.pool.quotas[j] <= after.quotas[j]);
                        assert(after.quotas[j] <= charged.quotas[j]);
                    }
                }
            }
        },
    }
}

/// Retries are bounded: a call with a positive cost makes at most one
/// attempt per key of the pool, each with another key, so with as many
/// replies as the pool has keys it has come to its end.
pub proof fn law_retry_is_bounded(
    pool: Pool,
    operation: Operation,
    cost: nat,
    url: spec_fn(Seq<char>) -> Option<Seq<char>>,
    replies: Seq<Reply>,
)
    requires
        pool.wf(),
        cost > 0,
    ensures
        run(pool, operation, cost, url, replies).tried.no_duplicates(),
        run(pool, operation, cost, url, replies).tried.len() <= pool.len(),
        replies.len() >= pool.len() ==> !(run(pool, operation, cost, url, replies).end is Pending),
{
    lemma_run(pool, operation, cost, url, replies);
    let tried = run(pool, operation, cost, url, replies).tried;
    tried.unique_seq_to_set();
    lemma_int_range(0, pool.len() as int);
    assert(tried.to_set().subset_of(set_int_range(0, pool.len() as int))) by {
        assert forall|i: int| tried.to_set().contains(i) implies set_int_range(
            0,
            pool.len() as int,
        ).contains(i) by {
            let k = choose|k: int| 0 <= k < tried.len() && tried[k] == i;
            assert(pool.eligible(tried[k], cost));
        }
    }
    lemma_len_subset(tried.to_set(), set_int_range(0, pool.len() as int));
}

/// Failover: where the upstream refuses the key of the first attempt, that
/// key's budget is 0 afterwards, every later attempt is paid by another
/// key, and the call ends as the call ends that starts without that key
/// and hears the remaining replies: the caller sees nothing of the refusal.
pub proof fn law_refused_key_is_replaced(
    pool: Pool,
    operation: Operation,
    cost: nat,
    url: spec_fn(Seq<char>) -> Option<Seq<char>>,
    replies: Seq<Reply>,
)
    requires
        pool.wf(),
        cost > 0,
        pool.selection(cost) is Some,
        url(pool.keys[pool.selection(cost)->0]) is Some,
        replies.len() > 0,
        replies[0] == (Reply::Status { code: QUOTA_EXHAUSTED }),
    ensures
        ({
            let first = pool.selection(cost)->0;
            let whole = run(pool, operation, cost, url, replies);
            let without = pool.charge(first, cost).expire(pool.keys[first]);
            let retried = run(without, operation, cost, url, replies.drop_first());
            &&& without.quotas[first] == 0
            &&& whole.tried == seq![first] + retried.tried
            &&& whole.end == retried.end
            &&& whole.pool == retried.pool
            &&& whole.pool.quotas[first] == 0
            &&& forall|k: int| 1 <= k < whole.tried.len() ==> #[trigger] whole.tried[k] != first
        }),
{
    let first = pool.selection(cost)->0;
    let whole = run(pool, operation, cost, url, replies);
    let charged = pool.charge(first, cost);
    let without = charged.expire(pool.keys[first]);
    lemma_selection(pool, cost);
    assert(charged.wf());
    lemma_expire(charged, pool.keys[first]);
    assert(charged.keys.index_of(pool.keys[first]) == first);
    lemma_run(pool, operation, cost, url, replies);
    lemma_run(without, operation, cost, url, replies.drop_first());
    assert forall|k: int| 1 <= k < whole.tried.len() implies #[trigger] whole.tried[k] != first by {
        assert(whole.tried[0] == first);
    }
}

/// Exhaustion: where the upstream refuses every key, a call that gets as
/// many replies as the pool has keys ends with `KeysExhausted`, and no key
/// is left that could pay.
pub proof fn law_all_keys_refused(
    pool: Pool,
    operation: Operation,
    cost: nat,
    url: spec_fn(Seq<char>) -> Option<Seq<char>>,
    replies: Seq<Reply>,
)
    requires
        pool.wf(),
        cost > 0,
        forall|i: int| 0 <= i < pool.len() ==> url(#[trigger] pool.keys[i]) is Some,
        forall|k: int|
            0 <= k < replies.len() ==> #[trigger] replies[k] == (Reply::Status {
                code: QUOTA_EXHAUSTED,
            }),
        replies.len() >= pool.len(),
    ensures
        run(pool, operation, cost, url, replies).end == (End::Failed {
            error: DispatchError::KeysExhausted { operation },
        }),
        forall|i: int|
            0 <= i < pool.len() ==> #[trigger] run(pool, operation, cost, url, replies).pool.quotas[i]
                < cost,
{
    lemma_refusals(pool, operation, cost, url, replies);
    law_retry_is_bounded(pool, operation, cost, url, replies);
    lemma_run(pool, operation, cost, url, replies);
    lemma_selection(run(pool, operation, cost, url, replies).pool, cost);
}

/// A call that hears nothing but refusals waits or has run out of keys.
proof fn lemma_refusals(
    pool: Pool,
    operation: Operation,
    cost: nat,
    url: spec_fn(Seq<char>) -> Option<Seq<char>>,
    replies: Seq<Reply>,
)
    requires
        pool.wf(),
        forall|i: int| 0 <= i < pool.len() ==> url(#[trigger] pool.keys[i]) is Some,
        forall|k: int|
            0 <= k < replies.len() ==> #[trigger] replies[k] == (Reply::Status {
                code: QUOTA_EXHAUSTED,
            }),
    ensures
        run(pool, operation, cost, url, replies).end is Pending || run(
            pool,
            operation,
            cost,
            url,
            replies,
        ).end == (End::Failed { error: DispatchError::KeysExhausted { operation } }),
    decreases replies.len(),
{
    lemma_selection(pool, cost);
    match pool.selection(cost) {
        None => {},
        Some(i) => {
            if replies.len() > 0 {
                let charged = pool.charge(i, cost);
                lemma_expire(charged, pool.keys[i]);
                let after = settled(charged, pool.keys[i], replies[0]);
                assert forall|k: int| 0 <= k < replies.drop_first().len() implies #[trigger] replies.drop_first()[k]
                    == (Reply::Status { code: QUOTA_EXHAUSTED }) by {
                    assert(replies.drop_first()[k] == replies[k + 1]);
                }
                lemma_refusals(after, operation, cost, url, replies.drop_first());
            }
        },
    }
}

} // verus!
