//! The operations that the routes are made of: each starts an upstream
//! call with the parameters of its kind, and each has a function that
//! turns what the upstream answered into the entities that the proxy
//! serves.

use crate::key_manager::{KeyManager, Pool};
use crate::models::channel::Channel;
use crate::models::content_type::ContentType;
use crate::models::playlist::Playlist;
use crate::models::video::Video;
use crate::models::youtube::items::list_item::ListItem;
use crate::models::youtube::items::playlist_item::PlaylistItem;
use crate::models::youtube::items::search_item::SearchItem;
use crate::text::optional_text;
use crate::youtube_client::{
    playlist_page_attempt, search_attempt, settled, single_attempt, judge, DispatchError, Reply,
    UpstreamRequest, Verdict, YoutubeClient, COST_PLAYLIST_PAGE, COST_SEARCH, COST_SINGLE,
};
use std::collections::BTreeMap;
use vstd::prelude::*;

verus! {

/// Seconds after which a connection attempt, and a whole request, is given
/// up.
pub const TIMEOUT: u64 = 120;

/// The client, behind the operations of the routes.
pub struct YoutubeManager {
    client: YoutubeClient,
}

/// The items of `list` from the last to the first.
fn reversed<T>(list: Vec<T>) -> (turned: Vec<T>)
    ensures
        turned@ == list@.reverse(),
{
    let mut list = list;
    let ghost whole = list@;
    let mut turned: Vec<T> = Vec::new();
    while list.len() > 0
        invariant
            list.len() + turned.len() == whole.len(),
            list@ == whole.take(list.len() as int),
            forall|i: int| 0 <= i < turned.len() ==> turned[i] == whole[whole.len() - 1 - i],
        decreases list.len(),
    {
        let item = list.pop().unwrap();
        turned.push(item);
    }
    assert(turned@ =~= whole.reverse());
    turned
}

/// The parameters of the listing of a playlist's videos from the page that
/// `page_token` names; from the first page without a token.
pub open spec fn playlist_videos_params(id: Seq<char>, page_token: Option<Seq<char>>) -> Seq<
    (Seq<char>, Seq<char>),
> {
    match page_token {
        Some(token) => seq![("playlistId"@, id), ("pageToken"@, token)],
        None => seq![("playlistId"@, id)],
    }
}

impl YoutubeManager {
    /// The key pool.
    pub closed spec fn pool(&self) -> Pool {
        self.client.pool()
    }

    /// The address under which the upstream's lists stand.
    pub closed spec fn base(&self) -> Seq<char> {
        self.client.base()
    }

    /// The pool is well-formed, as every pool is.
    pub open spec fn wf(&self) -> bool {
        self.pool().wf()
    }

    pub fn new(key_manager: KeyManager, base_url: String) -> (manager: YoutubeManager)
        ensures
            manager.wf(),
            manager.pool() == key_manager@,
            manager.base() == base_url@,
    {
        YoutubeManager { client: YoutubeClient::new(key_manager, base_url) }
    }

    /// The remaining budget of every key, by its position in the pool.
    pub fn get_key_status(&self) -> (status: BTreeMap<usize, usize>)
        ensures
            self.wf(),
            status@ == self.pool().status(),
    {
        self.client.get_key_status()
    }

    /// Gives every key its default budget again.
    pub fn reset_key_status(&mut self)
        ensures
            final(self).wf(),
            final(self).pool() == old(self).pool().reset(),
            final(self).base() == old(self).base(),
    {
        self.client.reset_key_status();
    }

    /// Takes the reply to `request`, as `YoutubeClient::settle` does.
    pub fn settle(&mut self, request: &UpstreamRequest, reply: Reply) -> (verdict: Verdict)
        ensures
            final(self).wf(),
            verdict == judge(old(self).pool(), request.key@, reply),
            final(self).pool() == settled(old(self).pool(), request.key@, reply),
            final(self).base() == old(self).base(),
    {
        self.client.settle(request, reply)
    }

    /// Starts the lookup of a video.
    pub fn single_video(&mut self, video_id: String) -> (request: Result<
        UpstreamRequest,
        DispatchError,
    >)
        ensures
            final(self).wf(),
            final(self).pool() == old(self).pool().reserve(COST_SINGLE as nat),
            final(self).base() == old(self).base(),
            UpstreamRequest::outcome(request) == single_attempt(
                old(self).pool(),
                old(self).base(),
                ContentType::VIDEO,
                video_id@,
            ),
    {
        self.client.single(ContentType::VIDEO, video_id)
    }

    /// Starts the lookup of a channel.
    pub fn single_channel(&mut self, channel_id: String) -> (request: Result<
        UpstreamRequest,
        DispatchError,
    >)
        ensures
            final(self).wf(),
            final(self).pool() == old(self).pool().reserve(COST_SINGLE as nat),
            final(self).base() == old(self).base(),
            UpstreamRequest::outcome(request) == single_attempt(
                old(self).pool(),
                old(self).base(),
                ContentType::CHANNEL,
                channel_id@,
            ),
    {
        self.client.single(ContentType::CHANNEL, channel_id)
    }

    /// Starts the lookup of a playlist.
    pub fn single_playlist(&mut self, playlist_id: String) -> (request: Result<
        UpstreamRequest,
        DispatchError,
    >)
        ensures
            final(self).wf(),
            final(self).pool() == old(self).pool().reserve(COST_SINGLE as nat),
            final(self).base() == old(self).base(),
            UpstreamRequest::outcome(request) == single_attempt(
                old(self).pool(),
                old(self).base(),
                ContentType::PLAYLIST,
                playlist_id@,
            ),
    {
        self.client.single(ContentType::PLAYLIST, playlist_id)
    }

    /// Starts a search with one parameter.
    fn search_by(&mut self, content_type: ContentType, name: &'static str, value: String) -> (request:
        Result<UpstreamRequest, DispatchError>)
        ensures
            final(self).wf(),
            final(self).pool() == old(self).pool().reserve(COST_SEARCH as nat),
            final(self).base() == old(self).base(),
            UpstreamRequest::outcome(request) == search_attempt(
                old(self).pool(),
                old(self).base(),
                content_type,
                seq![(name@, value@)],
            ),
    {
        let mut search_params: Vec<(&'static str, String)> = Vec::new();
        search_params.push((name, value));
        assert(search_params.deep_view() =~= seq![(name@, value@)]);
        self.client.search(content_type, search_params)
    }

    /// Starts the search for the channels that match `search_query`.
    pub fn search_channel(&mut self, search_query: String) -> (request: Result<
        UpstreamRequest,
        DispatchError,
    >)
        ensures
            final(self).wf(),
            final(self).pool() == old(self).pool().reserve(COST_SEARCH as nat),
            final(self).base() == old(self).base(),
            UpstreamRequest::outcome(request) == search_attempt(
                old(self).pool(),
                old(self).base(),
                ContentType::CHANNEL,
                seq![("q"@, search_query@)],
            ),
    {
        self.search_by(ContentType::CHANNEL, "q", search_query)
    }

    /// Starts the search for the videos that match `search_query`.
    pub fn search_video(&mut self, search_query: String) -> (request: Result<
        UpstreamRequest,
        DispatchError,
    >)
        ensures
            final(self).wf(),
            final(self).pool() == old(self).pool().reserve(COST_SEARCH as nat),
            final(self).base() == old(self).base(),
            UpstreamRequest::outcome(request) == search_attempt(
                old(self).pool(),
                old(self).base(),
                ContentType::VIDEO,
                seq![("q"@, search_query@)],
            ),
    {
        self.search_by(ContentType::VIDEO, "q", search_query)
    }

    /// Starts the search for the playlists that match `search_query`.
    pub fn search_playlist(&mut self, search_query: String) -> (request: Result<
        UpstreamRequest,
        DispatchError,
    >)
        ensures
            final(self).wf(),
            final(self).pool() == old(self).pool().reserve(COST_SEARCH as nat),
            final(self).base() == old(self).base(),
            UpstreamRequest::outcome(request) == search_attempt(
                old(self).pool(),
                old(self).base(),
                ContentType::PLAYLIST,
                seq![("q"@, search_query@)],
            ),
    {
        self.search_by(ContentType::PLAYLIST, "q", search_query)
    }

    /// Starts the search for the latest videos of the channel `id`.
    pub fn list_latest_videos_for_channel(&mut self, id: String) -> (request: Result<
        UpstreamRequest,
        DispatchError,
    >)
        ensures
            final(self).wf(),
            final(self).pool() == old(self).pool().reserve(COST_SEARCH as nat),
            final(self).base() == old(self).base(),
            UpstreamRequest::outcome(request) == search_attempt(
                old(self).pool(),
                old(self).base(),
                ContentType::VIDEO,
                seq![("channelId"@, id@)],
            ),
    {
        self.search_by(ContentType::VIDEO, "channelId", id)
    }

    /// Starts the listing of one page of the videos of the playlist `id`:
    /// the page that `page_token` names, or the first.
    pub fn list_videos_for_playlist(&mut self, id: String, page_token: Option<String>) -> (request:
        Result<UpstreamRequest, DispatchError>)
        ensures
            final(self).wf(),
            final(self).pool() == old(self).pool().reserve(COST_PLAYLIST_PAGE as nat),
            final(self).base() == old(self).base(),
            UpstreamRequest::outcome(request) == playlist_page_attempt(
                old(self).pool(),
                old(self).base(),
                playlist_videos_params(id@, optional_text(page_token)),
            ),
    {
        let mut search_params: Vec<(&'static str, String)> = Vec::new();
        let ghost name = id@;
        search_params.push(("playlistId", id));
        if let Some(token) = page_token {
            search_params.push(("pageToken", token));
        }
        assert(search_params.deep_view() =~= playlist_videos_params(
            name,
            optional_text(page_token),
        ));
        self.client.playlist_page(search_params)
    }

    /// The video of a lookup: none where the upstream knows none, and
    /// `Decode` where what it sent is no video.
    pub fn video_of(item: Option<ListItem>) -> (video: Result<Option<Video>, DispatchError>)
        ensures
            match item {
                None => video == Ok::<Option<Video>, DispatchError>(None),
                Some(item) => match item.as_video() {
                    Ok(view) => video matches Ok(Some(v)) && v@ == view,
                    Err(_) => video == Err::<Option<Video>, DispatchError>(DispatchError::Decode),
                },
            },
    {
        match item {
            None => Ok(None),
            Some(item) => match item.into_video() {
                Ok(video) => Ok(Some(video)),
                Err(_) => Err(DispatchError::Decode),
            },
        }
    }

    /// The channel of a lookup: none where the upstream knows none, and
    /// `Decode` where what it sent is no channel.
    pub fn channel_of(item: Option<ListItem>) -> (channel: Result<Option<Channel>, DispatchError>)
        ensures
            match item {
                None => channel == Ok::<Option<Channel>, DispatchError>(None),
                Some(item) => match item.as_channel() {
                    Ok(view) => channel matches Ok(Some(c)) && c@ == view,
                    Err(_) => channel == Err::<Option<Channel>, DispatchError>(
                        DispatchError::Decode,
                    ),
                },
            },
    {
        match item {
            None => Ok(None),
            Some(item) => match item.into_channel() {
                Ok(channel) => Ok(Some(channel)),
                Err(_) => Err(DispatchError::Decode),
            },
        }
    }

    /// The playlist of a lookup: none where the upstream knows none, and
    /// `Decode` where what it sent is no playlist.
    pub fn playlist_of(item: Option<ListItem>) -> (playlist: Result<
        Option<Playlist>,
        DispatchError,
    >)
        ensures
            match item {
                None => playlist == Ok::<Option<Playlist>, DispatchError>(None),
                Some(item) => match item.as_playlist() {
                    Ok(view) => playlist matches Ok(Some(p)) && p@ == view,
                    Err(_) => playlist == Err::<Option<Playlist>, DispatchError>(
                        DispatchError::Decode,
                    ),
                },
            },
    {
        match item {
            None => Ok(None),
            Some(item) => match item.into_playlist() {
                Ok(playlist) => Ok(Some(playlist)),
                Err(_) => Err(DispatchError::Decode),
            },
        }
    }

    /// The channels of a search result, in its order; `Decode` where an
    /// item is no channel.
    pub fn channels_of(items: Vec<SearchItem>) -> (channels: Result<Vec<Channel>, DispatchError>)
        ensures
            match channels {
                Ok(list) => list.len() == items.len() && forall|i: int|
                    0 <= i < items.len() ==> (#[trigger] items[i]).as_channel() == Ok::<
                        _,
                        crate::models::youtube::ConversionError,
                    >(list[i]@),
                Err(error) => error == DispatchError::Decode && exists|i: int|
                    0 <= i < items.len() && (#[trigger] items[i]).as_channel() is Err,
            },
    {
        let ghost whole = items@;
        let mut rest = reversed(items);
        let mut list: Vec<Channel> = Vec::new();
        while rest.len() > 0
            invariant
                whole == items@,
                rest.len() + list.len() == whole.len(),
                rest@ == whole.reverse().take(rest.len() as int),
                forall|i: int|
                    0 <= i < list.len() ==> (#[trigger] whole[i]).as_channel() == Ok::<
                        _,
                        crate::models::youtube::ConversionError,
                    >(list[i]@),
            decreases rest.len(),
        {
            let item = rest.pop().unwrap();
            assert(item == whole[list.len() as int]);
            match item.into_channel() {
                Ok(channel) => {
                    list.push(channel);
                },
                Err(_) => {
                    return Err(DispatchError::Decode);
                },
            }
        }
        Ok(list)
    }

    /// The videos of a search result, in its order; `Decode` where an item
    /// is no video.
    pub fn videos_of(items: Vec<SearchItem>) -> (videos: Result<Vec<Video>, DispatchError>)
        ensures
            match videos {
                Ok(list) => list.len() == items.len() && forall|i: int|
                    0 <= i < items.len() ==> (#[trigger] items[i]).as_video() == Ok::<
                        _,
                        crate::models::youtube::ConversionError,
                    >(list[i]@),
                Err(error) => error == DispatchError::Decode && exists|i: int|
                    0 <= i < items.len() && (#[trigger] items[i]).as_video() is Err,
            },
    {
        let ghost whole = items@;
        let mut rest = reversed(items);
        let mut list: Vec<Video> = Vec::new();
        while rest.len() > 0
            invariant
                whole == items@,
                rest.len() + list.len() == whole.len(),
                rest@ == whole.reverse().take(rest.len() as int),
                forall|i: int|
                    0 <= i < list.len() ==> (#[trigger] whole[i]).as_video() == Ok::<
                        _,
                        crate::models::youtube::ConversionError,
                    >(list[i]@),
            decreases rest.len(),
        {
            let item = rest.pop().unwrap();
            assert(item == whole[list.len() as int]);
            match item.into_video() {
                Ok(video) => {
                    list.push(video);
                },
                Err(_) => {
                    return Err(DispatchError::Decode);
                },
            }
        }
        Ok(list)
    }

    /// The playlists of a search result, in its order; `Decode` where an
    /// item is no playlist.
    pub fn playlists_of(items: Vec<SearchItem>) -> (playlists: Result<Vec<Playlist>, DispatchError>)
        ensures
            match playlists {
                Ok(list) => list.len() == items.len() && forall|i: int|
                    0 <= i < items.len() ==> (#[trigger] items[i]).as_playlist() == Ok::<
                        _,
                        crate::models::youtube::ConversionError,
                    >(list[i]@),
                Err(error) => error == DispatchError::Decode && exists|i: int|
                    0 <= i < items.len() && (#[trigger] items[i]).as_playlist() is Err,
            },
    {
        let ghost whole = items@;
        let mut rest = reversed(items);
        let mut list: Vec<Playlist> = Vec::new();
        while rest.len() > 0
            invariant
                whole == items@,
                rest.len() + list.len() == whole.len(),
                rest@ == whole.reverse().take(rest.len() as int),
                forall|i: int|
                    0 <= i < list.len() ==> (#[trigger] whole[i]).as_playlist() == Ok::<
                        _,
                        crate::models::youtube::ConversionError,
                    >(list[i]@),
            decreases rest.len(),
        {
            let item = rest.pop().unwrap();
            assert(item == whole[list.len() as int]);
            match item.into_playlist() {
                Ok(playlist) => {
                    list.push(playlist);
                },
                Err(_) => {
                    return Err(DispatchError::Decode);
                },
            }
        }
        Ok(list)
    }

    /// The videos of a page of playlist items, in its order, with the token
    /// of the next page as it came; `Decode` where an item points to no
    /// video.
    pub fn playlist_videos_of(items: Vec<PlaylistItem>, next_page_token: Option<String>) -> (page:
        Result<(Vec<Video>, Option<String>), DispatchError>)
        ensures
            match page {
                Ok((list, token)) => token == next_page_token && list.len() == items.len()
                    && forall|i: int|
                    0 <= i < items.len() ==> (#[trigger] items[i]).as_video() == Ok::<
                        _,
                        crate::models::youtube::ConversionError,
                    >(list[i]@),
                Err(error) => error == DispatchError::Decode && exists|i: int|
                    0 <= i < items.len() && (#[trigger] items[i]).as_video() is Err,
            },
    {
        let ghost whole = items@;
        let mut rest = reversed(items);
        let mut list: Vec<Video> = Vec::new();
        while rest.len() > 0
            invariant
                whole == items@,
                rest.len() + list.len() == whole.len(),
                rest@ == whole.reverse().take(rest.len() as int),
                forall|i: int|
                    0 <= i < list.len() ==> (#[trigger] whole[i]).as_video() == Ok::<
                        _,
                        crate::models::youtube::ConversionError,
                    >(list[i]@),
            decreases rest.len(),
        {
            let item = rest.pop().unwrap();
            assert(item == whole[list.len() as int]);
            match item.into_video() {
                Ok(video) => {
                    list.push(video);
                },
                Err(_) => {
                    return Err(DispatchError::Decode);
                },
            }
        }
        Ok((list, next_page_token))
    }
}

} // verus!
