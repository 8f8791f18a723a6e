use crate::endpoints::single::RouteError;
use crate::models::channel::Channel;
use crate::models::video::Video;
use crate::text::optional_text;
use vstd::prelude::*;

verus! {

/// The listing of all videos of a playlist, page by page: the videos
/// gathered so far and the token of the page to ask for next.
pub struct PlaylistVideos {
    id: String,
    page_token: Option<String>,
    results: Vec<Video>,
}

impl PlaylistVideos {
    /// The playlist.
    pub closed spec fn id(&self) -> Seq<char> {
        self.id@
    }

    /// The token of the page to ask for next; none before the first page
    /// and after the last.
    pub closed spec fn page_token(&self) -> Option<Seq<char>> {
        optional_text(self.page_token)
    }

    /// The videos gathered so far, in the order of the pages.
    pub closed spec fn results(&self) -> Seq<Video> {
        self.results@
    }

    /// A listing that has asked for nothing yet.
    pub fn new(id: String) -> (listing: PlaylistVideos)
        ensures
            listing.id() == id@,
            listing.page_token() is None,
            listing.results() == Seq::<Video>::empty(),
    {
        PlaylistVideos { id, page_token: None, results: Vec::new() }
    }

    /// What to ask for next: the playlist and the page token.
    pub fn next_page(&self) -> (page: (String, Option<String>))
        ensures
            page.0@ == self.id(),
            optional_text(page.1) == self.page_token(),
    {
        let token = match &self.page_token {
            Some(token) => Some(token.clone()),
            None => None,
        };
        (self.id.clone(), token)
    }

    /// Takes what the request for the next page brought. A page puts its
    /// videos behind those gathered so far; with a token it leads to the
    /// next page, without one it ends the listing with all videos. A page
    /// that failed ends the listing with its error, and nothing of what
    /// was gathered is served.
    pub fn accept<E>(self, page: Result<(Vec<Video>, Option<String>), E>) -> (step: Listing<E>)
        ensures
            match page {
                Err(error) => step == (Listing::Failed { error }),
                Ok((videos, Some(token))) => step matches Listing::More { listing }
                    && listing.id() == self.id() && listing.results() == self.results() + videos@
                    && listing.page_token() == Some(token@),
                Ok((videos, None)) => step matches Listing::Done { videos: all } && all@
                    == self.results() + videos@,
            },
    {
        let (mut videos, next_page_token) = match page {
            Ok(page) => page,
            Err(error) => {
                return Listing::Failed { error };
            },
        };
        let mut results = self.results;
        results.append(&mut videos);
        match next_page_token {
            Some(token) => Listing::More {
                listing: PlaylistVideos { id: self.id, page_token: Some(token), results },
            },
            None => Listing::Done { videos: results },
        }
    }
}

/// How a listing stands after a page.
pub enum Listing<E> {
    /// There is a further page to ask for.
    More { listing: PlaylistVideos },
    /// The last page is in: these are all videos of the playlist.
    Done { videos: Vec<Video> },
    /// A page failed.
    Failed { error: E },
}

/// The playlist that holds the uploads of a channel that was looked up:
/// "not found" where the upstream knows no such channel, and a server
/// error where the channel names no such playlist.
pub fn uploads_of(channel_result: Option<Channel>) -> (playlist_id: Result<String, RouteError>)
    ensures
        match channel_result {
            None => playlist_id == Err::<String, RouteError>(RouteError::NotFound),
            Some(channel) => match channel.upload_playlist_id {
                Some(id) => playlist_id == Ok::<String, RouteError>(id),
                None => playlist_id == Err::<String, RouteError>(RouteError::InternalServerError),
            },
        },
{
    match channel_result {
        None => Err(RouteError::NotFound),
        Some(channel) => match channel.get_all_videos_playlist_id() {
            Some(id) => Ok(id),
            None => Err(RouteError::InternalServerError),
        },
    }
}

} // verus!
