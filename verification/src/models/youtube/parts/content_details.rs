use vstd::prelude::*;

verus! {

#[derive(Debug)]
pub struct ContentDetails {
    pub related_playlists: RelatedPlaylists,
}

#[derive(Debug)]
pub struct RelatedPlaylists {
    pub uploads: String,
}

impl ContentDetails {
    pub fn get_upload_playlist_id(&self) -> (id: Option<String>)
        ensures
            id == Some(self.related_playlists.uploads),
    {
        Some(self.related_playlists.uploads.clone())
    }
}

} // verus!
