use vstd::prelude::*;

verus! {

/// The upstream's name for the kind of a resource.
#[derive(Debug)]
pub struct Kind(pub String);

impl Kind {
    pub open spec fn names_channel(&self) -> bool {
        self.0@ == "youtube#channel"@
    }

    pub open spec fn names_video(&self) -> bool {
        self.0@ == "youtube#video"@
    }

    pub open spec fn names_playlist(&self) -> bool {
        self.0@ == "youtube#playlist"@
    }

    pub fn is_channel(&self) -> (is: bool)
        ensures
            is == self.names_channel(),
    {
        *self.0.as_str() == *"youtube#channel"
    }

    pub fn is_video(&self) -> (is: bool)
        ensures
            is == self.names_video(),
    {
        *self.0.as_str() == *"youtube#video"
    }

    pub fn is_playlist(&self) -> (is: bool)
        ensures
            is == self.names_playlist(),
    {
        *self.0.as_str() == *"youtube#playlist"
    }
}

} // verus!
