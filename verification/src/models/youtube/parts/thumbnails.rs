use vstd::prelude::*;

verus! {

#[derive(Debug)]
pub struct Thumbnails {
    pub high: Option<Thumbnail>,
    pub medium: Option<Thumbnail>,
    pub default: Thumbnail,
}

#[derive(Debug)]
pub struct Thumbnail {
    pub url: String,
}

impl Thumbnails {
    /// Thumbnails with an empty default address and nothing else.
    pub fn empty() -> (thumbnails: Thumbnails)
        ensures
            thumbnails.high is None,
            thumbnails.medium is None,
            thumbnails.default.url@ == Seq::<char>::empty(),
    {
        Thumbnails { default: Thumbnail { url: String::new() }, medium: None, high: None }
    }

    /// The best thumbnail there is: high before medium before default.
    pub open spec fn best(&self) -> Thumbnail {
        match (self.high, self.medium) {
            (Some(high), _) => high,
            (None, Some(medium)) => medium,
            (None, None) => self.default,
        }
    }

    /// The address of the best thumbnail.
    pub fn get_url(&self) -> (url: String)
        ensures
            url == self.best().url,
    {
        if let Some(high) = &self.high {
            high.url.clone()
        } else if let Some(med) = &self.medium {
            med.url.clone()
        } else {
            self.default.url.clone()
        }
    }
}

} // verus!
