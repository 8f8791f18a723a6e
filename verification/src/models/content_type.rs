//! The three kinds of content that the upstream knows.

use vstd::prelude::*;

verus! {

#[allow(non_camel_case_types)]
#[derive(Clone, Copy, Debug, PartialEq, Eq, Structural)]
pub enum ContentType {
    CHANNEL,
    VIDEO,
    PLAYLIST,
}

/// A word that names no content type.
#[derive(Debug)]
pub struct InvalidType {
    pub value: String,
}

impl ContentType {
    /// The content type that `value` names.
    pub open spec fn named(value: Seq<char>) -> Option<ContentType> {
        if value == "channel"@ {
            Some(ContentType::CHANNEL)
        } else if value == "video"@ {
            Some(ContentType::VIDEO)
        } else if value == "playlist"@ {
            Some(ContentType::PLAYLIST)
        } else {
            None
        }
    }

    /// Reads a content type from its lower-case name.
    pub fn from_string(value: &str) -> (parsed: Result<ContentType, InvalidType>)
        ensures
            match parsed {
                Ok(content_type) => Self::named(value@) == Some(content_type),
                Err(error) => Self::named(value@) is None && error.value@ == value@,
            },
    {
        if *value == *"channel" {
            Ok(ContentType::CHANNEL)
        } else if *value == *"video" {
            Ok(ContentType::VIDEO)
        } else if *value == *"playlist" {
            Ok(ContentType::PLAYLIST)
        } else {
            Err(InvalidType { value: value.to_owned() })
        }
    }
}

} // verus!
