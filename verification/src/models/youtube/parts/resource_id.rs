use crate::models::youtube::parts::kind::Kind;
use vstd::prelude::*;

verus! {

#[derive(Debug)]
pub struct ResourceId {
    pub kind: Kind,
    pub video_id: String,
}

} // verus!
