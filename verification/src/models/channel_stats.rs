use crate::models::youtube::parts::stats::Stats;
use vstd::prelude::*;
use vstd::std_specs::convert::FromSpecImpl;

verus! {

#[derive(Debug)]
pub struct ChannelStats {
    pub youtube_video_count: u64,
}

impl From<Stats> for ChannelStats {
    fn from(stats: Stats) -> (channel_stats: Self) {
        ChannelStats { youtube_video_count: stats.get_video_count() }
    }
}

impl FromSpecImpl<Stats> for ChannelStats {
    open spec fn obeys_from_spec() -> bool {
        true
    }

    open spec fn from_spec(stats: Stats) -> Self {
        ChannelStats { youtube_video_count: stats.count() }
    }
}

} // verus!
