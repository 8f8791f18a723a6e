use crate::text::{digits_value, parse_u64, unsigned_decimal};
use vstd::prelude::*;

verus! {

#[derive(Debug)]
pub struct Stats {
    pub video_count: String,
}

impl Default for Stats {
    /// Statistics that count no video.
    fn default() -> (stats: Self)
        ensures
            stats.video_count@ == "0"@,
            stats.count() == 0,
    {
        proof {
            reveal_strlit("0");
            reveal_with_fuel(digits_value, 2);
            assert("0"@.drop_last().len() == 0);
            assert(digits_value("0"@) == 0);
        }
        Stats { video_count: "0".to_owned() }
    }
}

impl Stats {
    /// The number that the count writes; 0 where it writes none.
    pub open spec fn count(&self) -> u64 {
        match unsigned_decimal(self.video_count@) {
            Some(count) => count,
            None => 0,
        }
    }

    pub fn get_video_count(&self) -> (count: u64)
        ensures
            count == self.count(),
    {
        match parse_u64(self.video_count.as_str()) {
            Some(count) => count,
            None => 0,
        }
    }
}

} // verus!
