//! Calendar timestamps as plain values, rendered in the ISO 8601 second
//! format the remote service expects: `YYYY-MM-DDTHH:MM:SSZ`.

use vstd::prelude::*;

use crate::text::{pad_to_string, spec_pad};

verus! {

/// One UTC timestamp, to second precision.
#[derive(Debug, Clone, Copy, PartialEq, Eq)]
pub struct Timestamp {
    pub year: u16,
    pub month: u8,
    pub day: u8,
    pub hour: u8,
    pub minute: u8,
    pub second: u8,
}

impl Timestamp {
    /// The fields form a calendar time: a four-digit year, a real month,
    /// a day a month can have, and a time of day.
    pub open spec fn wf(&self) -> bool {
        self.year <= 9999 && 1 <= self.month <= 12 && 1 <= self.day <= 31 && self.hour <= 23
            && self.minute <= 59 && self.second <= 59
    }

    /// The ISO 8601 second-precision rendering, nanoseconds stripped.
    pub open spec fn spec_render(&self) -> Seq<char> {
        spec_pad(self.year as nat, 4) + "-"@ + spec_pad(self.month as nat, 2) + "-"@ + spec_pad(
            self.day as nat,
            2,
        ) + "T"@ + spec_pad(self.hour as nat, 2) + ":"@ + spec_pad(self.minute as nat, 2) + ":"@
            + spec_pad(self.second as nat, 2) + "Z"@
    }

    /// A timestamp from its calendar fields.
    pub fn new(year: u16, month: u8, day: u8, hour: u8, minute: u8, second: u8) -> (r: Timestamp)
        requires
            year <= 9999,
            1 <= month <= 12,
            1 <= day <= 31,
            hour <= 23,
            minute <= 59,
            second <= 59,
        ensures
            r == (Timestamp { year, month, day, hour, minute, second }),
            r.wf(),
    {
        Timestamp { year, month, day, hour, minute, second }
    }

    /// Renders the timestamp as `YYYY-MM-DDTHH:MM:SSZ`.
    pub fn render(&self) -> (r: String)
        ensures
            r@ == self.spec_render(),
    {
        let r = pad_to_string(self.year as u32, 4).concat("-").concat(
            pad_to_string(self.month as u32, 2).as_str(),
        ).concat("-").concat(pad_to_string(self.day as u32, 2).as_str()).concat("T").concat(
            pad_to_string(self.hour as u32, 2).as_str(),
        ).concat(":").concat(pad_to_string(self.minute as u32, 2).as_str()).concat(":").concat(
            pad_to_string(self.second as u32, 2).as_str(),
        ).concat("Z");
        proof {
            assert(r@ =~= self.spec_render());
        }
        r
    }
}

} // verus!
