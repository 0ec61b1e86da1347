//! Reports over a time range, grouped by category.

use vstd::prelude::*;

pub mod conversations;
pub mod productivity;
pub mod user;

use crate::date_format::Timestamp;

use self::conversations::ConversationsReportBuilder;
use self::productivity::ProductivityReportBuilder;
use self::user::UserReportBuilder;

verus! {

/// The time range every report starts from.
#[derive(Debug, Clone, Copy, PartialEq, Eq)]
pub struct ReportBuilder {
    pub start: Timestamp,
    pub end: Timestamp,
}

impl ReportBuilder {
    /// A report over the given time range.
    pub fn new(start: Timestamp, end: Timestamp) -> (r: ReportBuilder)
        ensures
            r.start == start,
            r.end == end,
    {
        ReportBuilder { start, end }
    }

    /// Narrows to the conversations reports.
    pub fn conversations(self) -> (r: ConversationsReportBuilder)
        ensures
            r == ConversationsReportBuilder::spec_from_range(self.start, self.end),
    {
        ConversationsReportBuilder::from(self)
    }

    /// Narrows to the productivity reports.
    pub fn productivity(self) -> (r: ProductivityReportBuilder)
        ensures
            r == ProductivityReportBuilder::spec_from_range(self.start, self.end),
    {
        ProductivityReportBuilder::from(self)
    }

    /// Narrows to the per-user reports.
    pub fn user(self) -> (r: UserReportBuilder)
        ensures
            r == UserReportBuilder::spec_from_range(self.start, self.end),
    {
        UserReportBuilder::from(self)
    }
}

/// One tag available for report filtering.
#[derive(Debug, Clone, PartialEq, Eq)]
pub struct FilterTag {
    pub id: i32,
    pub name: String,
}

} // verus!
