//! Conversations reports: overall figures, busy times, new conversations,
//! received messages, and the drill-down listings.

use vstd::prelude::*;

use crate::api::reports::ReportBuilder;
use crate::client::{Client, HttpMethod, PreparedRequest, spec_prepared};
use crate::error::HelpScoutError;
use crate::date_format::Timestamp;
use crate::query::{opt_pair, push_param, views_of_pairs};
use crate::text::{i32_to_string, spec_idec};

verus! {

/// A count with the top entries behind it.
#[derive(Debug, Clone, PartialEq, Eq)]
pub struct TopStatistics<T> {
    pub count: i64,
    pub top: Vec<T>,
}

/// The busiest day of the range.
#[derive(Debug, Clone, PartialEq, Eq)]
pub struct BusiestDay {
    pub day: i32,
    pub hour: i32,
    pub count: i32,
}

/// Conversation volume in one day-hour cell.
#[derive(Debug, Clone, PartialEq, Eq)]
pub struct BusyTimeStatistics {
    pub day: i32,
    pub hour: i32,
    pub count: i32,
}

/// New conversations in one interval.
#[derive(Debug, Clone, PartialEq, Eq)]
pub struct NewConversationsStatistics {
    pub start: Timestamp,
    pub count: i32,
}

/// Messages received in one interval.
#[derive(Debug, Clone, PartialEq, Eq)]
pub struct ReceivedMessagesStatistics {
    pub date: Timestamp,
    pub messages: i32,
}

/// Whole-range conversation counts.
#[derive(Debug, Clone, PartialEq, Eq)]
pub struct ConversationsTimeRangeStatistics {
    pub start_date: Timestamp,
    pub end_date: Timestamp,
    pub total_conversations: i64,
    pub conversations_created: i64,
    pub new_conversations: i64,
    pub customers: i64,
    pub conversations_per_day: i64,
}

/// One conversation row of a drill-down listing.
#[derive(Debug, Clone, PartialEq, Eq)]
pub struct AbbreviatedConversationsStatistics {
    pub id: i32,
    pub number: i32,
    pub conversation_type: ConversationType,
    pub mailboxid: i32,
    pub attachments: bool,
    pub subject: String,
    pub status: ConversationStatus,
    pub thread_count: i32,
    pub preview: String,
    pub customer_name: String,
    pub customer_email: String,
    pub customer_ids: Vec<i32>,
    pub modified_at: Timestamp,
    pub waiting_since: Timestamp,
    pub waiting_since_type: i32,
    pub assignedid: i32,
    pub tags: Vec<ColorTag>,
    pub assigned_name: Option<String>,
}

/// A tag with its display color, as drill-down rows carry them.
#[derive(Debug, Clone, PartialEq, Eq)]
pub struct ColorTag {
    pub id: i32,
    pub name: String,
    pub color: String,
}

/// An earlier time range to compare the report against.
#[derive(Debug, Clone, Copy, PartialEq, Eq)]
pub struct PreviousRange {
    pub previous_start: Option<Timestamp>,
    pub previous_end: Option<Timestamp>,
}

/// The interval the per-interval reports summarize by.
#[derive(Debug, Clone, Copy, PartialEq, Eq)]
pub enum ConvReportViewByType {
    Day,
    Week,
    Month,
}

/// The value a summarize-by interval takes in a query string.
pub open spec fn spec_view_by_value(t: ConvReportViewByType) -> Seq<char> {
    match t {
        ConvReportViewByType::Day => "day"@,
        ConvReportViewByType::Week => "week"@,
        ConvReportViewByType::Month => "month"@,
    }
}

impl ConvReportViewByType {
    /// The value this interval takes in a query string.
    pub fn query_value(&self) -> (r: String)
        ensures
            r@ == spec_view_by_value(*self),
    {
        match self {
            ConvReportViewByType::Day => String::from_str("day"),
            ConvReportViewByType::Week => String::from_str("week"),
            ConvReportViewByType::Month => String::from_str("month"),
        }
    }
}

/// How a conversation reached the mailbox, as reports classify it.
#[derive(Debug, Clone, Copy, PartialEq, Eq)]
pub enum ConversationType {
    Email,
    Chat,
    Phone,
}

/// The workflow state of a conversation, as reports classify it.
#[derive(Debug, Clone, Copy, PartialEq, Eq)]
pub enum ConversationStatus {
    Active,
    Pending,
    Closed,
    Spam,
}

/// Query parameters shared by the conversations reports.
#[derive(Debug, Clone, PartialEq, Eq)]
pub struct ConversationsReportBuilder {
    pub start: Timestamp,
    pub end: Timestamp,
    pub mailboxes: Option<String>,
    pub tags: Option<String>,
    pub types: Option<String>,
    pub folders: Option<String>,
    pub page: Option<i32>,
    pub rows: Option<i32>,
    pub view_by: Option<ConvReportViewByType>,
    pub previous_start: Option<Timestamp>,
    pub previous_end: Option<Timestamp>,
}

impl ConversationsReportBuilder {
    /// The builder a bare time range opens: everything else unset.
    pub open spec fn spec_from_range(start: Timestamp, end: Timestamp)
        -> ConversationsReportBuilder {
        ConversationsReportBuilder {
            start,
            end,
            mailboxes: None,
            tags: None,
            types: None,
            folders: None,
            page: None,
            rows: None,
            view_by: None,
            previous_start: None,
            previous_end: None,
        }
    }

    /// The query pairs these parameters serialize to, in field order; the
    /// time range is always present.
    pub open spec fn spec_pairs(&self) -> Seq<(Seq<char>, Seq<char>)> {
        seq![("start"@, self.start.spec_render()), ("end"@, self.end.spec_render())] + opt_pair(
            "mailboxes"@,
            match &self.mailboxes {
                Some(v) => Some(v@),
                None => None,
            },
        ) + opt_pair(
            "tags"@,
            match &self.tags {
                Some(v) => Some(v@),
                None => None,
            },
        ) + opt_pair(
            "types"@,
            match &self.types {
                Some(v) => Some(v@),
                None => None,
            },
        ) + opt_pair(
            "folders"@,
            match &self.folders {
                Some(v) => Some(v@),
                None => None,
            },
        ) + opt_pair(
            "page"@,
            match self.page {
                Some(p) => Some(spec_idec(p as int)),
                None => None,
            },
        ) + opt_pair(
            "rows"@,
            match self.rows {
                Some(p) => Some(spec_idec(p as int)),
                None => None,
            },
        ) + opt_pair(
            "viewBy"@,
            match self.view_by {
                Some(v) => Some(spec_view_by_value(v)),
                None => None,
            },
        ) + opt_pair(
            "previousStart"@,
            match self.previous_start {
                Some(t) => Some(t.spec_render()),
                None => None,
            },
        ) + opt_pair(
            "previousEnd"@,
            match self.previous_end {
                Some(t) => Some(t.spec_render()),
                None => None,
            },
        )
    }

    /// Set the summarize-by interval.
    pub fn set_view_by(self, view_by: ConvReportViewByType) -> (r: Self)
        ensures
            r == (Self { view_by: Some(view_by), ..self }),
    {
        Self { view_by: Some(view_by), ..self }
    }

    /// Restrict to a comma-separated list of mailbox ids.
    pub fn set_mailboxes(self, mailboxes: String) -> (r: Self)
        ensures
            r == (Self { mailboxes: Some(mailboxes), ..self }),
    {
        Self { mailboxes: Some(mailboxes), ..self }
    }

    /// Restrict to a comma-separated list of tags.
    pub fn set_tags(self, tags: String) -> (r: Self)
        ensures
            r == (Self { tags: Some(tags), ..self }),
    {
        Self { tags: Some(tags), ..self }
    }

    /// Restrict to a comma-separated list of conversation types.
    pub fn set_types(self, types: String) -> (r: Self)
        ensures
            r == (Self { types: Some(types), ..self }),
    {
        Self { types: Some(types), ..self }
    }

    /// Restrict to a comma-separated list of folder ids.
    pub fn set_folders(self, folders: String) -> (r: Self)
        ensures
            r == (Self { folders: Some(folders), ..self }),
    {
        Self { folders: Some(folders), ..self }
    }

    /// Compare against an earlier time range.
    pub fn set_previous(self, previous_start: Timestamp, previous_end: Timestamp) -> (r: Self)
        ensures
            r == (Self {
                previous_start: Some(previous_start),
                previous_end: Some(previous_end),
                ..self
            }),
    {
        Self {
            previous_start: Some(previous_start),
            previous_end: Some(previous_end),
            ..self
        }
    }

    /// Set the page for the drill-down listings.
    pub fn set_page(self, page: i32) -> (r: Self)
        ensures
            r == (Self { page: Some(page), ..self }),
    {
        Self { page: Some(page), ..self }
    }

    /// Set the rows per page for the drill-down listings.
    pub fn set_rows(self, rows: i32) -> (r: Self)
        ensures
            r == (Self { rows: Some(rows), ..self }),
    {
        Self { rows: Some(rows), ..self }
    }

    /// The query pairs these parameters serialize to.
    #[verifier::rlimit(100)]
    fn query_pairs(&self) -> (r: Vec<(String, String)>)
        ensures
            views_of_pairs(r@) == self.spec_pairs(),
    {
        let mut pairs: Vec<(String, String)> = Vec::new();
        proof {
            assert(views_of_pairs(pairs@) =~= Seq::<(Seq<char>, Seq<char>)>::empty());
        }
        push_param(&mut pairs, "start", Some(self.start.render()));
        push_param(&mut pairs, "end", Some(self.end.render()));
        let mailboxes = match &self.mailboxes {
            Some(v) => Some(String::from_str(v.as_str())),
            None => None,
        };
        push_param(&mut pairs, "mailboxes", mailboxes);
        let tags = match &self.tags {
            Some(v) => Some(String::from_str(v.as_str())),
            None => None,
        };
        push_param(&mut pairs, "tags", tags);
        let types = match &self.types {
            Some(v) => Some(String::from_str(v.as_str())),
            None => None,
        };
        push_param(&mut pairs, "types", types);
        let folders = match &self.folders {
            Some(v) => Some(String::from_str(v.as_str())),
            None => None,
        };
        push_param(&mut pairs, "folders", folders);
        let ghost mid = views_of_pairs(pairs@);
        proof {
            assert(mid =~= seq![
                ("start"@, self.start.spec_render()),
                ("end"@, self.end.spec_render()),
            ] + opt_pair(
                "mailboxes"@,
                match &self.mailboxes {
                    Some(v) => Some(v@),
                    None => None,
                },
            ) + opt_pair(
                "tags"@,
                match &self.tags {
                    Some(v) => Some(v@),
                    None => None,
                },
            ) + opt_pair(
                "types"@,
                match &self.types {
                    Some(v) => Some(v@),
                    None => None,
                },
            ) + opt_pair(
                "folders"@,
                match &self.folders {
                    Some(v) => Some(v@),
                    None => None,
                },
            ));
        }
        let page = match self.page {
            Some(p) => Some(i32_to_string(p)),
            None => None,
        };
        push_param(&mut pairs, "page", page);
        let rows = match self.rows {
            Some(p) => Some(i32_to_string(p)),
            None => None,
        };
        push_param(&mut pairs, "rows", rows);
        let view_by = match &self.view_by {
            Some(v) => Some(v.query_value()),
            None => None,
        };
        push_param(&mut pairs, "viewBy", view_by);
        let previous_start = match &self.previous_start {
            Some(t) => Some(t.render()),
            None => None,
        };
        push_param(&mut pairs, "previousStart", previous_start);
        let previous_end = match &self.previous_end {
            Some(t) => Some(t.render()),
            None => None,
        };
        push_param(&mut pairs, "previousEnd", previous_end);
        proof {
            assert(views_of_pairs(pairs@) =~= mid + opt_pair(
                "page"@,
                match self.page {
                    Some(p) => Some(spec_idec(p as int)),
                    None => None,
                },
            ) + opt_pair(
                "rows"@,
                match self.rows {
                    Some(p) => Some(spec_idec(p as int)),
                    None => None,
                },
            ) + opt_pair(
                "viewBy"@,
                match self.view_by {
                    Some(v) => Some(spec_view_by_value(v)),
                    None => None,
                },
            ) + opt_pair(
                "previousStart"@,
                match self.previous_start {
                    Some(t) => Some(t.spec_render()),
                    None => None,
                },
            ) + opt_pair(
                "previousEnd"@,
                match self.previous_end {
                    Some(t) => Some(t.spec_render()),
                    None => None,
                },
            ));
            assert(views_of_pairs(pairs@) =~= self.spec_pairs());
        }
        pairs
    }

    /// Prepares the request for the overall conversations report.
    pub fn overall_request(self, client: &Client) -> (r: Result<PreparedRequest, HelpScoutError>)
        ensures
            spec_prepared(
                *client,
                HttpMethod::Get,
                "reports/conversations.json"@,
                self.spec_pairs(),
                None::<Seq<char>>,
                r,
            ),
    {
        client.get("reports/conversations.json", &self.query_pairs())
    }

    /// Prepares the request for the busy-times report.
    pub fn busy_times_request(self, client: &Client) -> (r: Result<
        PreparedRequest,
        HelpScoutError,
    >)
        ensures
            spec_prepared(
                *client,
                HttpMethod::Get,
                "reports/conversations/busy-times.json"@,
                self.spec_pairs(),
                None::<Seq<char>>,
                r,
            ),
    {
        client.get("reports/conversations/busy-times.json", &self.query_pairs())
    }

    /// Prepares the request for the new-conversations report.
    pub fn new_conversations_request(self, client: &Client) -> (r: Result<
        PreparedRequest,
        HelpScoutError,
    >)
        ensures
            spec_prepared(
                *client,
                HttpMethod::Get,
                "reports/conversations/new.json"@,
                self.spec_pairs(),
                None::<Seq<char>>,
                r,
            ),
    {
        client.get("reports/conversations/new.json", &self.query_pairs())
    }

    /// Prepares the request for the received-messages report.
    pub fn received_messages_request(self, client: &Client) -> (r: Result<
        PreparedRequest,
        HelpScoutError,
    >)
        ensures
            spec_prepared(
                *client,
                HttpMethod::Get,
                "reports/conversations/received-messages.json"@,
                self.spec_pairs(),
                None::<Seq<char>>,
                r,
            ),
    {
        client.get("reports/conversations/received-messages.json", &self.query_pairs())
    }

    /// Prepares the request for the conversations drill-down listing.
    pub fn drill_down_request(self, client: &Client) -> (r: Result<
        PreparedRequest,
        HelpScoutError,
    >)
        ensures
            spec_prepared(
                *client,
                HttpMethod::Get,
                "reports/conversations/drilldown.json"@,
                self.spec_pairs(),
                None::<Seq<char>>,
                r,
            ),
    {
        client.get("reports/conversations/drilldown.json", &self.query_pairs())
    }

    /// Prepares the request for the new-conversations drill-down listing.
    pub fn new_drill_down_request(self, client: &Client) -> (r: Result<
        PreparedRequest,
        HelpScoutError,
    >)
        ensures
            spec_prepared(
                *client,
                HttpMethod::Get,
                "reports/conversations/new-drilldown.json"@,
                self.spec_pairs(),
                None::<Seq<char>>,
                r,
            ),
    {
        client.get("reports/conversations/new-drilldown.json", &self.query_pairs())
    }
}

impl From<ReportBuilder> for ConversationsReportBuilder {
    /// Opens the conversations reports over the range's start and end.
    fn from(report: ReportBuilder) -> (r: Self) {
        ConversationsReportBuilder {
            start: report.start,
            end: report.end,
            mailboxes: None,
            tags: None,
            types: None,
            folders: None,
            page: None,
            rows: None,
            view_by: None,
            previous_start: None,
            previous_end: None,
        }
    }
}

impl vstd::std_specs::convert::FromSpecImpl<ReportBuilder> for ConversationsReportBuilder {
    open spec fn obeys_from_spec() -> bool {
        true
    }

    open spec fn from_spec(report: ReportBuilder) -> Self {
        ConversationsReportBuilder::spec_from_range(report.start, report.end)
    }
}

} // verus!
