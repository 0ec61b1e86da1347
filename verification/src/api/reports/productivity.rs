//! Productivity reports: response, handle, and resolution figures over a
//! time range.

use vstd::prelude::*;

use crate::api::reports::ReportBuilder;
use crate::client::{Client, HttpMethod, PreparedRequest, spec_prepared};
use crate::error::HelpScoutError;
use crate::date_format::Timestamp;
use crate::query::{opt_pair, push_param, views_of_pairs};
use crate::text::{i32_to_string, spec_idec};

verus! {

/// Query parameters shared by the productivity reports.
#[derive(Debug, Clone, PartialEq, Eq)]
pub struct ProductivityReportBuilder {
    pub start: Timestamp,
    pub end: Timestamp,
    pub mailboxes: Option<String>,
    pub tags: Option<String>,
    pub types: Option<String>,
    pub folders: Option<String>,
    pub previous_start: Option<Timestamp>,
    pub previous_end: Option<Timestamp>,
    pub office_hours: Option<i32>,
}

impl ProductivityReportBuilder {
    /// The builder a bare time range opens: everything else unset.
    pub open spec fn spec_from_range(start: Timestamp, end: Timestamp)
        -> ProductivityReportBuilder {
        ProductivityReportBuilder {
            start,
            end,
            mailboxes: None,
            tags: None,
            types: None,
            folders: None,
            previous_start: None,
            previous_end: None,
            office_hours: None,
        }
    }

    /// The query pairs these parameters serialize to, in field order; the
    /// time range is always present.
    pub open spec fn spec_pairs(&self) -> Seq<(Seq<char>, Seq<char>)> {
        seq![("start"@, self.start.spec_render()), ("end"@, self.end.spec_render())] + opt_pair(
            "mailboxes"@,
            match &self.mailboxes {
                Some(v) => Some(v@),
                None => None,
            },
        ) + opt_pair(
            "tags"@,
            match &self.tags {
                Some(v) => Some(v@),
                None => None,
            },
        ) + opt_pair(
            "types"@,
            match &self.types {
                Some(v) => Some(v@),
                None => None,
            },
        ) + opt_pair(
            "folders"@,
            match &self.folders {
                Some(v) => Some(v@),
                None => None,
            },
        ) + opt_pair(
            "previous_start"@,
            match self.previous_start {
                Some(t) => Some(t.spec_render()),
                None => None,
            },
        ) + opt_pair(
            "previous_end"@,
            match self.previous_end {
                Some(t) => Some(t.spec_render()),
                None => None,
            },
        ) + opt_pair(
            "office_hours"@,
            match self.office_hours {
                Some(v) => Some(spec_idec(v as int)),
                None => None,
            },
        )
    }

    /// Restrict to a comma-separated list of mailbox ids.
    pub fn mailboxes(self, mailboxes: String) -> (r: Self)
        ensures
            r == (Self { mailboxes: Some(mailboxes), ..self }),
    {
        Self { mailboxes: Some(mailboxes), ..self }
    }

    /// Restrict to a comma-separated list of tags.
    pub fn tags(self, tags: String) -> (r: Self)
        ensures
            r == (Self { tags: Some(tags), ..self }),
    {
        Self { tags: Some(tags), ..self }
    }

    /// Restrict to a comma-separated list of conversation types.
    pub fn types(self, types: String) -> (r: Self)
        ensures
            r == (Self { types: Some(types), ..self }),
    {
        Self { types: Some(types), ..self }
    }

    /// Restrict to a comma-separated list of folder ids.
    pub fn folders(self, folders: String) -> (r: Self)
        ensures
            r == (Self { folders: Some(folders), ..self }),
    {
        Self { folders: Some(folders), ..self }
    }

    /// Compare against an earlier time range.
    pub fn previous(self, previous_start: Timestamp, previous_end: Timestamp) -> (r: Self)
        ensures
            r == (Self {
                previous_start: Some(previous_start),
                previous_end: Some(previous_end),
                ..self
            }),
    {
        Self {
            previous_start: Some(previous_start),
            previous_end: Some(previous_end),
            ..self
        }
    }

    /// The query pairs these parameters serialize to.
    #[verifier::rlimit(100)]
    fn query_pairs(&self) -> (r: Vec<(String, String)>)
        ensures
            views_of_pairs(r@) == self.spec_pairs(),
    {
        let mut pairs: Vec<(String, String)> = Vec::new();
        proof {
            assert(views_of_pairs(pairs@) =~= Seq::<(Seq<char>, Seq<char>)>::empty());
        }
        push_param(&mut pairs, "start", Some(self.start.render()));
        push_param(&mut pairs, "end", Some(self.end.render()));
        let mailboxes = match &self.mailboxes {
            Some(v) => Some(String::from_str(v.as_str())),
            None => None,
        };
        push_param(&mut pairs, "mailboxes", mailboxes);
        let tags = match &self.tags {
            Some(v) => Some(String::from_str(v.as_str())),
            None => None,
        };
        push_param(&mut pairs, "tags", tags);
        let types = match &self.types {
            Some(v) => Some(String::from_str(v.as_str())),
            None => None,
        };
        push_param(&mut pairs, "types", types);
        let folders = match &self.folders {
            Some(v) => Some(String::from_str(v.as_str())),
            None => None,
        };
        push_param(&mut pairs, "folders", folders);
        let previous_start = match &self.previous_start {
            Some(t) => Some(t.render()),
            None => None,
        };
        push_param(&mut pairs, "previous_start", previous_start);
        let previous_end = match &self.previous_end {
            Some(t) => Some(t.render()),
            None => None,
        };
        push_param(&mut pairs, "previous_end", previous_end);
        let office_hours = match self.office_hours {
            Some(v) => Some(i32_to_string(v)),
            None => None,
        };
        push_param(&mut pairs, "office_hours", office_hours);
        proof {
            assert(views_of_pairs(pairs@) =~= self.spec_pairs());
        }
        pairs
    }

    /// Prepares the request for the overall productivity report.
    pub fn overall_request(self, client: &Client) -> (r: Result<PreparedRequest, HelpScoutError>)
        ensures
            spec_prepared(
                *client,
                HttpMethod::Get,
                "reports/productivity.json"@,
                self.spec_pairs(),
                None::<Seq<char>>,
                r,
            ),
    {
        client.get("reports/productivity.json", &self.query_pairs())
    }
}

impl From<ReportBuilder> for ProductivityReportBuilder {
    /// Opens the productivity reports over the range's start and end.
    fn from(report: ReportBuilder) -> (r: Self) {
        ProductivityReportBuilder {
            start: report.start,
            end: report.end,
            mailboxes: None,
            tags: None,
            types: None,
            folders: None,
            previous_start: None,
            previous_end: None,
            office_hours: None,
        }
    }
}

impl vstd::std_specs::convert::FromSpecImpl<ReportBuilder> for ProductivityReportBuilder {
    open spec fn obeys_from_spec() -> bool {
        true
    }

    open spec fn from_spec(report: ReportBuilder) -> Self {
        ProductivityReportBuilder::spec_from_range(report.start, report.end)
    }
}

} // verus!
