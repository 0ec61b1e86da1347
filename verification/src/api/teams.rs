//! Teams endpoints: list, get, and list team members.  Team records share
//! the user shape.

use vstd::prelude::*;

use crate::client::{Client, HttpMethod, PreparedRequest, spec_prepared};
use crate::error::HelpScoutError;
use crate::query::{opt_pair, push_param, views_of_pairs};
use crate::text::{i32_to_string, spec_idec};

verus! {

/// Query parameters for the team listing endpoints.
#[derive(Debug, Clone, PartialEq, Eq)]
pub struct TeamsBuilder {
    pub page: Option<i32>,
}

impl Default for TeamsBuilder {
    /// No page.
    fn default() -> (r: TeamsBuilder)
        ensures
            r.page is None,
    {
        TeamsBuilder { page: None }
    }
}

impl TeamsBuilder {
    /// The query pairs these parameters serialize to.
    pub open spec fn spec_pairs(&self) -> Seq<(Seq<char>, Seq<char>)> {
        opt_pair(
            "page"@,
            match self.page {
                Some(p) => Some(spec_idec(p as int)),
                None => None,
            },
        )
    }

    /// No page.
    pub(crate) fn new() -> (r: TeamsBuilder)
        ensures
            r.page is None,
    {
        TeamsBuilder { page: None }
    }

    /// Set the page for list actions.
    pub fn page(self, page: i32) -> (r: Self)
        ensures
            r.page == Some(page),
    {
        Self { page: Some(page), ..self }
    }

    /// The query pairs these parameters serialize to.
    fn query_pairs(&self) -> (r: Vec<(String, String)>)
        ensures
            views_of_pairs(r@) == self.spec_pairs(),
    {
        let mut pairs: Vec<(String, String)> = Vec::new();
        proof {
            assert(views_of_pairs(pairs@) =~= Seq::<(Seq<char>, Seq<char>)>::empty());
        }
        let page = match self.page {
            Some(p) => Some(i32_to_string(p)),
            None => None,
        };
        push_param(&mut pairs, "page", page);
        proof {
            assert(views_of_pairs(pairs@) =~= self.spec_pairs());
        }
        pairs
    }

    /// Prepares the request that lists teams.
    pub fn list_request(self, client: &Client) -> (r: Result<PreparedRequest, HelpScoutError>)
        ensures
            spec_prepared(
                *client,
                HttpMethod::Get,
                "teams.json"@,
                self.spec_pairs(),
                None::<Seq<char>>,
                r,
            ),
    {
        client.get("teams.json", &self.query_pairs())
    }

    /// Prepares the request that fetches one team.
    pub fn get_request(self, client: &Client, id: i32) -> (r: Result<
        PreparedRequest,
        HelpScoutError,
    >)
        ensures
            spec_prepared(
                *client,
                HttpMethod::Get,
                "teams/"@ + spec_idec(id as int) + ".json"@,
                Seq::<(Seq<char>, Seq<char>)>::empty(),
                None::<Seq<char>>,
                r,
            ),
    {
        let path = crate::api::id_path("teams/", id, ".json");
        let none: Vec<(String, String)> = Vec::new();
        proof {
            assert(views_of_pairs(none@) =~= Seq::<(Seq<char>, Seq<char>)>::empty());
        }
        client.get(path.as_str(), &none)
    }

    /// Prepares the request that lists the members of one team.
    pub fn list_team_members_request(self, client: &Client, id: i32) -> (r: Result<
        PreparedRequest,
        HelpScoutError,
    >)
        ensures
            spec_prepared(
                *client,
                HttpMethod::Get,
                "teams/"@ + spec_idec(id as int) + "/members.json"@,
                Seq::<(Seq<char>, Seq<char>)>::empty(),
                None::<Seq<char>>,
                r,
            ),
    {
        let path = crate::api::id_path("teams/", id, "/members.json");
        let none: Vec<(String, String)> = Vec::new();
        proof {
            assert(views_of_pairs(none@) =~= Seq::<(Seq<char>, Seq<char>)>::empty());
        }
        client.get(path.as_str(), &none)
    }
}

} // verus!
