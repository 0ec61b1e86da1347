//! Users endpoints: list, get, and list by mailbox.

use vstd::prelude::*;

use crate::client::{Client, HttpMethod, PreparedRequest, spec_prepared};
use crate::error::HelpScoutError;
use crate::date_format::Timestamp;
use crate::query::{opt_pair, push_param, views_of_pairs};
use crate::text::{i32_to_string, spec_idec};

verus! {

/// Which kind of account a user record stands for.
#[derive(Debug, Clone, Copy, PartialEq, Eq)]
pub enum UserType {
    Team,
    User,
}

/// The value a user type takes in a query string.
pub open spec fn spec_user_type_value(t: UserType) -> Seq<char> {
    match t {
        UserType::Team => "team"@,
        UserType::User => "user"@,
    }
}

impl UserType {
    /// The value this user type takes in a query string.
    pub fn query_value(&self) -> (r: String)
        ensures
            r@ == spec_user_type_value(*self),
    {
        match self {
            UserType::Team => String::from_str("team"),
            UserType::User => String::from_str("user"),
        }
    }
}

/// One user account.
#[derive(Debug, Clone, PartialEq, Eq)]
pub struct User {
    pub id: i32,
    pub first_name: String,
    pub last_name: String,
    pub email: String,
    pub role: String,
    pub timezone: String,
    pub photo_url: Option<String>,
    pub created_at: Timestamp,
    pub modified_at: Timestamp,
    pub user_type: UserType,
}

/// Query parameters for the user listing endpoints.
#[derive(Debug, Clone, PartialEq, Eq)]
pub struct UsersBuilder {
    pub page: Option<i32>,
    pub user_type: Option<UserType>,
}

impl Default for UsersBuilder {
    /// No page, no type filter.
    fn default() -> (r: UsersBuilder)
        ensures
            r.page is None,
            r.user_type is None,
    {
        UsersBuilder { page: None, user_type: None }
    }
}

impl UsersBuilder {
    /// The query pairs these parameters serialize to: `page`, then `type`.
    pub open spec fn spec_pairs(&self) -> Seq<(Seq<char>, Seq<char>)> {
        opt_pair(
            "page"@,
            match self.page {
                Some(p) => Some(spec_idec(p as int)),
                None => None,
            },
        ) + opt_pair(
            "type"@,
            match self.user_type {
                Some(t) => Some(spec_user_type_value(t)),
                None => None,
            },
        )
    }

    /// No page, no type filter.
    pub(crate) fn new() -> (r: UsersBuilder)
        ensures
            r.page is None,
            r.user_type is None,
    {
        UsersBuilder { page: None, user_type: None }
    }

    /// Set the page for list actions.
    pub fn page(self, page: i32) -> (r: Self)
        ensures
            r.page == Some(page),
            r.user_type == self.user_type,
    {
        Self { page: Some(page), ..self }
    }

    /// Set the user type filter for list actions.
    pub fn user_type(self, user_type: UserType) -> (r: Self)
        ensures
            r.user_type == Some(user_type),
            r.page == self.page,
    {
        Self { user_type: Some(user_type), ..self }
    }

    /// The query pairs these parameters serialize to.
    fn query_pairs(&self) -> (r: Vec<(String, String)>)
        ensures
            views_of_pairs(r@) == self.spec_pairs(),
    {
        let mut pairs: Vec<(String, String)> = Vec::new();
        proof {
            assert(views_of_pairs(pairs@) =~= Seq::<(Seq<char>, Seq<char>)>::empty());
        }
        let page = match self.page {
            Some(p) => Some(i32_to_string(p)),
            None => None,
        };
        push_param(&mut pairs, "page", page);
        let user_type = match &self.user_type {
            Some(t) => Some(t.query_value()),
            None => None,
        };
        push_param(&mut pairs, "type", user_type);
        proof {
            assert(views_of_pairs(pairs@) =~= self.spec_pairs());
        }
        pairs
    }

    /// Prepares the request that lists users.
    pub fn list_request(self, client: &Client) -> (r: Result<PreparedRequest, HelpScoutError>)
        ensures
            spec_prepared(
                *client,
                HttpMethod::Get,
                "users.json"@,
                self.spec_pairs(),
                None::<Seq<char>>,
                r,
            ),
    {
        client.get("users.json", &self.query_pairs())
    }

    /// Prepares the request that fetches one user.
    pub fn get_request(self, client: &Client, id: i32) -> (r: Result<
        PreparedRequest,
        HelpScoutError,
    >)
        ensures
            spec_prepared(
                *client,
                HttpMethod::Get,
                "users/"@ + spec_idec(id as int) + ".json"@,
                Seq::<(Seq<char>, Seq<char>)>::empty(),
                None::<Seq<char>>,
                r,
            ),
    {
        let path = crate::api::id_path("users/", id, ".json");
        let none: Vec<(String, String)> = Vec::new();
        proof {
            assert(views_of_pairs(none@) =~= Seq::<(Seq<char>, Seq<char>)>::empty());
        }
        client.get(path.as_str(), &none)
    }

    /// Prepares the request that lists the users of one mailbox.
    pub fn list_by_mailbox_request(self, client: &Client, mailbox_id: i32) -> (r: Result<
        PreparedRequest,
        HelpScoutError,
    >)
        ensures
            spec_prepared(
                *client,
                HttpMethod::Get,
                "mailboxes/"@ + spec_idec(mailbox_id as int) + "/users.json"@,
                self.spec_pairs(),
                None::<Seq<char>>,
                r,
            ),
    {
        let path = crate::api::id_path("mailboxes/", mailbox_id, "/users.json");
        client.get(path.as_str(), &self.query_pairs())
    }
}

} // verus!
