//! Tags endpoints: listing the tags of the account.

use vstd::prelude::*;

use crate::client::{Client, HttpMethod, PreparedRequest, spec_prepared};
use crate::error::HelpScoutError;
use crate::date_format::Timestamp;
use crate::query::views_of_pairs;

verus! {

/// One tag, with its usage count.
#[derive(Debug, Clone, PartialEq, Eq)]
pub struct Tag {
    pub id: i32,
    pub tag: String,
    pub slug: String,
    pub color: String,
    pub count: i32,
    pub created_at: Timestamp,
    pub modified_at: Option<Timestamp>,
}

/// Prepares the request that lists tags.
pub fn list_request(client: &Client) -> (r: Result<PreparedRequest, HelpScoutError>)
    ensures
        spec_prepared(
            *client,
            HttpMethod::Get,
            "tags.json"@,
            Seq::<(Seq<char>, Seq<char>)>::empty(),
            None::<Seq<char>>,
            r,
        ),
{
    let none: Vec<(String, String)> = Vec::new();
    proof {
        assert(views_of_pairs(none@) =~= Seq::<(Seq<char>, Seq<char>)>::empty());
    }
    client.get("tags.json", &none)
}

} // verus!
