//! Mailboxes endpoints: list, get, and the folders of a mailbox.

use vstd::prelude::*;

use crate::client::{Client, HttpMethod, PreparedRequest, spec_prepared};
use crate::error::HelpScoutError;
use crate::date_format::Timestamp;
use crate::query::views_of_pairs;
use crate::text::spec_idec;

verus! {

/// One mailbox.
#[derive(Debug, Clone, PartialEq, Eq)]
pub struct Mailbox {
    pub id: i32,
    pub name: String,
    pub slug: String,
    pub email: String,
    pub created_at: Timestamp,
    pub modified_at: Timestamp,
    pub custom_fields: Option<Vec<CustomField>>,
    pub folders: Option<Vec<Folder>>,
}

/// A mailbox named by reference inside other resources.
#[derive(Debug, Clone, PartialEq, Eq)]
pub struct MailboxRef {
    pub id: i32,
    pub name: String,
}

/// The input kind of a custom field.
#[derive(Debug, Clone, Copy, PartialEq, Eq)]
pub enum CustomFieldType {
    SingleLine,
    MultiLine,
    Data,
    Number,
    Dropdown,
}

/// One custom field attached to a mailbox.
#[derive(Debug, Clone, PartialEq, Eq)]
pub struct CustomField {
    pub id: i32,
    pub field_name: String,
    pub field_type: CustomFieldType,
    pub required: bool,
    pub order: i32,
}

/// One folder of a mailbox.
#[derive(Debug, Clone, PartialEq, Eq)]
pub struct Folder {
    pub id: i32,
    pub name: String,
    pub folder_type: String,
    pub user_id: i32,
    pub total_count: i32,
    pub active_count: i32,
    pub modified_at: Timestamp,
}

/// Prepares the request that lists mailboxes.
pub fn list_request(client: &Client) -> (r: Result<PreparedRequest, HelpScoutError>)
    ensures
        spec_prepared(
            *client,
            HttpMethod::Get,
            "mailboxes.json"@,
            Seq::<(Seq<char>, Seq<char>)>::empty(),
            None::<Seq<char>>,
            r,
        ),
{
    let none: Vec<(String, String)> = Vec::new();
    proof {
        assert(views_of_pairs(none@) =~= Seq::<(Seq<char>, Seq<char>)>::empty());
    }
    client.get("mailboxes.json", &none)
}

/// Prepares the request that fetches one mailbox.
pub fn get_request(client: &Client, id: i32) -> (r: Result<PreparedRequest, HelpScoutError>)
    ensures
        spec_prepared(
            *client,
            HttpMethod::Get,
            "mailboxes/"@ + spec_idec(id as int) + ".json"@,
            Seq::<(Seq<char>, Seq<char>)>::empty(),
            None::<Seq<char>>,
            r,
        ),
{
    let path = crate::api::id_path("mailboxes/", id, ".json");
    let none: Vec<(String, String)> = Vec::new();
    proof {
        assert(views_of_pairs(none@) =~= Seq::<(Seq<char>, Seq<char>)>::empty());
    }
    client.get(path.as_str(), &none)
}

/// Prepares the request that lists the folders of one mailbox.
pub fn get_folders_request(client: &Client, mailbox_id: i32) -> (r: Result<
    PreparedRequest,
    HelpScoutError,
>)
    ensures
        spec_prepared(
            *client,
            HttpMethod::Get,
            "mailboxes/"@ + spec_idec(mailbox_id as int) + "/folders.json"@,
            Seq::<(Seq<char>, Seq<char>)>::empty(),
            None::<Seq<char>>,
            r,
        ),
{
    let path = crate::api::id_path("mailboxes/", mailbox_id, "/folders.json");
    let none: Vec<(String, String)> = Vec::new();
    proof {
        assert(views_of_pairs(none@) =~= Seq::<(Seq<char>, Seq<char>)>::empty());
    }
    client.get(path.as_str(), &none)
}

} // verus!
