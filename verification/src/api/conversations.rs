//! Conversation endpoints: list, get, create, delete, and attachment
//! data, with the conversation data model.

use vstd::prelude::*;

use crate::api::mailboxes::MailboxRef;
use crate::api::person::Person;
use crate::client::{Client, HttpMethod, PreparedRequest, spec_prepared};
use crate::error::HelpScoutError;
use crate::date_format::Timestamp;
use crate::query::{opt_pair, push_param, views_of_pairs};
use crate::text::{i32_to_string, spec_idec};

verus! {

/// How a conversation reached the mailbox.
#[derive(Debug, Clone, Copy, PartialEq, Eq)]
pub enum ConversationType {
    Email,
    Chat,
    Phone,
}

/// The workflow state of a conversation.
#[derive(Debug, Clone, Copy, PartialEq, Eq)]
pub enum ConversationStatus {
    Active,
    Pending,
    Closed,
    Spam,
}

/// What created a conversation.
#[derive(Debug, Clone, Copy, PartialEq, Eq)]
pub enum ConversationSourceType {
    Email,
    Web,
    Notification,
    EmailForward,
    Api,
    Chat,
    Workflows,
}

/// Who created a conversation.
#[derive(Debug, Clone, Copy, PartialEq, Eq)]
pub enum ConversationSourceVia {
    Customer,
    User,
}

/// The kind of one thread within a conversation.
#[derive(Debug, Clone, Copy, PartialEq, Eq)]
pub enum ConversationThreadType {
    LineItem,
    Note,
    Message,
    Chat,
    Customer,
    ForwardParent,
    ForwardChild,
    Phone,
}

impl Default for ConversationThreadType {
    /// A customer thread, the most common kind.
    fn default() -> (r: ConversationThreadType)
        ensures
            r == ConversationThreadType::Customer,
    {
        ConversationThreadType::Customer
    }
}

/// The status a thread sets on its conversation.
#[derive(Debug, Clone, Copy, PartialEq, Eq)]
pub enum ConversationThreadStatus {
    NoChange,
    Active,
    Pending,
    Closed,
    Spam,
}

/// The administrative action a line-item thread records.
#[derive(Debug, Clone, Copy, PartialEq, Eq)]
pub enum ConversationActionType {
    MovedFromMailbox,
    Merged,
    Imported,
    Workflow,
    ImportedExternal,
    ChangedTicketCustomer,
    DeletedTicket,
    RestoreTicket,
    OriginalCreator,
}

/// The publication state of a thread.
#[derive(Debug, Clone, Copy, PartialEq, Eq)]
pub enum ConversationThreadState {
    Published,
    Draft,
    UnderReview,
    Hidden,
}

/// One conversation.
#[derive(Debug, Clone, PartialEq, Eq)]
pub struct Conversation {
    pub id: i32,
    pub conversation_type: ConversationType,
    pub folder_id: i32,
    pub is_draft: bool,
    pub number: i32,
    pub owner: Option<Person>,
    pub mailbox: MailboxRef,
    pub customer: Person,
    pub thread_count: i32,
    pub status: ConversationStatus,
    pub subject: String,
    pub preview: String,
    pub created_by: Person,
    pub created_at: Timestamp,
    pub modified_at: Option<Timestamp>,
    pub user_modified_at: Option<Timestamp>,
    pub closed_at: Option<Timestamp>,
    pub closed_by: Option<Person>,
    pub source: ConversationSource,
    pub cc: Option<Vec<String>>,
    pub bcc: Option<Vec<String>>,
    pub tags: Vec<String>,
    pub threads: Option<Vec<ConversationThread>>,
}

/// A conversation being created.
#[derive(Debug, Clone, PartialEq, Eq)]
pub struct NewConversation {
    pub conversation_type: Option<ConversationType>,
    pub customer: Person,
    pub subject: String,
    pub mailbox: MailboxRef,
    pub tags: Option<Vec<String>>,
    pub created_at: Option<Timestamp>,
    pub threads: Vec<NewConversationThread>,
}

impl NewConversation {
    /// A new conversation with the required fields and nothing optional.
    pub fn new(
        customer: Person,
        subject: String,
        mailbox: MailboxRef,
        threads: Vec<NewConversationThread>,
    ) -> (r: NewConversation)
        ensures
            r.conversation_type is None,
            r.customer == customer,
            r.subject == subject,
            r.mailbox == mailbox,
            r.tags is None,
            r.created_at is None,
            r.threads == threads,
    {
        NewConversation {
            conversation_type: None,
            customer,
            subject,
            mailbox,
            tags: None,
            created_at: None,
            threads,
        }
    }
}

/// One file attached to a thread.
#[derive(Debug, Clone, PartialEq, Eq)]
pub struct Attachment {
    pub id: i32,
    pub hash: String,
    pub mime_type: String,
    pub filename: String,
    pub size: String,
    pub width: String,
    pub height: String,
    pub url: String,
}

/// The payload of one attachment.
#[derive(Debug, Clone, PartialEq, Eq)]
pub struct AttachmentData {
    pub id: i32,
    pub data: String,
}

/// Where a conversation came from.
#[derive(Debug, Clone, PartialEq, Eq)]
pub struct ConversationSource {
    pub conversation_source_type: ConversationSourceType,
    pub via: ConversationSourceVia,
}

/// One thread within a conversation.
#[derive(Debug, Clone, PartialEq, Eq)]
pub struct ConversationThread {
    pub id: i32,
    pub conversation_thread_type: ConversationThreadType,
    pub assigned_to: Option<Person>,
    pub status: ConversationThreadStatus,
    pub created_at: Timestamp,
    pub updated_at: Option<Timestamp>,
    pub created_by: Option<Person>,
    pub source: Option<ConversationSource>,
    pub action_type: Option<ConversationActionType>,
    pub action_source_id: Option<i32>,
    pub from_mailbox: Option<MailboxRef>,
    pub state: Option<ConversationThreadState>,
    pub customer: Option<Person>,
    pub body: Option<String>,
    pub to: Option<Vec<String>>,
    pub cc: Option<Vec<String>>,
    pub bcc: Option<Vec<String>>,
    pub attachments: Option<Vec<Attachment>>,
    pub saved_reply_id: Option<i32>,
    pub created_by_customer: bool,
}

/// A thread being created.
#[derive(Debug, Clone, PartialEq, Eq)]
pub struct NewConversationThread {
    pub created_by: Person,
    pub conversation_thread_type: ConversationThreadType,
    pub body: String,
    pub assigned_to: Option<Person>,
    pub status: Option<ConversationThreadStatus>,
    pub created_at: Option<Timestamp>,
    pub cc: Option<Vec<String>>,
    pub bcc: Option<Vec<String>>,
    pub attachments: Option<Vec<Attachment>>,
}

impl NewConversationThread {
    /// A new thread with the required fields and nothing optional.
    pub fn new(
        conversation_thread_type: ConversationThreadType,
        created_by: Person,
        body: String,
    ) -> (r: NewConversationThread)
        ensures
            r.conversation_thread_type == conversation_thread_type,
            r.created_by == created_by,
            r.body == body,
            r.assigned_to is None,
            r.status is None,
            r.created_at is None,
            r.cc is None,
            r.bcc is None,
            r.attachments is None,
    {
        NewConversationThread {
            created_by,
            conversation_thread_type,
            body,
            assigned_to: None,
            status: None,
            created_at: None,
            cc: None,
            bcc: None,
            attachments: None,
        }
    }
}

/// One custom field value on a conversation.
#[derive(Debug, Clone, PartialEq, Eq)]
pub struct CustomField {
    pub field_id: i32,
    pub name: String,
    pub value: String,
    pub field_type: String,
    pub label: String,
}

/// Query parameters for the conversation listing endpoint.
#[derive(Debug, Clone, PartialEq, Eq)]
pub struct ConversationListParamBuilder {
    pub status: Option<String>,
    pub tag: Option<String>,
    pub modified_since: Option<Timestamp>,
    pub page: Option<i32>,
}

impl Default for ConversationListParamBuilder {
    /// No filters, no page.
    fn default() -> (r: ConversationListParamBuilder)
        ensures
            r.status is None,
            r.tag is None,
            r.modified_since is None,
            r.page is None,
    {
        ConversationListParamBuilder { status: None, tag: None, modified_since: None, page: None }
    }
}

impl ConversationListParamBuilder {
    /// The query pairs these parameters serialize to, in field order.
    pub open spec fn spec_pairs(&self) -> Seq<(Seq<char>, Seq<char>)> {
        opt_pair(
            "status"@,
            match &self.status {
                Some(v) => Some(v@),
                None => None,
            },
        ) + opt_pair(
            "tag"@,
            match &self.tag {
                Some(v) => Some(v@),
                None => None,
            },
        ) + opt_pair(
            "modifiedSince"@,
            match self.modified_since {
                Some(t) => Some(t.spec_render()),
                None => None,
            },
        ) + opt_pair(
            "page"@,
            match self.page {
                Some(p) => Some(spec_idec(p as int)),
                None => None,
            },
        )
    }

    /// No filters, no page.
    pub fn new() -> (r: ConversationListParamBuilder)
        ensures
            r.status is None,
            r.tag is None,
            r.modified_since is None,
            r.page is None,
    {
        ConversationListParamBuilder { status: None, tag: None, modified_since: None, page: None }
    }

    /// Keep only conversations with the given status.
    pub fn status(self, status: &str) -> (r: Self)
        ensures
            r == (Self { status: r.status, ..self }),
            r.status matches Some(v) && v@ == status@,
    {
        Self { status: Some(String::from_str(status)), ..self }
    }

    /// Keep only conversations carrying the given tag.
    pub fn tag(self, tag: &str) -> (r: Self)
        ensures
            r == (Self { tag: r.tag, ..self }),
            r.tag matches Some(v) && v@ == tag@,
    {
        Self { tag: Some(String::from_str(tag)), ..self }
    }

    /// Keep only conversations modified since the given time.
    pub fn modified_since(self, modified_since: Timestamp) -> (r: Self)
        ensures
            r == (Self { modified_since: Some(modified_since), ..self }),
    {
        Self { modified_since: Some(modified_since), ..self }
    }

    /// Set the page for list actions.
    pub fn page(self, page: i32) -> (r: Self)
        ensures
            r == (Self { page: Some(page), ..self }),
    {
        Self { page: Some(page), ..self }
    }

    /// The query pairs these parameters serialize to.
    fn query_pairs(&self) -> (r: Vec<(String, String)>)
        ensures
            views_of_pairs(r@) == self.spec_pairs(),
    {
        let mut pairs: Vec<(String, String)> = Vec::new();
        proof {
            assert(views_of_pairs(pairs@) =~= Seq::<(Seq<char>, Seq<char>)>::empty());
        }
        let status = match &self.status {
            Some(v) => Some(String::from_str(v.as_str())),
            None => None,
        };
        push_param(&mut pairs, "status", status);
        let tag = match &self.tag {
            Some(v) => Some(String::from_str(v.as_str())),
            None => None,
        };
        push_param(&mut pairs, "tag", tag);
        let modified_since = match &self.modified_since {
            Some(t) => Some(t.render()),
            None => None,
        };
        push_param(&mut pairs, "modifiedSince", modified_since);
        let page = match self.page {
            Some(p) => Some(i32_to_string(p)),
            None => None,
        };
        push_param(&mut pairs, "page", page);
        proof {
            assert(views_of_pairs(pairs@) =~= self.spec_pairs());
        }
        pairs
    }
}

/// Prepares the request that lists the conversations of one mailbox.
pub fn list_request(client: &Client, mailbox_id: i32, params: &ConversationListParamBuilder) -> (r:
    Result<PreparedRequest, HelpScoutError>)
    ensures
        spec_prepared(
            *client,
            HttpMethod::Get,
            "mailboxes/"@ + spec_idec(mailbox_id as int) + "/conversations.json"@,
            params.spec_pairs(),
            None::<Seq<char>>,
            r,
        ),
{
    let path = crate::api::id_path("mailboxes/", mailbox_id, "/conversations.json");
    client.get(path.as_str(), &params.query_pairs())
}

/// Prepares the request that fetches one conversation.
pub fn get_request(client: &Client, id: i32) -> (r: Result<PreparedRequest, HelpScoutError>)
    ensures
        spec_prepared(
            *client,
            HttpMethod::Get,
            "conversations/"@ + spec_idec(id as int) + ".json"@,
            Seq::<(Seq<char>, Seq<char>)>::empty(),
            None::<Seq<char>>,
            r,
        ),
{
    let path = crate::api::id_path("conversations/", id, ".json");
    let none: Vec<(String, String)> = Vec::new();
    proof {
        assert(views_of_pairs(none@) =~= Seq::<(Seq<char>, Seq<char>)>::empty());
    }
    client.get(path.as_str(), &none)
}

/// Prepares the request that posts a new conversation; the body is the
/// conversation record, already serialized as JSON.
pub fn create_request(client: &Client, body: String) -> (r: Result<
    PreparedRequest,
    HelpScoutError,
>)
    ensures
        spec_prepared(
            *client,
            HttpMethod::Post,
            "conversations.json"@,
            Seq::<(Seq<char>, Seq<char>)>::empty(),
            Some(body@),
            r,
        ),
{
    let none: Vec<(String, String)> = Vec::new();
    proof {
        assert(views_of_pairs(none@) =~= Seq::<(Seq<char>, Seq<char>)>::empty());
    }
    client.post("conversations.json", &none, Some(body))
}

/// Prepares the request behind a conversation deletion, which the service
/// answers with the conversation record.
pub fn delete_request(client: &Client, id: i32) -> (r: Result<PreparedRequest, HelpScoutError>)
    ensures
        spec_prepared(
            *client,
            HttpMethod::Get,
            "conversations/"@ + spec_idec(id as int) + ".json"@,
            Seq::<(Seq<char>, Seq<char>)>::empty(),
            None::<Seq<char>>,
            r,
        ),
{
    get_request(client, id)
}

/// Prepares the request that fetches one attachment's payload.
pub fn get_attachment_data_request(client: &Client, id: i32) -> (r: Result<
    PreparedRequest,
    HelpScoutError,
>)
    ensures
        spec_prepared(
            *client,
            HttpMethod::Get,
            "attachments/"@ + spec_idec(id as int) + "/data.json"@,
            Seq::<(Seq<char>, Seq<char>)>::empty(),
            None::<Seq<char>>,
            r,
        ),
{
    let path = crate::api::id_path("attachments/", id, "/data.json");
    let none: Vec<(String, String)> = Vec::new();
    proof {
        assert(views_of_pairs(none@) =~= Seq::<(Seq<char>, Seq<char>)>::empty());
    }
    client.get(path.as_str(), &none)
}

} // verus!
