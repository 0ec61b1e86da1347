//! Customer endpoints: list, list by mailbox, get, create, and update,
//! with the customer data model and its nested records.

use vstd::prelude::*;

use crate::client::{Client, HttpMethod, PreparedRequest, spec_prepared};
use crate::error::HelpScoutError;
use crate::date_format::Timestamp;
use crate::query::{opt_pair, push_param, views_of_pairs};
use crate::text::{i32_to_string, spec_idec};

verus! {

/// The network a social profile belongs to.
#[derive(Debug, Clone, Copy, PartialEq, Eq)]
pub enum CustomerSocialProfileType {
    Twitter,
    Facebook,
    Linkedin,
    Aboutme,
    Google,
    Googleplus,
    Tungleme,
    Quora,
    Foursquare,
    Youtube,
    Flickr,
    Other,
}

/// Where an email address belongs.
#[derive(Debug, Clone, Copy, PartialEq, Eq)]
pub enum CustomerEmailLocationType {
    Home,
    Work,
    Other,
}

impl Default for CustomerEmailLocationType {
    /// Work, as the service assumes.
    fn default() -> (r: CustomerEmailLocationType)
        ensures
            r == CustomerEmailLocationType::Work,
    {
        CustomerEmailLocationType::Work
    }
}

/// The network a chat handle belongs to.
#[derive(Debug, Clone, Copy, PartialEq, Eq)]
pub enum CustomerChatType {
    Aim,
    Gtalk,
    Icq,
    Xmpp,
    Msn,
    Skype,
    Yahoo,
    Qq,
    Other,
}

/// Where a phone number belongs.
#[derive(Debug, Clone, Copy, PartialEq, Eq)]
pub enum CustomerPhoneLocationType {
    Home,
    Work,
    Mobile,
    Fax,
    Pager,
    Other,
}

/// Where a customer photo came from.
#[derive(Debug, Clone, Copy, PartialEq, Eq)]
pub enum CustomerPhotoType {
    Unknown,
    Gravatar,
    Twitter,
    Facebook,
    Googleprofile,
    Googleplus,
    Linkedin,
}

/// The gender recorded for a customer.
#[derive(Debug, Clone, Copy, PartialEq, Eq)]
pub enum CustomerGender {
    Male,
    Female,
    Unknown,
}

/// One customer.
#[derive(Debug, Clone, PartialEq, Eq)]
pub struct Customer {
    pub id: i32,
    pub first_name: Option<String>,
    pub last_name: Option<String>,
    pub full_name: Option<String>,
    pub photo_url: Option<String>,
    pub gender: CustomerGender,
    pub age: Option<String>,
    pub organization: Option<String>,
    pub job_title: Option<String>,
    pub location: Option<String>,
    pub created_at: Timestamp,
    pub modified_at: Option<Timestamp>,
    pub background: Option<String>,
    pub address: Option<CustomerAddress>,
    pub social_profiles: Option<Vec<CustomerSocialProfile>>,
    pub emails: Option<Vec<CustomerEmail>>,
    pub phones: Option<Vec<CustomerPhone>>,
    pub chats: Option<Vec<CustomerChat>>,
    pub websites: Option<Vec<CustomerWebsite>>,
}

/// A customer's postal address.
#[derive(Debug, Clone, PartialEq, Eq)]
pub struct CustomerAddress {
    pub id: Option<i32>,
    pub city: String,
    pub state: String,
    pub country: String,
    pub postal_code: String,
    pub lines: Vec<String>,
    pub created_at: Timestamp,
    pub modified_at: Option<Timestamp>,
}

impl CustomerAddress {
    /// A fresh address record, not yet known to the service.
    pub fn new(
        city: &str,
        state: &str,
        country: &str,
        postal_code: &str,
        lines: Vec<String>,
        created_at: Timestamp,
    ) -> (r: CustomerAddress)
        ensures
            r.id is None,
            r.city@ == city@,
            r.state@ == state@,
            r.country@ == country@,
            r.postal_code@ == postal_code@,
            r.lines == lines,
            r.created_at == created_at,
            r.modified_at is None,
    {
        CustomerAddress {
            id: None,
            city: String::from_str(city),
            state: String::from_str(state),
            country: String::from_str(country),
            postal_code: String::from_str(postal_code),
            lines,
            created_at,
            modified_at: None,
        }
    }
}

/// One social profile of a customer.
#[derive(Debug, Clone, PartialEq, Eq)]
pub struct CustomerSocialProfile {
    pub id: Option<i32>,
    pub value: String,
    pub social_profile_type: CustomerSocialProfileType,
}

impl CustomerSocialProfile {
    /// A fresh social profile record.
    pub fn new(value: &str, social_profile_type: CustomerSocialProfileType) -> (r:
        CustomerSocialProfile)
        ensures
            r.id is None,
            r.value@ == value@,
            r.social_profile_type == social_profile_type,
    {
        CustomerSocialProfile { id: None, value: String::from_str(value), social_profile_type }
    }
}

/// One email address of a customer.
#[derive(Debug, Clone, PartialEq, Eq)]
pub struct CustomerEmail {
    pub id: Option<i32>,
    pub value: String,
    pub location: CustomerEmailLocationType,
}

impl CustomerEmail {
    /// A fresh email record.
    pub fn new(email: &str, location: CustomerEmailLocationType) -> (r: CustomerEmail)
        ensures
            r.id is None,
            r.value@ == email@,
            r.location == location,
    {
        CustomerEmail { id: None, value: String::from_str(email), location }
    }
}

/// One phone number of a customer.
#[derive(Debug, Clone, PartialEq, Eq)]
pub struct CustomerPhone {
    pub id: Option<i32>,
    pub value: String,
    pub location: CustomerPhoneLocationType,
}

impl CustomerPhone {
    /// A fresh phone record.
    pub fn new(value: &str, location: CustomerPhoneLocationType) -> (r: CustomerPhone)
        ensures
            r.id is None,
            r.value@ == value@,
            r.location == location,
    {
        CustomerPhone { id: None, value: String::from_str(value), location }
    }
}

/// One chat handle of a customer.
#[derive(Debug, Clone, PartialEq, Eq)]
pub struct CustomerChat {
    pub id: Option<i32>,
    pub value: String,
    pub customer_chat_type: CustomerChatType,
}

impl CustomerChat {
    /// A fresh chat record.
    pub fn new(value: &str, customer_chat_type: CustomerChatType) -> (r: CustomerChat)
        ensures
            r.id is None,
            r.value@ == value@,
            r.customer_chat_type == customer_chat_type,
    {
        CustomerChat { id: None, value: String::from_str(value), customer_chat_type }
    }
}

/// One website of a customer.
#[derive(Debug, Clone, PartialEq, Eq)]
pub struct CustomerWebsite {
    pub id: Option<i32>,
    pub value: String,
}

impl CustomerWebsite {
    /// A fresh website record.
    pub fn new(value: &str) -> (r: CustomerWebsite)
        ensures
            r.id is None,
            r.value@ == value@,
    {
        CustomerWebsite { id: None, value: String::from_str(value) }
    }
}

/// Query parameters for the customer listing endpoints.
#[derive(Debug, Clone, PartialEq, Eq)]
pub struct CustomersListParamBuilder {
    pub first_name: Option<String>,
    pub last_name: Option<String>,
    pub email: Option<String>,
    pub modified_since: Option<Timestamp>,
    pub page: Option<i32>,
}

impl Default for CustomersListParamBuilder {
    /// No filters, no page.
    fn default() -> (r: CustomersListParamBuilder)
        ensures
            r.first_name is None,
            r.last_name is None,
            r.email is None,
            r.modified_since is None,
            r.page is None,
    {
        CustomersListParamBuilder {
            first_name: None,
            last_name: None,
            email: None,
            modified_since: None,
            page: None,
        }
    }
}

impl CustomersListParamBuilder {
    /// The query pairs these parameters serialize to, in field order.
    pub open spec fn spec_pairs(&self) -> Seq<(Seq<char>, Seq<char>)> {
        opt_pair(
            "firstName"@,
            match &self.first_name {
                Some(v) => Some(v@),
                None => None,
            },
        ) + opt_pair(
            "lastName"@,
            match &self.last_name {
                Some(v) => Some(v@),
                None => None,
            },
        ) + opt_pair(
            "email"@,
            match &self.email {
                Some(v) => Some(v@),
                None => None,
            },
        ) + opt_pair(
            "modifiedSince"@,
            match self.modified_since {
                Some(t) => Some(t.spec_render()),
                None => None,
            },
        ) + opt_pair(
            "page"@,
            match self.page {
                Some(p) => Some(spec_idec(p as int)),
                None => None,
            },
        )
    }

    /// No filters, no page.
    pub fn new() -> (r: CustomersListParamBuilder)
        ensures
            r.first_name is None,
            r.last_name is None,
            r.email is None,
            r.modified_since is None,
            r.page is None,
    {
        CustomersListParamBuilder {
            first_name: None,
            last_name: None,
            email: None,
            modified_since: None,
            page: None,
        }
    }

    /// Filter by first name.
    pub fn first_name(self, first_name: &str) -> (r: Self)
        ensures
            r == (Self { first_name: r.first_name, ..self }),
            r.first_name matches Some(v) && v@ == first_name@,
    {
        Self { first_name: Some(String::from_str(first_name)), ..self }
    }

    /// Filter by last name.
    pub fn last_name(self, last_name: &str) -> (r: Self)
        ensures
            r == (Self { last_name: r.last_name, ..self }),
            r.last_name matches Some(v) && v@ == last_name@,
    {
        Self { last_name: Some(String::from_str(last_name)), ..self }
    }

    /// Filter by email address.
    pub fn email(self, email: &str) -> (r: Self)
        ensures
            r == (Self { email: r.email, ..self }),
            r.email matches Some(v) && v@ == email@,
    {
        Self { email: Some(String::from_str(email)), ..self }
    }

    /// Keep only customers modified since the given time.
    pub fn modified_since(self, modified_since: Timestamp) -> (r: Self)
        ensures
            r == (Self { modified_since: Some(modified_since), ..self }),
    {
        Self { modified_since: Some(modified_since), ..self }
    }

    /// Set the page for list actions.
    pub fn page(self, page: i32) -> (r: Self)
        ensures
            r == (Self { page: Some(page), ..self }),
    {
        Self { page: Some(page), ..self }
    }

    /// The query pairs these parameters serialize to.
    fn query_pairs(&self) -> (r: Vec<(String, String)>)
        ensures
            views_of_pairs(r@) == self.spec_pairs(),
    {
        let mut pairs: Vec<(String, String)> = Vec::new();
        proof {
            assert(views_of_pairs(pairs@) =~= Seq::<(Seq<char>, Seq<char>)>::empty());
        }
        let first_name = match &self.first_name {
            Some(v) => Some(String::from_str(v.as_str())),
            None => None,
        };
        push_param(&mut pairs, "firstName", first_name);
        let last_name = match &self.last_name {
            Some(v) => Some(String::from_str(v.as_str())),
            None => None,
        };
        push_param(&mut pairs, "lastName", last_name);
        let email = match &self.email {
            Some(v) => Some(String::from_str(v.as_str())),
            None => None,
        };
        push_param(&mut pairs, "email", email);
        let modified_since = match &self.modified_since {
            Some(t) => Some(t.render()),
            None => None,
        };
        push_param(&mut pairs, "modifiedSince", modified_since);
        let page = match self.page {
            Some(p) => Some(i32_to_string(p)),
            None => None,
        };
        push_param(&mut pairs, "page", page);
        proof {
            assert(views_of_pairs(pairs@) =~= self.spec_pairs());
        }
        pairs
    }

    /// Prepares the request that lists customers.
    pub fn list_request(&self, client: &Client) -> (r: Result<PreparedRequest, HelpScoutError>)
        ensures
            spec_prepared(
                *client,
                HttpMethod::Get,
                "customers.json"@,
                self.spec_pairs(),
                None::<Seq<char>>,
                r,
            ),
    {
        client.get("customers.json", &self.query_pairs())
    }

    /// Prepares the request that lists the customers of one mailbox.
    pub fn list_by_mailbox_request(&self, client: &Client, mailbox_id: i32) -> (r: Result<
        PreparedRequest,
        HelpScoutError,
    >)
        ensures
            spec_prepared(
                *client,
                HttpMethod::Get,
                "mailboxes/"@ + spec_idec(mailbox_id as int) + "/customers.json"@,
                self.spec_pairs(),
                None::<Seq<char>>,
                r,
            ),
    {
        let path = crate::api::id_path("mailboxes/", mailbox_id, "/customers.json");
        client.get(path.as_str(), &self.query_pairs())
    }
}

/// Prepares the request that fetches one customer.
pub fn get_request(client: &Client, id: i32) -> (r: Result<PreparedRequest, HelpScoutError>)
    ensures
        spec_prepared(
            *client,
            HttpMethod::Get,
            "customers/"@ + spec_idec(id as int) + ".json"@,
            Seq::<(Seq<char>, Seq<char>)>::empty(),
            None::<Seq<char>>,
            r,
        ),
{
    let path = crate::api::id_path("customers/", id, ".json");
    let none: Vec<(String, String)> = Vec::new();
    proof {
        assert(views_of_pairs(none@) =~= Seq::<(Seq<char>, Seq<char>)>::empty());
    }
    client.get(path.as_str(), &none)
}

/// Starts a customer creation with the required fields.
pub fn create(first_name: &str, last_name: &str, emails: Vec<CustomerEmail>) -> (r: NewCustomer)
    ensures
        r.first_name@ == first_name@,
        r.last_name@ == last_name@,
        r.emails == emails,
        r.organization is None,
        r.job_title is None,
        r.background is None,
        r.address is None,
        r.social_profiles is None,
        r.phones is None,
        r.chats is None,
        r.websites is None,
{
    NewCustomer::new(first_name, last_name, emails)
}

/// Starts a customer update with the required fields.
pub fn update(first_name: &str, last_name: &str, emails: Vec<CustomerEmail>) -> (r:
    UpdatedCustomer)
    ensures
        r.first_name@ == first_name@,
        r.last_name@ == last_name@,
        r.emails == emails,
        r.organization is None,
        r.job_title is None,
        r.background is None,
        r.address is None,
        r.social_profiles is None,
        r.phones is None,
        r.chats is None,
        r.websites is None,
{
    UpdatedCustomer::new(first_name, last_name, emails)
}

/// Prepares the request that posts a new customer; the body is the
/// customer record, already serialized as JSON.
pub fn create_request(client: &Client, body: String) -> (r: Result<
    PreparedRequest,
    HelpScoutError,
>)
    ensures
        spec_prepared(
            *client,
            HttpMethod::Post,
            "customers.json"@,
            Seq::<(Seq<char>, Seq<char>)>::empty(),
            Some(body@),
            r,
        ),
{
    let none: Vec<(String, String)> = Vec::new();
    proof {
        assert(views_of_pairs(none@) =~= Seq::<(Seq<char>, Seq<char>)>::empty());
    }
    client.post("customers.json", &none, Some(body))
}

/// Prepares the request that puts an updated customer; the body is the
/// customer record, already serialized as JSON.
pub fn update_request(client: &Client, id: i32, body: String) -> (r: Result<
    PreparedRequest,
    HelpScoutError,
>)
    ensures
        spec_prepared(
            *client,
            HttpMethod::Put,
            "customers/"@ + spec_idec(id as int) + ".json"@,
            Seq::<(Seq<char>, Seq<char>)>::empty(),
            Some(body@),
            r,
        ),
{
    let path = crate::api::id_path("customers/", id, ".json");
    let none: Vec<(String, String)> = Vec::new();
    proof {
        assert(views_of_pairs(none@) =~= Seq::<(Seq<char>, Seq<char>)>::empty());
    }
    client.put(path.as_str(), &none, Some(body))
}

/// A customer being created.
#[derive(Debug, Clone, PartialEq, Eq)]
pub struct NewCustomer {
    pub first_name: String,
    pub last_name: String,
    pub emails: Vec<CustomerEmail>,
    pub organization: Option<String>,
    pub job_title: Option<String>,
    pub background: Option<String>,
    pub address: Option<CustomerAddress>,
    pub social_profiles: Option<Vec<CustomerSocialProfile>>,
    pub phones: Option<Vec<CustomerPhone>>,
    pub chats: Option<Vec<CustomerChat>>,
    pub websites: Option<Vec<CustomerWebsite>>,
}

impl NewCustomer {
    /// A new customer with the required fields and nothing optional.
    pub fn new(first_name: &str, last_name: &str, emails: Vec<CustomerEmail>) -> (r: NewCustomer)
        ensures
            r.first_name@ == first_name@,
            r.last_name@ == last_name@,
            r.emails == emails,
            r.organization is None,
            r.job_title is None,
            r.background is None,
            r.address is None,
            r.social_profiles is None,
            r.phones is None,
            r.chats is None,
            r.websites is None,
    {
        NewCustomer {
            first_name: String::from_str(first_name),
            last_name: String::from_str(last_name),
            emails,
            organization: None,
            job_title: None,
            background: None,
            address: None,
            social_profiles: None,
            phones: None,
            chats: None,
            websites: None,
        }
    }

    /// Set the organization.
    pub fn organization(self, organization: &str) -> (r: Self)
        ensures
            r == (Self { organization: r.organization, ..self }),
            r.organization matches Some(v) && v@ == organization@,
    {
        Self { organization: Some(String::from_str(organization)), ..self }
    }

    /// Set the job title.
    pub fn job_title(self, job_title: &str) -> (r: Self)
        ensures
            r == (Self { job_title: r.job_title, ..self }),
            r.job_title matches Some(v) && v@ == job_title@,
    {
        Self { job_title: Some(String::from_str(job_title)), ..self }
    }

    /// Set the background note.
    pub fn background(self, background: &str) -> (r: Self)
        ensures
            r == (Self { background: r.background, ..self }),
            r.background matches Some(v) && v@ == background@,
    {
        Self { background: Some(String::from_str(background)), ..self }
    }

    /// Set the postal address.
    pub fn address(self, address: CustomerAddress) -> (r: Self)
        ensures
            r == (Self { address: Some(address), ..self }),
    {
        Self { address: Some(address), ..self }
    }

    /// Set the social profiles.
    pub fn social_profiles(self, social_profiles: Vec<CustomerSocialProfile>) -> (r: Self)
        ensures
            r == (Self { social_profiles: Some(social_profiles), ..self }),
    {
        Self { social_profiles: Some(social_profiles), ..self }
    }

    /// Set the phone numbers.
    pub fn phones(self, phones: Vec<CustomerPhone>) -> (r: Self)
        ensures
            r == (Self { phones: Some(phones), ..self }),
    {
        Self { phones: Some(phones), ..self }
    }

    /// Set the chat handles.
    pub fn chats(self, chats: Vec<CustomerChat>) -> (r: Self)
        ensures
            r == (Self { chats: Some(chats), ..self }),
    {
        Self { chats: Some(chats), ..self }
    }

    /// Set the websites.
    pub fn websites(self, websites: Vec<CustomerWebsite>) -> (r: Self)
        ensures
            r == (Self { websites: Some(websites), ..self }),
    {
        Self { websites: Some(websites), ..self }
    }
}

/// A customer being updated.
#[derive(Debug, Clone, PartialEq, Eq)]
pub struct UpdatedCustomer {
    pub first_name: String,
    pub last_name: String,
    pub emails: Vec<CustomerEmail>,
    pub organization: Option<String>,
    pub job_title: Option<String>,
    pub background: Option<String>,
    pub address: Option<CustomerAddress>,
    pub social_profiles: Option<Vec<CustomerSocialProfile>>,
    pub phones: Option<Vec<CustomerPhone>>,
    pub chats: Option<Vec<CustomerChat>>,
    pub websites: Option<Vec<CustomerWebsite>>,
}

impl UpdatedCustomer {
    /// An update with the required fields and nothing optional.
    pub fn new(first_name: &str, last_name: &str, emails: Vec<CustomerEmail>) -> (r:
        UpdatedCustomer)
        ensures
            r.first_name@ == first_name@,
            r.last_name@ == last_name@,
            r.emails == emails,
            r.organization is None,
            r.job_title is None,
            r.background is None,
            r.address is None,
            r.social_profiles is None,
            r.phones is None,
            r.chats is None,
            r.websites is None,
    {
        UpdatedCustomer {
            first_name: String::from_str(first_name),
            last_name: String::from_str(last_name),
            emails,
            organization: None,
            job_title: None,
            background: None,
            address: None,
            social_profiles: None,
            phones: None,
            chats: None,
            websites: None,
        }
    }

    /// Replace the first name.
    pub fn first_name(self, first_name: &str) -> (r: Self)
        ensures
            r == (Self { first_name: r.first_name, ..self }),
            r.first_name@ == first_name@,
    {
        Self { first_name: String::from_str(first_name), ..self }
    }

    /// Replace the last name.
    pub fn last_name(self, last_name: &str) -> (r: Self)
        ensures
            r == (Self { last_name: r.last_name, ..self }),
            r.last_name@ == last_name@,
    {
        Self { last_name: String::from_str(last_name), ..self }
    }

    /// Replace the email records.
    pub fn email(self, emails: Vec<CustomerEmail>) -> (r: Self)
        ensures
            r == (Self { emails, ..self }),
    {
        Self { emails: emails, ..self }
    }

    /// Set the organization.
    pub fn organization(self, organization: &str) -> (r: Self)
        ensures
            r == (Self { organization: r.organization, ..self }),
            r.organization matches Some(v) && v@ == organization@,
    {
        Self { organization: Some(String::from_str(organization)), ..self }
    }

    /// Set the job title.
    pub fn job_title(self, job_title: &str) -> (r: Self)
        ensures
            r == (Self { job_title: r.job_title, ..self }),
            r.job_title matches Some(v) && v@ == job_title@,
    {
        Self { job_title: Some(String::from_str(job_title)), ..self }
    }

    /// Set the background note.
    pub fn background(self, background: &str) -> (r: Self)
        ensures
            r == (Self { background: r.background, ..self }),
            r.background matches Some(v) && v@ == background@,
    {
        Self { background: Some(String::from_str(background)), ..self }
    }

    /// Set the postal address.
    pub fn address(self, address: CustomerAddress) -> (r: Self)
        ensures
            r == (Self { address: Some(address), ..self }),
    {
        Self { address: Some(address), ..self }
    }

    /// Set the social profiles.
    pub fn social_profiles(self, social_profiles: Vec<CustomerSocialProfile>) -> (r: Self)
        ensures
            r == (Self { social_profiles: Some(social_profiles), ..self }),
    {
        Self { social_profiles: Some(social_profiles), ..self }
    }

    /// Set the phone numbers.
    pub fn phones(self, phones: Vec<CustomerPhone>) -> (r: Self)
        ensures
            r == (Self { phones: Some(phones), ..self }),
    {
        Self { phones: Some(phones), ..self }
    }

    /// Set the chat handles.
    pub fn chats(self, chats: Vec<CustomerChat>) -> (r: Self)
        ensures
            r == (Self { chats: Some(chats), ..self }),
    {
        Self { chats: Some(chats), ..self }
    }

    /// Set the websites.
    pub fn websites(self, websites: Vec<CustomerWebsite>) -> (r: Self)
        ensures
            r == (Self { websites: Some(websites), ..self }),
    {
        Self { websites: Some(websites), ..self }
    }
}

} // verus!
