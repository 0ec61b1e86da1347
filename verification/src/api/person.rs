//! People as the service reports them: owners, customers, and thread
//! authors.

use vstd::prelude::*;

verus! {

/// Which kind of account a person record stands for.
#[derive(Debug, Clone, Copy, PartialEq, Eq)]
pub enum PersonType {
    User,
    Customer,
    Team,
}

/// One person, as embedded in conversations and threads.
#[derive(Debug, Clone, PartialEq, Eq)]
pub struct Person {
    pub id: i32,
    pub first_name: Option<String>,
    pub last_name: Option<String>,
    pub email: Option<String>,
    pub emails: Option<Vec<String>>,
    pub phone: Option<String>,
    pub person_type: Option<PersonType>,
    pub photo_url: Option<String>,
}

impl Person {
    /// A person known only by id; every other field empty.
    pub fn new(id: i32) -> (r: Person)
        ensures
            r.id == id,
            r.first_name is None,
            r.last_name is None,
            r.email is None,
            r.emails is None,
            r.phone is None,
            r.person_type is None,
            r.photo_url is None,
    {
        Person {
            id,
            first_name: None,
            last_name: None,
            email: None,
            emails: None,
            phone: None,
            person_type: None,
            photo_url: None,
        }
    }
}

} // verus!
