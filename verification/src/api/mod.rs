//! The resource modules of the remote service, one per endpoint family,
//! with the entry points that start a parameter builder.

use vstd::prelude::*;

pub mod conversations;
pub mod customers;
pub mod mailboxes;
pub mod person;
pub mod reports;
pub mod tags;
pub mod teams;
pub mod users;

use crate::date_format::Timestamp;
use crate::text::{i32_to_string, spec_idec};

use self::customers::CustomersListParamBuilder;
use self::reports::ReportBuilder;
use self::teams::TeamsBuilder;
use self::users::UsersBuilder;

verus! {

/// A path of the form `prefix<id>suffix`, the id in decimal.
pub(crate) fn id_path(prefix: &str, id: i32, suffix: &str) -> (r: String)
    ensures
        r@ == prefix@ + spec_idec(id as int) + suffix@,
{
    let r = String::from_str(prefix).concat(i32_to_string(id).as_str()).concat(suffix);
    proof {
        assert(r@ =~= prefix@ + spec_idec(id as int) + suffix@);
    }
    r
}

/// Starts a user listing.
pub fn users() -> (r: UsersBuilder)
    ensures
        r.page is None,
        r.user_type is None,
{
    UsersBuilder::default()
}

/// Starts a team listing.
pub fn teams() -> (r: TeamsBuilder)
    ensures
        r.page is None,
{
    TeamsBuilder::default()
}

/// Starts a customer listing.
pub fn customers() -> (r: CustomersListParamBuilder)
    ensures
        r.first_name is None,
        r.last_name is None,
        r.email is None,
        r.modified_since is None,
        r.page is None,
{
    CustomersListParamBuilder::default()
}

/// Starts a report over the given time range.
pub fn report(start: Timestamp, end: Timestamp) -> (r: ReportBuilder)
    ensures
        r.start == start,
        r.end == end,
{
    ReportBuilder::new(start, end)
}

} // verus!
