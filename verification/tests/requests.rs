use helpscout::api::reports::conversations::ConvReportViewByType;
use helpscout::api::users::UserType;
use helpscout::api::{conversations, customers, mailboxes, report, tags, teams, users};
use helpscout::{Client, HttpMethod, Timestamp};

const BASE: &str = "https://api.helpscout.net/v1";

#[test]
fn auth_header_is_basic_with_the_key_and_filler_password() {
    let client = Client::new("abc");
    // base64 of `abc:X`
    assert_eq!(client.auth_header(), "Basic YWJjOlg=");
}

#[test]
fn timestamps_render_in_iso_second_format() {
    let t = Timestamp::new(2018, 1, 31, 19, 6, 48);
    assert_eq!(t.render(), "2018-01-31T19:06:48Z");
    let t = Timestamp::new(912, 12, 3, 0, 0, 7);
    assert_eq!(t.render(), "0912-12-03T00:00:07Z");
}

#[test]
fn user_list_request_carries_page_and_type() {
    let client = Client::new("key");
    let req = users().page(2).user_type(UserType::Team).list_request(&client).unwrap();
    assert_eq!(req.method, HttpMethod::Get);
    assert_eq!(req.url, format!("{}/users.json?page=2&type=team", BASE));
    assert_eq!(req.body, None);
    assert_eq!(req.auth, client.auth_header());
}

#[test]
fn user_get_request_names_the_user() {
    let client = Client::new("key");
    let req = users().get_request(&client, 123).unwrap();
    assert_eq!(req.url, format!("{}/users/123.json?", BASE));
}

#[test]
fn users_by_mailbox_request_names_the_mailbox() {
    let client = Client::new("key");
    let req = users().list_by_mailbox_request(&client, 85).unwrap();
    assert_eq!(req.url, format!("{}/mailboxes/85/users.json?", BASE));
}

#[test]
fn team_requests_follow_the_team_paths() {
    let client = Client::new("key");
    let req = teams().page(1).list_request(&client).unwrap();
    assert_eq!(req.url, format!("{}/teams.json?page=1", BASE));
    let req = teams().get_request(&client, 9).unwrap();
    assert_eq!(req.url, format!("{}/teams/9.json?", BASE));
    let req = teams().list_team_members_request(&client, 9).unwrap();
    assert_eq!(req.url, format!("{}/teams/9/members.json?", BASE));
}

#[test]
fn mailbox_requests_follow_the_mailbox_paths() {
    let client = Client::new("key");
    assert_eq!(
        mailboxes::list_request(&client).unwrap().url,
        format!("{}/mailboxes.json?", BASE)
    );
    assert_eq!(
        mailboxes::get_request(&client, 4).unwrap().url,
        format!("{}/mailboxes/4.json?", BASE)
    );
    assert_eq!(
        mailboxes::get_folders_request(&client, 4).unwrap().url,
        format!("{}/mailboxes/4/folders.json?", BASE)
    );
}

#[test]
fn tag_listing_uses_the_tags_path() {
    let client = Client::new("key");
    assert_eq!(tags::list_request(&client).unwrap().url, format!("{}/tags.json?", BASE));
}

#[test]
fn customer_listing_serializes_its_filters_in_camel_case() {
    let client = Client::new("key");
    let params = customers()
        .first_name("Mega")
        .last_name("Dog")
        .email("guh@example.com")
        .modified_since(Timestamp::new(2018, 1, 2, 3, 4, 5))
        .page(1);
    let req = params.list_request(&client).unwrap();
    assert_eq!(
        req.url,
        format!(
            "{}/customers.json?firstName=Mega&lastName=Dog&email=guh%40example.com&modifiedSince=2018-01-02T03%3A04%3A05Z&page=1",
            BASE
        )
    );
    let req = params.list_by_mailbox_request(&client, 7).unwrap();
    assert!(req.url.starts_with(&format!("{}/mailboxes/7/customers.json?", BASE)));
}

#[test]
fn customer_create_and_update_requests_carry_the_body() {
    let client = Client::new("key");
    let req = customers::create_request(&client, "{\"firstName\":\"Mega\"}".to_string()).unwrap();
    assert_eq!(req.method, HttpMethod::Post);
    assert_eq!(req.url, format!("{}/customers.json?", BASE));
    assert_eq!(req.body, Some("{\"firstName\":\"Mega\"}".to_string()));
    let req = customers::update_request(&client, 31, "{}".to_string()).unwrap();
    assert_eq!(req.method, HttpMethod::Put);
    assert_eq!(req.url, format!("{}/customers/31.json?", BASE));
    assert_eq!(req.body, Some("{}".to_string()));
}

#[test]
fn customer_builders_accumulate_their_fields() {
    let new_customer = customers::create("Mega", "Dog", vec![]);
    let new_customer = new_customer.organization("megadog inc").job_title("MegaDoge");
    assert_eq!(new_customer.first_name, "Mega");
    assert_eq!(new_customer.last_name, "Dog");
    assert_eq!(new_customer.organization, Some("megadog inc".to_string()));
    assert_eq!(new_customer.job_title, Some("MegaDoge".to_string()));
    assert_eq!(new_customer.background, None);

    let updated = customers::update("UPDATEDTEST", "Dog", vec![])
        .organization("DOGS")
        .background("UPDATEDTEST");
    assert_eq!(updated.first_name, "UPDATEDTEST");
    assert_eq!(updated.organization, Some("DOGS".to_string()));
    assert_eq!(updated.background, Some("UPDATEDTEST".to_string()));
}

#[test]
fn conversation_listing_names_the_mailbox_and_filters() {
    let client = Client::new("key");
    let params = conversations::ConversationListParamBuilder::new()
        .status("active")
        .tag("vip")
        .page(3);
    let req = conversations::list_request(&client, 52, &params).unwrap();
    assert_eq!(
        req.url,
        format!("{}/mailboxes/52/conversations.json?status=active&tag=vip&page=3", BASE)
    );
}

#[test]
fn conversation_requests_follow_the_conversation_paths() {
    let client = Client::new("key");
    assert_eq!(
        conversations::get_request(&client, 8).unwrap().url,
        format!("{}/conversations/8.json?", BASE)
    );
    assert_eq!(
        conversations::delete_request(&client, 8).unwrap().url,
        format!("{}/conversations/8.json?", BASE)
    );
    assert_eq!(
        conversations::get_attachment_data_request(&client, 6).unwrap().url,
        format!("{}/attachments/6/data.json?", BASE)
    );
    let req = conversations::create_request(&client, "{}".to_string()).unwrap();
    assert_eq!(req.method, HttpMethod::Post);
    assert_eq!(req.url, format!("{}/conversations.json?", BASE));
}

#[test]
fn conversations_report_serializes_range_and_filters() {
    let client = Client::new("key");
    let start = Timestamp::new(2018, 1, 1, 0, 0, 0);
    let end = Timestamp::new(2018, 2, 1, 0, 0, 0);
    let req = report(start, end)
        .conversations()
        .set_mailboxes("1,2".to_string())
        .set_view_by(ConvReportViewByType::Day)
        .overall_request(&client)
        .unwrap();
    assert_eq!(
        req.url,
        format!(
            "{}/reports/conversations.json?start=2018-01-01T00%3A00%3A00Z&end=2018-02-01T00%3A00%3A00Z&mailboxes=1%2C2&viewBy=day",
            BASE
        )
    );
    let req = report(start, end).conversations().busy_times_request(&client).unwrap();
    assert!(req.url.starts_with(&format!("{}/reports/conversations/busy-times.json?", BASE)));
    let req = report(start, end)
        .conversations()
        .set_page(1)
        .set_rows(50)
        .drill_down_request(&client)
        .unwrap();
    assert!(req.url.contains("page=1&rows=50"));
    assert!(req.url.starts_with(&format!("{}/reports/conversations/drilldown.json?", BASE)));
}

#[test]
fn productivity_and_user_reports_follow_their_paths() {
    let client = Client::new("key");
    let start = Timestamp::new(2018, 1, 1, 0, 0, 0);
    let end = Timestamp::new(2018, 2, 1, 0, 0, 0);
    let req = report(start, end).productivity().overall_request(&client).unwrap();
    assert!(req.url.starts_with(&format!("{}/reports/productivity.json?", BASE)));
    let req = report(start, end)
        .user()
        .set_office_hours(true)
        .overall_request(&client, 42)
        .unwrap();
    assert!(req.url.starts_with(&format!("{}/reports/user.json?", BASE)));
    assert!(req.url.contains("user=42"));
    assert!(req.url.contains("office_hours=1"));
}
