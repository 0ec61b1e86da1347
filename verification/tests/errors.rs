use helpscout::api::person::Person;
use helpscout::{HelpScoutError, Status};

#[test]
fn descriptions_name_each_condition() {
    let report = Status { code: Some(29), error: "Embedded error".to_string() };
    assert_eq!(HelpScoutError::BadRequest(report.clone()).description(), "400 bad request");
    assert_eq!(
        HelpScoutError::UnauthorizedKey(report.clone()).description(),
        "401 unauthorized"
    );
    assert_eq!(HelpScoutError::Forbidden(report.clone()).description(), "403 forbidden");
    assert_eq!(HelpScoutError::UserNotFound(report.clone()).description(), "404 not found");
    assert_eq!(
        HelpScoutError::TooManyRequests(report.clone()).description(),
        "429 too many requests"
    );
    assert_eq!(
        HelpScoutError::InternalServerError(report.clone()).description(),
        "500 internal server error"
    );
    assert_eq!(HelpScoutError::ServiceUnavailable.description(), "503 service unavailable");
    assert_eq!(HelpScoutError::IoError("x".to_string()).description(), "IO error");
    assert_eq!(
        HelpScoutError::JsonParseError("x".to_string()).description(),
        "JSON parse error"
    );
    assert_eq!(HelpScoutError::RequestError("x".to_string()).description(), "Request error");
    assert_eq!(
        HelpScoutError::RequestUrlError("x".to_string()).description(),
        "Request URL error"
    );
    assert_eq!(
        HelpScoutError::RequestUrlEncodeError("x".to_string()).description(),
        "Request URL Encode error"
    );
    assert_eq!(
        HelpScoutError::InvalidServerResponse.description(),
        "Invalid server response"
    );
}

#[test]
fn display_strings_carry_the_payload() {
    let report = Status { code: Some(29), error: "Embedded error".to_string() };
    assert_eq!(
        HelpScoutError::BadRequest(report.clone()).display_string(),
        "Bad Request: Embedded error"
    );
    assert_eq!(
        HelpScoutError::UserNotFound(report).display_string(),
        "User Not Found: Embedded error"
    );
    assert_eq!(
        HelpScoutError::ServiceUnavailable.display_string(),
        "Service Unavailable reported by helpscout service"
    );
    assert_eq!(
        HelpScoutError::JsonParseError("bad token".to_string()).display_string(),
        "Json parsing error: bad token"
    );
    assert_eq!(
        HelpScoutError::InvalidServerResponse.display_string(),
        "Server returned an invalid response"
    );
}

#[test]
fn a_fresh_person_knows_only_its_id() {
    let person = Person::new(17);
    assert_eq!(person.id, 17);
    assert_eq!(person.first_name, None);
    assert_eq!(person.last_name, None);
    assert_eq!(person.email, None);
    assert_eq!(person.emails, None);
    assert_eq!(person.phone, None);
    assert_eq!(person.photo_url, None);
}
