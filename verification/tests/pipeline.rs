use helpscout::{
    AttemptResponse, CallOutcome, CallSuccess, Client, HelpScoutError, Status, Step,
};

fn resp(status: u16, body: &str) -> AttemptResponse {
    AttemptResponse { status, body: body.to_string() }
}

const OK_BODY: &str = "{\"code\":null,\"error\":\"\",\"id\":5}";

#[test]
fn success_returns_the_json_body_unchanged() {
    let client = Client::new("key");
    let outcome = client.execute(&vec![resp(200, OK_BODY)]);
    assert_eq!(
        outcome,
        Some((CallOutcome::Success(CallSuccess::Json(OK_BODY.to_string())), 1))
    );
}

#[test]
fn created_also_succeeds() {
    let client = Client::new("key");
    let outcome = client.execute(&vec![resp(201, OK_BODY)]);
    assert_eq!(
        outcome,
        Some((CallOutcome::Success(CallSuccess::Json(OK_BODY.to_string())), 1))
    );
}

#[test]
fn success_without_json_body_is_a_bare_acceptance() {
    let client = Client::new("key");
    let outcome = client.execute(&vec![resp(200, "")]);
    assert_eq!(outcome, Some((CallOutcome::Success(CallSuccess::Accepted), 1)));
}

fn mapped_error(status: u16, report: Status) -> HelpScoutError {
    match status {
        400 => HelpScoutError::BadRequest(report),
        401 => HelpScoutError::UnauthorizedKey(report),
        403 => HelpScoutError::Forbidden(report),
        404 => HelpScoutError::UserNotFound(report),
        429 => HelpScoutError::TooManyRequests(report),
        500 => HelpScoutError::InternalServerError(report),
        other => panic!("not a mapped status: {}", other),
    }
}

#[test]
fn mapped_statuses_return_their_typed_error_with_the_report() {
    let client = Client::new("key");
    let body = "{\"code\":29,\"error\":\"Embedded error\"}";
    for status in [400u16, 401, 403, 404, 429, 500] {
        let outcome = client.execute(&vec![resp(status, body)]);
        let expected = mapped_error(
            status,
            Status { code: Some(29), error: "Embedded error".to_string() },
        );
        assert_eq!(outcome, Some((CallOutcome::Failure(expected), 1)));
    }
}

#[test]
fn mapped_status_with_undecodable_report_is_a_parse_error() {
    let client = Client::new("key");
    // Valid JSON, but no string `error` field to decode a report from.
    let outcome = client.execute(&vec![resp(400, "{\"id\":7}")]);
    match outcome {
        Some((CallOutcome::Failure(HelpScoutError::JsonParseError(_)), 1)) => {}
        other => panic!("expected a JsonParseError after one attempt, got {:?}", other),
    }
}

#[test]
fn out_of_range_code_is_a_parse_error() {
    let client = Client::new("key");
    let outcome = client.execute(&vec![resp(400, "{\"code\":4294967296,\"error\":\"x\"}")]);
    match outcome {
        Some((CallOutcome::Failure(HelpScoutError::JsonParseError(_)), 1)) => {}
        other => panic!("expected a JsonParseError after one attempt, got {:?}", other),
    }
}

#[test]
fn unmapped_status_on_json_body_is_reported_as_unmapped() {
    let client = Client::new("key");
    let outcome = client.execute(&vec![resp(418, "{\"error\":\"odd\"}")]);
    assert_eq!(outcome, Some((CallOutcome::Unmapped(418), 1)));
}

#[test]
fn non_json_body_on_unrecognized_status_is_invalid_server_response() {
    let client = Client::new("key");
    let outcome = client.execute(&vec![resp(404, "<html>gone</html>")]);
    assert_eq!(
        outcome,
        Some((CallOutcome::Failure(HelpScoutError::InvalidServerResponse), 1))
    );
}

#[test]
fn unavailability_exhausts_exactly_the_retry_budget() {
    let mut client = Client::new("key");
    client.retry_count = 3;
    let transcript = vec![resp(503, ""), resp(503, ""), resp(503, ""), resp(200, OK_BODY)];
    let outcome = client.execute(&transcript);
    // Three attempts allowed, all 503 with unstructured bodies: the success
    // waiting at the fourth response is never requested.
    assert_eq!(
        outcome,
        Some((CallOutcome::Failure(HelpScoutError::ServiceUnavailable), 3))
    );
}

#[test]
fn late_success_is_returned_without_spending_the_rest_of_the_budget() {
    let mut client = Client::new("key");
    client.retry_count = 3;
    let transcript = vec![resp(503, ""), resp(503, ""), resp(200, OK_BODY)];
    let outcome = client.execute(&transcript);
    assert_eq!(
        outcome,
        Some((CallOutcome::Success(CallSuccess::Json(OK_BODY.to_string())), 3))
    );
}

#[test]
fn unavailable_with_json_body_fails_hard_instead_of_retrying() {
    let client = Client::new("key");
    let outcome = client.execute(&vec![resp(503, "{\"error\":\"down\"}")]);
    assert_eq!(outcome, Some((CallOutcome::Unmapped(503), 1)));
}

#[test]
fn retry_budget_of_two_gives_up_before_a_third_attempt() {
    // The example tunables: two attempts allowed, ten milliseconds between
    // them; the success on the third response arrives too late.
    let mut client = Client::new("key");
    client.retry_count = 2;
    client.retry_wait = 10;
    let transcript = vec![resp(503, ""), resp(503, ""), resp(200, OK_BODY)];
    let outcome = client.execute(&transcript);
    assert_eq!(
        outcome,
        Some((CallOutcome::Failure(HelpScoutError::ServiceUnavailable), 2))
    );
}

#[test]
fn each_retry_step_carries_the_configured_wait() {
    let mut client = Client::new("key");
    client.retry_count = 3;
    client.retry_wait = 10;
    let state = client.start_attempts();
    match client.on_response(state, resp(503, "")) {
        Step::Retry { next, wait_ms } => {
            assert_eq!(wait_ms, 10);
            assert_eq!(next.remaining, 2);
            match client.on_response(next, resp(503, "")) {
                Step::Retry { next, wait_ms } => {
                    assert_eq!(wait_ms, 10);
                    assert_eq!(next.remaining, 1);
                    match client.on_response(next, resp(503, "")) {
                        Step::Done(CallOutcome::Failure(
                            HelpScoutError::ServiceUnavailable,
                        )) => {}
                        other => panic!("expected exhaustion, got {:?}", other),
                    }
                }
                other => panic!("expected a second retry, got {:?}", other),
            }
        }
        other => panic!("expected a first retry, got {:?}", other),
    }
}

#[test]
fn config_change_between_calls_affects_only_the_later_call() {
    let mut client = Client::new("key");
    client.retry_count = 3;
    let transcript = vec![resp(503, ""), resp(200, OK_BODY)];
    let first = client.execute(&transcript);
    assert_eq!(
        first,
        Some((CallOutcome::Success(CallSuccess::Json(OK_BODY.to_string())), 2))
    );
    client.retry_count = 1;
    client.retry_wait = 1;
    let second = client.execute(&transcript);
    assert_eq!(
        second,
        Some((CallOutcome::Failure(HelpScoutError::ServiceUnavailable), 1))
    );
}

#[test]
fn execute_reports_nothing_when_the_transcript_runs_dry() {
    let client = Client::new("key");
    assert_eq!(client.execute(&vec![]), None);
    assert_eq!(client.execute(&vec![resp(503, "")]), None);
}

#[test]
fn new_client_has_the_documented_defaults() {
    let client = Client::new("key");
    assert_eq!(client.retry_count, 3);
    assert_eq!(client.retry_wait, 250);
}
