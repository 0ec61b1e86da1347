//! The request pipeline: response classification and the bounded retry
//! policy for transient unavailability.
//!
//! A call against the remote service proceeds in attempts.  For each attempt
//! the caller sends the prepared request over its own transport and hands
//! the resulting HTTP status and body text back to the client, which
//! classifies the response:
//!
//! * a structured (JSON) body on 200/201 is a success, returned whole;
//! * a structured body on a mapped error status becomes the matching typed
//!   error, carrying the status report decoded from the body;
//! * an unstructured body on 503 is transient unavailability and is retried,
//!   up to `retry_count` attempts in total, with `retry_wait` milliseconds
//!   between attempts;
//! * everything else fails immediately.
//!
//! The retry configuration is read once when a call starts, so changing it
//! between two calls affects only the later call.

use vstd::prelude::*;
use vstd::utf8::encode_utf8;

use crate::error::{ErrorModel, HelpScoutError};
use crate::query::{encode_query, spec_encode_query, views_of_pairs};
use crate::text::{ascii_chars_of, ascii_string, base64_encode, lemma_b64_ascii, spec_b64};

verus! {

/// Status report carried in every structured response body, success or
/// failure: `{ "code": ..., "error": ... }`.
#[derive(Debug, Clone, PartialEq, Eq)]
pub struct Status {
    pub code: Option<i32>,
    pub error: String,
}

/// Mathematical image of a [`Status`]: the error text as a character
/// sequence.
pub struct StatusModel {
    pub code: Option<i32>,
    pub error: Seq<char>,
}

impl View for Status {
    type V = StatusModel;

    open spec fn view(&self) -> StatusModel {
        StatusModel { code: self.code, error: self.error@ }
    }
}

/// What the `code` field of a response body held: absent (or `null`), an
/// integer, or something else.
#[derive(Debug, Clone, PartialEq, Eq)]
pub enum CodeField {
    Absent,
    Int(i64),
    Malformed,
}

/// What the `error` field of a response body held: a string, or anything
/// else (including a missing field).
#[derive(Debug, Clone, PartialEq, Eq)]
pub enum ErrorField {
    Text(String),
    Malformed,
}

/// Mathematical image of an [`ErrorField`].
pub enum ErrorFieldModel {
    Text(Seq<char>),
    Malformed,
}

impl View for ErrorField {
    type V = ErrorFieldModel;

    open spec fn view(&self) -> ErrorFieldModel {
        match self {
            ErrorField::Text(t) => ErrorFieldModel::Text(t@),
            ErrorField::Malformed => ErrorFieldModel::Malformed,
        }
    }
}

/// The shape of a response body: either not JSON at all, or JSON together
/// with whatever its `code` and `error` fields held.
#[derive(Debug, Clone, PartialEq, Eq)]
pub enum BodyShape {
    NotJson,
    Json(CodeField, ErrorField),
}

/// Mathematical image of a [`BodyShape`].
pub enum ShapeModel {
    NotJson,
    Json(CodeField, ErrorFieldModel),
}

impl View for BodyShape {
    type V = ShapeModel;

    open spec fn view(&self) -> ShapeModel {
        match self {
            BodyShape::NotJson => ShapeModel::NotJson,
            BodyShape::Json(c, e) => ShapeModel::Json(*c, e@),
        }
    }
}

/// The shape that parsing a given body text yields.  Parsing is a function
/// of the text alone, so the shape can be named without being spelled out.
pub uninterp spec fn body_shape_of(body: Seq<char>) -> ShapeModel;

/// Relies on `serde_json::from_str::<Value>` to decide whether the body is
/// JSON at all, and on `Value::get`, `Value::as_i64` and `Value::as_str` to
/// read the `code` and `error` fields out of the parsed value; each of them
/// depends on the body text alone.  `get` returns `None` on a non-object
/// value or a missing key.
#[verifier::external_body]
fn parse_body(body: &str) -> (r: BodyShape)
    ensures
        r@ == body_shape_of(body@),
{
    let v: serde_json::Value = match serde_json::from_str(body) {
        Ok(v) => v,
        Err(_) => return BodyShape::NotJson,
    };
    let code = match v.get("code") {
        None | Some(serde_json::Value::Null) => CodeField::Absent,
        Some(c) => c.as_i64().map_or(CodeField::Malformed, CodeField::Int),
    };
    let error = match v.get("error").and_then(|e| e.as_str()) {
        Some(s) => ErrorField::Text(s.to_string()),
        None => ErrorField::Malformed,
    };
    BodyShape::Json(code, error)
}

/// The status report decoded from the `code` and `error` fields, or the
/// message explaining why no report could be decoded.  A report needs a
/// string `error` field and a `code` that is absent, `null`, or an integer
/// that fits an `i32`.
pub open spec fn spec_envelope(code: CodeField, error: ErrorFieldModel) -> Result<
    StatusModel,
    Seq<char>,
> {
    match error {
        ErrorFieldModel::Malformed => Err("response status report was not decodable"@),
        ErrorFieldModel::Text(t) => match code {
            CodeField::Absent => Ok(StatusModel { code: None, error: t }),
            CodeField::Int(i) => if i32::MIN <= i <= i32::MAX {
                Ok(StatusModel { code: Some(i as i32), error: t })
            } else {
                Err("response status report was not decodable"@)
            },
            CodeField::Malformed => Err("response status report was not decodable"@),
        },
    }
}

/// Decodes the status report out of a structured body's fields.
fn envelope(code: CodeField, error: ErrorField) -> (r: Result<Status, String>)
    ensures
        r matches Ok(s) ==> spec_envelope(code, error@) matches Ok(m) && s@ == m,
        r matches Err(e) ==> spec_envelope(code, error@) matches Err(m) && e@ == m,
{
    match error {
        ErrorField::Malformed => Err(String::from_str("response status report was not decodable")),
        ErrorField::Text(t) => match code {
            CodeField::Absent => Ok(Status { code: None, error: t }),
            CodeField::Int(i) => if i32::MIN as i64 <= i && i <= i32::MAX as i64 {
                Ok(Status { code: Some(i as i32), error: t })
            } else {
                Err(String::from_str("response status report was not decodable"))
            },
            CodeField::Malformed => Err(
                String::from_str("response status report was not decodable"),
            ),
        },
    }
}

/// The payload of a successful call: the JSON body text, or a bare marker
/// when the service answered 200/201 without a structured body.
#[derive(Debug, Clone, PartialEq, Eq)]
pub enum CallSuccess {
    Json(String),
    Accepted,
}

/// Mathematical image of a [`CallSuccess`].
pub enum SuccessModel {
    Json(Seq<char>),
    Accepted,
}

impl View for CallSuccess {
    type V = SuccessModel;

    open spec fn view(&self) -> SuccessModel {
        match self {
            CallSuccess::Json(b) => SuccessModel::Json(b@),
            CallSuccess::Accepted => SuccessModel::Accepted,
        }
    }
}

/// How a whole call ended.  `Unmapped` reports an HTTP status outside the
/// remote service's documented set on a structured body; the service treats
/// that as a defect, so drivers are expected to abort on it rather than
/// continue.
#[derive(Debug, Clone, PartialEq, Eq)]
pub enum CallOutcome {
    Success(CallSuccess),
    Failure(HelpScoutError),
    Unmapped(u16),
}

/// Mathematical image of a [`CallOutcome`].
pub enum OutcomeModel {
    Success(SuccessModel),
    Failure(ErrorModel),
    Unmapped(u16),
}

impl View for CallOutcome {
    type V = OutcomeModel;

    open spec fn view(&self) -> OutcomeModel {
        match self {
            CallOutcome::Success(s) => OutcomeModel::Success(s@),
            CallOutcome::Failure(e) => OutcomeModel::Failure(e@),
            CallOutcome::Unmapped(s) => OutcomeModel::Unmapped(*s),
        }
    }
}

/// What one attempt decides before retry accounting: finish with an
/// outcome, or try again.
#[derive(Debug, Clone, PartialEq, Eq)]
pub enum Decision {
    Finish(CallOutcome),
    TryAgain,
}

/// Mathematical image of a [`Decision`].
pub enum DecisionModel {
    Finish(OutcomeModel),
    TryAgain,
}

impl View for Decision {
    type V = DecisionModel;

    open spec fn view(&self) -> DecisionModel {
        match self {
            Decision::Finish(o) => DecisionModel::Finish(o@),
            Decision::TryAgain => DecisionModel::TryAgain,
        }
    }
}

/// The six remote error statuses that map to typed errors.
pub open spec fn is_mapped_status(status: u16) -> bool {
    status == 400 || status == 401 || status == 403 || status == 404 || status == 429 || status
        == 500
}

/// The typed error for one mapped status, carrying the decoded report.
pub open spec fn mapped_error(status: u16, st: StatusModel) -> ErrorModel
    recommends
        is_mapped_status(status),
{
    if status == 400 {
        ErrorModel::BadRequest(st)
    } else if status == 401 {
        ErrorModel::UnauthorizedKey(st)
    } else if status == 403 {
        ErrorModel::Forbidden(st)
    } else if status == 404 {
        ErrorModel::UserNotFound(st)
    } else if status == 429 {
        ErrorModel::TooManyRequests(st)
    } else {
        ErrorModel::InternalServerError(st)
    }
}

/// What one attempt decides, given the HTTP status, the body text, and the
/// body's parsed shape.
///
/// * Structured body: 200/201 succeed with the body; a mapped error status
///   returns its typed error with the decoded report (or `JsonParseError`
///   when no report could be decoded); any other status is unmapped.
/// * Unstructured body: 200/201 succeed bare; 503 asks for another attempt;
///   anything else is an invalid server response.
pub open spec fn spec_classify(status: u16, body: Seq<char>, shape: ShapeModel) -> DecisionModel {
    match shape {
        ShapeModel::Json(code, error) => {
            if status == 200 || status == 201 {
                DecisionModel::Finish(OutcomeModel::Success(SuccessModel::Json(body)))
            } else if is_mapped_status(status) {
                match spec_envelope(code, error) {
                    Ok(st) => DecisionModel::Finish(
                        OutcomeModel::Failure(mapped_error(status, st)),
                    ),
                    Err(m) => DecisionModel::Finish(
                        OutcomeModel::Failure(ErrorModel::JsonParseError(m)),
                    ),
                }
            } else {
                DecisionModel::Finish(OutcomeModel::Unmapped(status))
            }
        },
        ShapeModel::NotJson => {
            if status == 200 || status == 201 {
                DecisionModel::Finish(OutcomeModel::Success(SuccessModel::Accepted))
            } else if status == 503 {
                DecisionModel::TryAgain
            } else {
                DecisionModel::Finish(OutcomeModel::Failure(ErrorModel::InvalidServerResponse))
            }
        },
    }
}

/// Classifies one response from its status, body text, and parsed shape.
fn classify(status: u16, body: String, shape: BodyShape) -> (r: Decision)
    ensures
        r@ == spec_classify(status, body@, shape@),
{
    match shape {
        BodyShape::Json(code, error) => {
            if status == 200 || status == 201 {
                Decision::Finish(CallOutcome::Success(CallSuccess::Json(body)))
            } else if status == 400 || status == 401 || status == 403 || status == 404 || status
                == 429 || status == 500 {
                match envelope(code, error) {
                    Ok(st) => {
                        let err = if status == 400 {
                            HelpScoutError::BadRequest(st)
                        } else if status == 401 {
                            HelpScoutError::UnauthorizedKey(st)
                        } else if status == 403 {
                            HelpScoutError::Forbidden(st)
                        } else if status == 404 {
                            HelpScoutError::UserNotFound(st)
                        } else if status == 429 {
                            HelpScoutError::TooManyRequests(st)
                        } else {
                            HelpScoutError::InternalServerError(st)
                        };
                        Decision::Finish(CallOutcome::Failure(err))
                    },
                    Err(m) => Decision::Finish(
                        CallOutcome::Failure(HelpScoutError::JsonParseError(m)),
                    ),
                }
            } else {
                Decision::Finish(CallOutcome::Unmapped(status))
            }
        },
        BodyShape::NotJson => {
            if status == 200 || status == 201 {
                Decision::Finish(CallOutcome::Success(CallSuccess::Accepted))
            } else if status == 503 {
                Decision::TryAgain
            } else {
                Decision::Finish(CallOutcome::Failure(HelpScoutError::InvalidServerResponse))
            }
        },
    }
}

/// One response as the transport saw it: the HTTP status and the body text.
#[derive(Debug, Clone, PartialEq, Eq)]
pub struct AttemptResponse {
    pub status: u16,
    pub body: String,
}

/// Mathematical image of an [`AttemptResponse`].
pub struct RespModel {
    pub status: u16,
    pub body: Seq<char>,
}

impl View for AttemptResponse {
    type V = RespModel;

    open spec fn view(&self) -> RespModel {
        RespModel { status: self.status, body: self.body@ }
    }
}

/// The images of a whole transcript of responses.
pub open spec fn models(rs: Seq<AttemptResponse>) -> Seq<RespModel> {
    rs.map_values(|r: AttemptResponse| r@)
}

/// How many attempts a call may still make, counting the one about to be
/// classified.
#[derive(Debug, Clone, Copy, PartialEq, Eq)]
pub struct RetryState {
    pub remaining: u8,
}

/// What the driver must do after one attempt: finish with the outcome, or
/// wait `wait_ms` milliseconds and send the request again with the new
/// retry state.
#[derive(Debug, Clone, PartialEq, Eq)]
pub enum Step {
    Done(CallOutcome),
    Retry { next: RetryState, wait_ms: u16 },
}

/// Mathematical image of a [`Step`].
pub enum StepModel {
    Done(OutcomeModel),
    Retry { remaining: u8, wait_ms: u16 },
}

impl View for Step {
    type V = StepModel;

    open spec fn view(&self) -> StepModel {
        match self {
            Step::Done(o) => StepModel::Done(o@),
            Step::Retry { next, wait_ms } => StepModel::Retry {
                remaining: next.remaining,
                wait_ms: *wait_ms,
            },
        }
    }
}

/// The decision of one attempt for one response, including the body parse.
pub open spec fn spec_decide(rm: RespModel) -> DecisionModel {
    spec_classify(rm.status, rm.body, body_shape_of(rm.body))
}

/// What one attempt does to the retry state: a finished decision ends the
/// call; a retryable one ends it with `ServiceUnavailable` once this was
/// the last allowed attempt, and otherwise schedules another attempt after
/// `wait` milliseconds.
pub open spec fn spec_step(wait: u16, remaining: u8, rm: RespModel) -> StepModel
    recommends
        remaining >= 1,
{
    match spec_decide(rm) {
        DecisionModel::Finish(o) => StepModel::Done(o),
        DecisionModel::TryAgain => if remaining <= 1 {
            StepModel::Done(OutcomeModel::Failure(ErrorModel::ServiceUnavailable))
        } else {
            StepModel::Retry { remaining: (remaining - 1) as u8, wait_ms: wait }
        },
    }
}

/// The outcome of a call with `count` attempts allowed against the given
/// transcript of responses, together with the number of attempts used.
/// `None` means the transcript ended before the call did.
pub open spec fn spec_run(count: nat, rs: Seq<RespModel>) -> Option<(OutcomeModel, nat)>
    recommends
        count >= 1,
    decreases rs.len(),
{
    if rs.len() == 0 {
        None
    } else {
        match spec_decide(rs[0]) {
            DecisionModel::Finish(o) => Some((o, 1 as nat)),
            DecisionModel::TryAgain => if count <= 1 {
                Some((OutcomeModel::Failure(ErrorModel::ServiceUnavailable), 1 as nat))
            } else {
                match spec_run((count - 1) as nat, rs.drop_first()) {
                    None => None,
                    Some((o, n)) => Some((o, (n + 1) as nat)),
                }
            },
        }
    }
}

/// The HelpScout API client: the retry tunables, the base URL, and the
/// API key attached to every request.
#[derive(Debug, Clone)]
pub struct Client {
    /// How many attempts a call may make in total before a transient
    /// unavailability is reported as `ServiceUnavailable`.
    pub retry_count: u8,
    /// Milliseconds to wait between attempts.
    pub retry_wait: u16,
    api_url: String,
    api_key: String,
}

impl Client {
    /// The configured base URL as a character sequence.
    pub closed spec fn api_url_view(&self) -> Seq<char> {
        self.api_url@
    }

    /// The configured API key as a character sequence.
    pub closed spec fn api_key_view(&self) -> Seq<char> {
        self.api_key@
    }

    /// The configured number of attempts allowed per call.
    pub closed spec fn retry_count_spec(&self) -> u8 {
        self.retry_count
    }

    /// The configured wait between attempts, in milliseconds.
    pub closed spec fn retry_wait_spec(&self) -> u16 {
        self.retry_wait
    }

    /// Creates a client for the given API key, with three attempts allowed
    /// per call and 250 milliseconds between attempts.
    pub fn new(api_key: &str) -> (r: Client)
        ensures
            r.retry_count_spec() == 3,
            r.retry_wait_spec() == 250,
            r.api_url_view() == "https://api.helpscout.net/v1"@,
            r.api_key_view() == api_key@,
    {
        Client {
            retry_count: 3,
            retry_wait: 250,
            api_url: String::from_str("https://api.helpscout.net/v1"),
            api_key: String::from_str(api_key),
        }
    }

    /// Starts a call: the retry budget is read here, once, so later changes
    /// to `retry_count` leave this call untouched.  The budget must allow at
    /// least one attempt; on a zero budget the first attempt would have no
    /// outcome to report.
    pub fn start_attempts(&self) -> (r: RetryState)
        requires
            self.retry_count_spec() >= 1,
        ensures
            r.remaining == self.retry_count_spec(),
    {
        RetryState { remaining: self.retry_count }
    }

    /// Classifies one response and advances the retry state.  A `Retry`
    /// step always carries this client's current `retry_wait`.
    pub fn on_response(&self, state: RetryState, resp: AttemptResponse) -> (r: Step)
        requires
            state.remaining >= 1,
        ensures
            r@ == spec_step(self.retry_wait_spec(), state.remaining, resp@),
            r matches Step::Retry { next, wait_ms } ==> next.remaining >= 1 && wait_ms
                == self.retry_wait_spec(),
    {
        let shape = parse_body(resp.body.as_str());
        match classify(resp.status, resp.body, shape) {
            Decision::Finish(o) => Step::Done(o),
            Decision::TryAgain => {
                if state.remaining <= 1 {
                    Step::Done(CallOutcome::Failure(HelpScoutError::ServiceUnavailable))
                } else {
                    Step::Retry {
                        next: RetryState { remaining: state.remaining - 1 },
                        wait_ms: self.retry_wait,
                    }
                }
            },
        }
    }

    /// Runs a whole call against a transcript of responses, one response
    /// per attempt, and returns the outcome together with the number of
    /// attempts used; `None` when the transcript ends before the call does.
    ///
    /// This is the same decision path a live driver takes through
    /// [`Client::start_attempts`] and [`Client::on_response`], with the
    /// waits between attempts elided.
    pub fn execute(&self, responses: &Vec<AttemptResponse>) -> (r: Option<(CallOutcome, usize)>)
        requires
            self.retry_count_spec() >= 1,
        ensures
            match r {
                None => spec_run(self.retry_count_spec() as nat, models(responses@)) is None,
                Some((o, n)) => spec_run(self.retry_count_spec() as nat, models(responses@))
                    == Some((o@, n as nat)),
            },
    {
        let ghost rs0 = models(responses@);
        let mut state = self.start_attempts();
        let mut i: usize = 0;
        proof {
            assert(rs0.skip(0) =~= rs0);
        }
        while i < responses.len()
            invariant
                1 <= state.remaining,
                i <= responses@.len(),
                rs0 == models(responses@),
                spec_run(self.retry_count_spec() as nat, rs0) == add_attempts(
                    spec_run(state.remaining as nat, rs0.skip(i as int)),
                    i as nat,
                ),
                self.retry_count_spec() >= 1,
            decreases responses@.len() - i,
        {
            let item = &responses[i];
            let resp = AttemptResponse { status: item.status, body: item.body.clone() };
            let ghost tail = rs0.skip(i as int);
            proof {
                assert(rs0.len() == responses@.len());
                assert(resp@ == rs0[i as int]);
                assert(tail[0] == rs0[i as int]);
                assert(tail.drop_first() =~= rs0.skip(i as int + 1));
            }
            i = i + 1;
            match self.on_response(state, resp) {
                Step::Done(o) => {
                    proof {
                        assert(spec_run(state.remaining as nat, tail) == Some((o@, 1 as nat)));
                    }
                    return Some((o, i));
                },
                Step::Retry { next, wait_ms: _ } => {
                    proof {
                        assert(spec_decide(tail[0]) is TryAgain);
                        assert(spec_run(state.remaining as nat, tail) == add_attempts(
                            spec_run(next.remaining as nat, tail.drop_first()),
                            1 as nat,
                        ));
                    }
                    state = next;
                },
            }
        }
        proof {
            assert(rs0.skip(i as int).len() == 0);
            assert(spec_run(state.remaining as nat, rs0.skip(i as int)) is None);
        }
        None
    }
}

/// Shifts an attempt count by the attempts already spent.
pub open spec fn add_attempts(r: Option<(OutcomeModel, nat)>, used: nat) -> Option<
    (OutcomeModel, nat),
> {
    match r {
        None => None,
        Some((o, n)) => Some((o, (n + used) as nat)),
    }
}

/// The HTTP method of a prepared request.
#[derive(Debug, Clone, Copy, PartialEq, Eq)]
pub enum HttpMethod {
    Get,
    Post,
    Put,
}

/// A request ready to be sent: method, full URL, optional body, and the
/// value for its `Authorization` header.
#[derive(Debug, Clone, PartialEq, Eq)]
pub struct PreparedRequest {
    pub method: HttpMethod,
    pub url: String,
    pub body: Option<String>,
    pub auth: String,
}

/// Mathematical image of a [`PreparedRequest`].
pub struct RequestModel {
    pub method: HttpMethod,
    pub url: Seq<char>,
    pub body: Option<Seq<char>>,
    pub auth: Seq<char>,
}

impl View for PreparedRequest {
    type V = RequestModel;

    open spec fn view(&self) -> RequestModel {
        RequestModel {
            method: self.method,
            url: self.url@,
            body: match &self.body {
                Some(b) => Some(b@),
                None => None,
            },
            auth: self.auth@,
        }
    }
}

/// The basic authorization header value for an API key: the word `Basic`,
/// a space, and the base64 encoding of the key followed by `:X`.
pub open spec fn spec_auth(key: Seq<char>) -> Seq<char> {
    "Basic "@ + ascii_chars_of(spec_b64(encode_utf8(key) + seq![58u8, 88u8]))
}

/// The full URL of a request: the base URL, a slash, the resource path, a
/// question mark, and the encoded query string.
pub open spec fn spec_url(
    base: Seq<char>,
    path: Seq<char>,
    pairs: Seq<(Seq<char>, Seq<char>)>,
) -> Seq<char> {
    base + "/"@ + path + "?"@ + spec_encode_query(pairs)
}

/// Whether the `url` crate accepts a string as an absolute URL.
pub uninterp spec fn url_accepts(s: Seq<char>) -> bool;

/// Relies on `url::Url::parse`: whether a string parses as an absolute URL
/// depends on its characters alone; on rejection the parse error's text is
/// returned.
#[verifier::external_body]
fn check_url(s: &str) -> (r: Result<(), String>)
    ensures
        r is Ok <==> url_accepts(s@),
{
    match url::Url::parse(s) {
        Ok(_) => Ok(()),
        Err(e) => Err(e.to_string()),
    }
}

/// What a prepared-request result must be for the given client, method,
/// path, query pairs, and body: `Ok` with exactly that request when the
/// built URL parses, `RequestUrlError` otherwise.
pub open spec fn spec_prepared(
    c: Client,
    method: HttpMethod,
    path: Seq<char>,
    pairs: Seq<(Seq<char>, Seq<char>)>,
    body: Option<Seq<char>>,
    r: Result<PreparedRequest, HelpScoutError>,
) -> bool {
    &&& r is Ok <==> url_accepts(spec_url(c.api_url_view(), path, pairs))
    &&& r matches Ok(req) ==> req@ == (RequestModel {
        method,
        url: spec_url(c.api_url_view(), path, pairs),
        body,
        auth: spec_auth(c.api_key_view()),
    })
    &&& r matches Err(e) ==> e@ is RequestUrlError
}

impl Client {
    /// The value for the `Authorization` header: HTTP basic style, with the
    /// API key as the user name and the fixed filler `X` as the password.
    pub fn auth_header(&self) -> (r: String)
        ensures
            r@ == spec_auth(self.api_key_view()),
    {
        let mut creds = self.api_key.as_str().as_bytes_vec();
        let ghost kb = creds@;
        creds.push(58);
        creds.push(88);
        proof {
            assert(creds@ =~= kb + seq![58u8, 88u8]);
            lemma_b64_ascii(creds@);
        }
        let encoded = base64_encode(&creds);
        String::from_str("Basic ").concat(ascii_string(encoded).as_str())
    }

    /// Builds the full URL string for a request.
    fn url_string(&self, path: &str, params: &Vec<(String, String)>) -> (r: String)
        ensures
            r@ == spec_url(self.api_url_view(), path@, views_of_pairs(params@)),
    {
        let q = encode_query(params);
        let r = String::from_str(self.api_url.as_str()).concat("/").concat(path).concat(
            "?",
        ).concat(q.as_str());
        proof {
            assert(r@ =~= spec_url(self.api_url_view(), path@, views_of_pairs(params@)));
        }
        r
    }

    /// Prepares a request: builds the URL and checks it parses, attaches
    /// the authorization header, and carries the body when one is given.
    /// Returns `Ok` exactly when the `url` crate accepts the built URL, and
    /// `RequestUrlError` with the parser's message otherwise.
    fn prepare(&self, method: HttpMethod, path: &str, params: &Vec<(String, String)>, body: Option<
        String,
    >) -> (r: Result<PreparedRequest, HelpScoutError>)
        ensures
            r is Ok <==> url_accepts(spec_url(self.api_url_view(), path@, views_of_pairs(params@))),
            r matches Ok(req) ==> req@ == (RequestModel {
                method,
                url: spec_url(self.api_url_view(), path@, views_of_pairs(params@)),
                body: match body {
                    Some(b) => Some(b@),
                    None => None::<Seq<char>>,
                },
                auth: spec_auth(self.api_key_view()),
            }),
            r matches Err(e) ==> e@ is RequestUrlError,
    {
        let url = self.url_string(path, params);
        match check_url(url.as_str()) {
            Ok(()) => Ok(
                PreparedRequest { method, url, body, auth: self.auth_header() },
            ),
            Err(m) => Err(HelpScoutError::RequestUrlError(m)),
        }
    }

    /// Prepares a `get` request for a resource path and query parameters.
    pub fn get(&self, path: &str, params: &Vec<(String, String)>) -> (r: Result<
        PreparedRequest,
        HelpScoutError,
    >)
        ensures
            r is Ok <==> url_accepts(spec_url(self.api_url_view(), path@, views_of_pairs(params@))),
            r matches Ok(req) ==> req@ == (RequestModel {
                method: HttpMethod::Get,
                url: spec_url(self.api_url_view(), path@, views_of_pairs(params@)),
                body: None::<Seq<char>>,
                auth: spec_auth(self.api_key_view()),
            }),
            r matches Err(e) ==> e@ is RequestUrlError,
    {
        self.prepare(HttpMethod::Get, path, params, None)
    }

    /// Prepares a `post` request for a resource path, query parameters, and
    /// an optional pre-serialized body.
    pub fn post(&self, path: &str, params: &Vec<(String, String)>, body: Option<String>) -> (r:
        Result<PreparedRequest, HelpScoutError>)
        ensures
            r is Ok <==> url_accepts(spec_url(self.api_url_view(), path@, views_of_pairs(params@))),
            r matches Ok(req) ==> req@ == (RequestModel {
                method: HttpMethod::Post,
                url: spec_url(self.api_url_view(), path@, views_of_pairs(params@)),
                body: match body {
                    Some(b) => Some(b@),
                    None => None::<Seq<char>>,
                },
                auth: spec_auth(self.api_key_view()),
            }),
            r matches Err(e) ==> e@ is RequestUrlError,
    {
        self.prepare(HttpMethod::Post, path, params, body)
    }

    /// Prepares a `put` request for a resource path, query parameters, and
    /// an optional pre-serialized body.
    pub fn put(&self, path: &str, params: &Vec<(String, String)>, body: Option<String>) -> (r:
        Result<PreparedRequest, HelpScoutError>)
        ensures
            r is Ok <==> url_accepts(spec_url(self.api_url_view(), path@, views_of_pairs(params@))),
            r matches Ok(req) ==> req@ == (RequestModel {
                method: HttpMethod::Put,
                url: spec_url(self.api_url_view(), path@, views_of_pairs(params@)),
                body: match body {
                    Some(b) => Some(b@),
                    None => None::<Seq<char>>,
                },
                auth: spec_auth(self.api_key_view()),
            }),
            r matches Err(e) ==> e@ is RequestUrlError,
    {
        self.prepare(HttpMethod::Put, path, params, body)
    }
}

/// A response on which the pipeline tries again rather than finishing.
pub open spec fn is_retryable(rm: RespModel) -> bool {
    spec_decide(rm) is TryAgain
}

/// The outcome of a finishing decision.
pub open spec fn decision_outcome(d: DecisionModel) -> OutcomeModel {
    match d {
        DecisionModel::Finish(o) => o,
        DecisionModel::TryAgain => arbitrary(),
    }
}

/// Law: a response is retried exactly when its status is 503 and its body
/// did not parse as JSON; a structured body, whatever its status, never
/// leads to a retry.
pub proof fn lemma_retry_condition(rm: RespModel)
    ensures
        is_retryable(rm) <==> (rm.status == 503 && body_shape_of(rm.body) is NotJson),
{
}

/// Law: whatever the retry budget, and whatever HTTP method produced the
/// transcript, a first response of 200 or 201 with a structured body ends
/// the call on its first attempt, returning exactly that body.
pub proof fn lemma_success_returns_body(count: nat, rs: Seq<RespModel>)
    requires
        count >= 1,
        rs.len() >= 1,
        rs[0].status == 200 || rs[0].status == 201,
        body_shape_of(rs[0].body) is Json,
    ensures
        spec_run(count, rs) == Some(
            (OutcomeModel::Success(SuccessModel::Json(rs[0].body)), 1 as nat),
        ),
{
}

/// Law: a first response whose status is one of the six mapped error codes,
/// with a structured body from which a status report decodes, ends the call
/// on its first attempt with the typed error for that code, carrying that
/// exact report.
pub proof fn lemma_mapped_error_returns_report(
    count: nat,
    rs: Seq<RespModel>,
    code: CodeField,
    error: ErrorFieldModel,
    st: StatusModel,
)
    requires
        count >= 1,
        rs.len() >= 1,
        is_mapped_status(rs[0].status),
        body_shape_of(rs[0].body) == ShapeModel::Json(code, error),
        spec_envelope(code, error) == Ok::<StatusModel, Seq<char>>(st),
    ensures
        spec_run(count, rs) == Some(
            (OutcomeModel::Failure(mapped_error(rs[0].status, st)), 1 as nat),
        ),
{
}

/// Law: when every allowed attempt meets transient unavailability, the call
/// uses exactly its full budget of `count` attempts — the driver waiting
/// `retry_wait` milliseconds before each attempt after the first, as
/// [`Client::on_response`] directs — and then fails with
/// `ServiceUnavailable`; no success is fabricated.
pub proof fn lemma_unavailability_exhausts_budget(count: nat, rs: Seq<RespModel>)
    requires
        count >= 1,
        rs.len() >= count,
        forall|i: int| 0 <= i < count ==> is_retryable(#[trigger] rs[i]),
    ensures
        spec_run(count, rs) == Some(
            (OutcomeModel::Failure(ErrorModel::ServiceUnavailable), count),
        ),
    decreases count,
{
    if count > 1 {
        let rest = rs.drop_first();
        assert forall|i: int| 0 <= i < count - 1 implies is_retryable(#[trigger] rest[i]) by {
            assert(rest[i] == rs[i + 1]);
        }
        lemma_unavailability_exhausts_budget((count - 1) as nat, rest);
    }
}

/// Law: when the first `k` responses are retryable and the `k`-th decides
/// the call (for instance a 200 with a structured body arriving while
/// attempts remain), the call returns that decision's outcome after exactly
/// `k + 1` attempts, never spending the rest of its budget.
pub proof fn lemma_late_decision_spends_no_extra_attempts(count: nat, rs: Seq<RespModel>, k: nat)
    requires
        count >= 1,
        k < count,
        rs.len() > k,
        forall|i: int| 0 <= i < k ==> is_retryable(#[trigger] rs[i]),
        !is_retryable(rs[k as int]),
    ensures
        spec_decide(rs[k as int]) is Finish,
        spec_run(count, rs) == Some(
            (decision_outcome(spec_decide(rs[k as int])), (k + 1) as nat),
        ),
    decreases k,
{
    if k > 0 {
        let rest = rs.drop_first();
        assert forall|i: int| 0 <= i < k - 1 implies is_retryable(#[trigger] rest[i]) by {
            assert(rest[i] == rs[i + 1]);
        }
        assert(rest[k - 1] == rs[k as int]);
        lemma_late_decision_spends_no_extra_attempts((count - 1) as nat, rest, (k - 1) as nat);
    }
}

/// Law: the outcome of a call and the number of attempts it uses are fixed
/// by the retry budget in force when the call starts and by the transcript
/// alone.  [`Client::execute`] and [`Client::start_attempts`] read the
/// budget once, at the start of the call, so changing `retry_count` or
/// `retry_wait` on a client between two calls affects only the later call;
/// and nothing else about the client — its key, base URL, or wait tunable —
/// plays any part in the outcome.
pub proof fn lemma_call_reads_policy_at_start(a: Client, b: Client, rs: Seq<RespModel>)
    requires
        a.retry_count_spec() == b.retry_count_spec(),
    ensures
        spec_run(a.retry_count_spec() as nat, rs) == spec_run(b.retry_count_spec() as nat, rs),
{
}

} // verus!
