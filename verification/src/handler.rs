//! What is answered to an HTTP request.
//!
//! Routes:
//!   `GET /` and `GET /health` tell that the service is up;
//!   `POST /sql` runs the statement in the body,
//!   `{"sql": "...", "params": [...]?, "rows_format": "objects" | "arrays"?}`.
//!
//! Where the service has a token, every request, `/health` included, must carry
//! `Authorization: Bearer <token>`.
//!
//! A request is served in up to three turns: [`handle`] looks at the request,
//! [`handle_parsed`] at what its body says, and [`handle_executed`] at what came
//! of the statement. In between, whoever speaks HTTP reads the body as JSON and
//! runs the statement.

use vstd::prelude::*;

use crate::db::{ExecError, ExecOutcome, RowsFormat};
use crate::errors;
use crate::execution::Step;
use crate::json::Json;
use crate::state::AppState;
use crate::text;
use crate::VERSION;

verus! {

// ---------------------------------------------------------------------------
// Requests
// ---------------------------------------------------------------------------

/// An HTTP request.
#[derive(Debug)]
pub struct HttpRequest {
    pub method: String,
    pub path: String,
    /// The value of the first `Authorization` header.
    pub authorization: Option<Vec<u8>>,
    pub body: Vec<u8>,
}

/// What an [`HttpRequest`] stands for.
pub ghost struct HttpRequestView {
    pub method: Seq<char>,
    pub path: Seq<char>,
    pub authorization: Option<Seq<u8>>,
    pub body: Seq<u8>,
}

/// The bytes, where there are any.
pub open spec fn optional_bytes(value: Option<Vec<u8>>) -> Option<Seq<u8>> {
    match value {
        Some(bytes) => Some(bytes@),
        None => None,
    }
}

impl View for HttpRequest {
    type V = HttpRequestView;

    open spec fn view(&self) -> HttpRequestView {
        HttpRequestView {
            method: self.method@,
            path: self.path@,
            authorization: optional_bytes(self.authorization),
            body: self.body@,
        }
    }
}

/// What the body of a statement request says.
#[derive(Debug)]
pub struct SqlRequest {
    pub sql: String,
    /// Empty where the body has none.
    pub params: Vec<Json>,
    /// `Objects` where the body does not say.
    pub rows_format: RowsFormat,
}

/// What a [`SqlRequest`] stands for.
pub ghost struct SqlRequestView {
    pub sql: Seq<char>,
    pub params: Seq<crate::json::JsonValue>,
    pub rows_format: RowsFormat,
}

impl View for SqlRequest {
    type V = SqlRequestView;

    open spec fn view(&self) -> SqlRequestView {
        SqlRequestView {
            sql: self.sql@,
            params: crate::json::json_values(self.params@),
            rows_format: self.rows_format,
        }
    }
}

// ---------------------------------------------------------------------------
// Responses
// ---------------------------------------------------------------------------

/// The body of an error response.
#[derive(Debug)]
pub struct ErrorResponse {
    pub error: ErrorBody,
}

/// What went wrong.
#[derive(Debug)]
pub struct ErrorBody {
    /// One of [`crate::errors`].
    pub code: &'static str,
    pub message: String,
    pub request_id: String,
}

/// The body that tells that the service is up.
#[derive(Debug)]
pub struct HealthResponse {
    pub version: &'static str,
    pub status: &'static str,
}

/// The body of a response.
#[derive(Debug)]
pub enum ResponseBody {
    Health(HealthResponse),
    Outcome(ExecOutcome),
    Error(ErrorResponse),
}

/// A response, to be sent as JSON.
#[derive(Debug)]
pub struct Response {
    pub status: u16,
    pub body: ResponseBody,
}

/// What a [`ResponseBody`] stands for.
pub ghost enum BodyView {
    Health { version: Seq<char>, status: Seq<char> },
    Outcome(crate::db::OutcomeView),
    Error { code: Seq<char>, message: Seq<char>, request_id: Seq<char> },
}

impl View for ResponseBody {
    type V = BodyView;

    open spec fn view(&self) -> BodyView {
        match self {
            ResponseBody::Health(health) => BodyView::Health {
                version: health.version@,
                status: health.status@,
            },
            ResponseBody::Outcome(outcome) => BodyView::Outcome(outcome@),
            ResponseBody::Error(response) => BodyView::Error {
                code: response.error.code@,
                message: response.error.message@,
                request_id: response.error.request_id@,
            },
        }
    }
}

/// What a [`Response`] stands for.
pub ghost struct ResponseView {
    pub status: u16,
    pub body: BodyView,
}

impl View for Response {
    type V = ResponseView;

    open spec fn view(&self) -> ResponseView {
        ResponseView { status: self.status, body: self.body@ }
    }
}

/// How every response is sent.
pub const CONTENT_TYPE: &'static str = "application/json";

pub const OK: u16 = 200;

pub const BAD_REQUEST: u16 = 400;

pub const UNAUTHORIZED: u16 = 401;

pub const NOT_FOUND: u16 = 404;

pub const PAYLOAD_TOO_LARGE: u16 = 413;

pub const INTERNAL_SERVER_ERROR: u16 = 500;

/// The response with this error.
pub open spec fn error_response(
    status: u16,
    code: Seq<char>,
    message: Seq<char>,
    request_id: Seq<char>,
) -> ResponseView {
    ResponseView { status, body: BodyView::Error { code, message, request_id } }
}

/// The response with this error.
fn json_error(status: u16, code: &'static str, message: String, request_id: &str) -> (response:
    Response)
    ensures
        response@ == error_response(status, code@, message@, request_id@),
{
    let error = ErrorBody { code, message, request_id: request_id.to_owned() };
    Response { status, body: ResponseBody::Error(ErrorResponse { error }) }
}

/// The response that tells that the service is up.
pub open spec fn healthy() -> ResponseView {
    ResponseView { status: OK, body: BodyView::Health { version: VERSION@, status: "ok"@ } }
}

/// The response that tells that the service is up.
fn health() -> (response: Response)
    ensures
        response@ == healthy(),
{
    Response {
        status: OK,
        body: ResponseBody::Health(HealthResponse { version: VERSION, status: "ok" }),
    }
}

// ---------------------------------------------------------------------------
// The request id
// ---------------------------------------------------------------------------

/// The id that a request goes by.
pub open spec fn id_of(context_id: Option<Seq<char>>, nanos: Option<u128>) -> Seq<char> {
    match context_id {
        Some(id) => id,
        None => "local-"@ + text::decimal(
            match nanos {
                Some(n) => n as nat,
                None => 0,
            },
        ),
    }
}

/// The id that a request goes by: the one that it comes with, or else one made
/// from the time, in nanoseconds since 1970 where the clock tells them.
pub fn extract_request_id(context_id: Option<String>, nanos: Option<u128>) -> (id: String)
    ensures
        id@ == id_of(crate::settings::optional_text(context_id), nanos),
{
    match context_id {
        Some(id) => id,
        None => {
            let mut id = "local-".to_owned();
            let n: u128 = match nanos {
                Some(n) => n,
                None => 0,
            };
            text::push_decimal(&mut id, n);
            id
        },
    }
}

// ---------------------------------------------------------------------------
// Authorization
// ---------------------------------------------------------------------------

/// The bytes that the text of a header may have: visible ASCII, and the tab.
pub open spec fn header_byte(b: u8) -> bool {
    32 <= b <= 126 || b == 9
}

/// The text of a header.
pub open spec fn header_text(bytes: Seq<u8>) -> Option<Seq<char>> {
    if forall|i: int| 0 <= i < bytes.len() ==> header_byte(#[trigger] bytes[i]) {
        Some(bytes.map_values(|b: u8| b as char))
    } else {
        None
    }
}

/// Whether a request with the header `authorization` may be served where the
/// token is `token`.
pub open spec fn authorized(token: Option<Seq<char>>, authorization: Option<Seq<u8>>) -> bool {
    match token {
        None => true,
        Some(expected) => match authorization {
            None => false,
            Some(bytes) => match header_text(bytes) {
                None => false,
                Some(value) => value == "Bearer "@ + expected || value == "bearer "@ + expected,
            },
        },
    }
}

/// The response to a request that may not be served.
pub open spec fn refusal(request_id: Seq<char>) -> ResponseView {
    error_response(
        UNAUTHORIZED,
        errors::UNAUTHORIZED@,
        "invalid or missing bearer token"@,
        request_id,
    )
}

/// The text of a header.
fn read_header(bytes: &Vec<u8>) -> (value: Option<String>)
    ensures
        crate::settings::optional_text(value) == header_text(bytes@),
{
    let mut value = String::new();
    for i in 0..bytes.len()
        invariant
            forall|j: int| 0 <= j < i ==> header_byte(#[trigger] bytes@[j]),
            value@.len() == i,
            forall|j: int| 0 <= j < i ==> value@[j] == #[trigger] bytes@[j] as char,
    {
        let b: u8 = bytes[i];
        if !(32 <= b && b <= 126 || b == 9) {
            assert(!header_byte(bytes@[i as int]));
            return None;
        }
        value.push(b as char);
    }
    assert(value@ =~= bytes@.map_values(|b: u8| b as char));
    Some(value)
}

/// Whether the header is the bearer token `expected`.
fn carries_token(authorization: &Option<Vec<u8>>, expected: &str) -> (yes: bool)
    ensures
        yes == authorized(Some(expected@), optional_bytes(*authorization)),
{
    match authorization {
        None => false,
        Some(bytes) => match read_header(bytes) {
            None => false,
            Some(value) => {
                let mut upper = "Bearer ".to_owned();
                upper.append(expected);
                let mut lower = "bearer ".to_owned();
                lower.append(expected);
                text::same(value.as_str(), upper.as_str()) || text::same(
                    value.as_str(),
                    lower.as_str(),
                )
            },
        },
    }
}

/// Whether the request may be served; if not, the response to it.
pub fn check_auth(
    state: &AppState,
    authorization: &Option<Vec<u8>>,
    request_id: &str,
) -> (verdict: Result<(), Response>)
    ensures
        match verdict {
            Ok(()) => authorized(state@.auth_token, optional_bytes(*authorization)),
            Err(response) => !authorized(state@.auth_token, optional_bytes(*authorization))
                && response@ == refusal(request_id@),
        },
{
    match &state.auth_token {
        None => Ok(()),
        Some(expected) => if carries_token(authorization, expected.as_str()) {
            Ok(())
        } else {
            Err(
                json_error(
                    UNAUTHORIZED,
                    errors::UNAUTHORIZED,
                    "invalid or missing bearer token".to_owned(),
                    request_id,
                ),
            )
        },
    }
}

// ---------------------------------------------------------------------------
// Serving
// ---------------------------------------------------------------------------

/// What comes next.
#[derive(Debug)]
pub enum HttpStep {
    /// The response is to be sent.
    Respond { response: Response },
    /// The body is to be read as JSON; [`handle_parsed`] goes on with it.
    Parse { body: Vec<u8> },
    /// The statement is to be run; [`handle_executed`] goes on with its result.
    Execute { step: Step },
}

/// What an [`HttpStep`] stands for.
pub ghost enum HttpStepView {
    Respond { response: ResponseView },
    Parse { body: Seq<u8> },
    Execute { step: crate::execution::StepView },
}

impl View for HttpStep {
    type V = HttpStepView;

    open spec fn view(&self) -> HttpStepView {
        match self {
            HttpStep::Respond { response } => HttpStepView::Respond { response: response@ },
            HttpStep::Parse { body } => HttpStepView::Parse { body: body@ },
            HttpStep::Execute { step } => HttpStepView::Execute { step: step@ },
        }
    }
}

/// Whether the route tells that the service is up.
pub open spec fn is_health(method: Seq<char>, path: Seq<char>) -> bool {
    method == "GET"@ && (path == "/"@ || path == "/health"@)
}

/// Whether the route runs a statement.
pub open spec fn is_sql(method: Seq<char>, path: Seq<char>) -> bool {
    method == "POST"@ && path == "/sql"@
}

/// Whether a body of `n` bytes is over the cap.
pub open spec fn too_large(max: Option<usize>, n: nat) -> bool {
    max matches Some(cap) && n > cap
}

/// The response to a body that is over the cap.
pub open spec fn oversized(n: nat, max: usize, request_id: Seq<char>) -> ResponseView {
    error_response(
        PAYLOAD_TOO_LARGE,
        errors::VALIDATION@,
        "request body of "@ + text::decimal(n) + " bytes exceeds RUSTYHIP_MAX_BODY_BYTES="@
            + text::decimal(max as nat),
        request_id,
    )
}

/// The response to a route that does not exist.
pub open spec fn no_route(
    method: Seq<char>,
    path: Seq<char>,
    request_id: Seq<char>,
) -> ResponseView {
    error_response(
        NOT_FOUND,
        errors::NOT_FOUND@,
        "no route for "@ + method + " "@ + path,
        request_id,
    )
}

/// What follows from a request.
pub open spec fn handled(
    state: crate::state::StateView,
    request: HttpRequestView,
    request_id: Seq<char>,
) -> HttpStepView {
    if !authorized(state.auth_token, request.authorization) {
        HttpStepView::Respond { response: refusal(request_id) }
    } else if is_health(request.method, request.path) {
        HttpStepView::Respond { response: healthy() }
    } else if is_sql(request.method, request.path) {
        received(state, request.body, request_id)
    } else {
        HttpStepView::Respond { response: no_route(request.method, request.path, request_id) }
    }
}

/// What follows from the body of a statement request.
pub open spec fn received(
    state: crate::state::StateView,
    body: Seq<u8>,
    request_id: Seq<char>,
) -> HttpStepView {
    if too_large(state.max_body_bytes, body.len()) {
        HttpStepView::Respond {
            response: oversized(body.len(), state.max_body_bytes->0, request_id),
        }
    } else {
        HttpStepView::Parse { body }
    }
}

/// What follows from what the body of a statement request says, or from the
/// error that it could not be read with.
pub open spec fn parsed(
    state: crate::state::StateView,
    request: Result<SqlRequestView, Seq<char>>,
    request_id: Seq<char>,
) -> HttpStepView {
    match request {
        Ok(r) => HttpStepView::Execute {
            step: crate::execution::begun(
                r.sql,
                r.params,
                crate::db::options_of(state.db.settings, r.rows_format, state.checkpoint_mode),
            ),
        },
        Err(message) => HttpStepView::Respond {
            response: error_response(
                BAD_REQUEST,
                errors::VALIDATION@,
                "invalid JSON: "@ + message,
                request_id,
            ),
        },
    }
}

/// The response to a statement request. A statement that failed is an error of
/// the client; a write that could not be made durable is one of the service.
pub open spec fn executed(
    result: Result<crate::db::OutcomeView, crate::db::ExecErrorView>,
    request_id: Seq<char>,
) -> ResponseView {
    match result {
        Ok(outcome) => ResponseView { status: OK, body: BodyView::Outcome(outcome) },
        Err(crate::db::ExecErrorView::Sql(f)) => error_response(
            BAD_REQUEST,
            errors::SQL@,
            crate::failure::chain_text(f),
            request_id,
        ),
        Err(crate::db::ExecErrorView::Checkpoint(f)) => error_response(
            INTERNAL_SERVER_ERROR,
            errors::INTERNAL@,
            "checkpoint failed: "@ + crate::failure::chain_text(f),
            request_id,
        ),
        Err(crate::db::ExecErrorView::Internal(f)) => error_response(
            INTERNAL_SERVER_ERROR,
            errors::INTERNAL@,
            crate::failure::chain_text(f),
            request_id,
        ),
    }
}

/// What follows from a request.
pub fn handle(state: &AppState, request: HttpRequest, request_id: &str) -> (step: HttpStep)
    ensures
        step@ == handled(state@, request@, request_id@),
{
    if let Err(response) = check_auth(state, &request.authorization, request_id) {
        return HttpStep::Respond { response };
    }
    let method = request.method.as_str();
    let path = request.path.as_str();
    if text::same(method, "GET") && (text::same(path, "/") || text::same(path, "/health")) {
        return HttpStep::Respond { response: health() };
    }
    if text::same(method, "POST") && text::same(path, "/sql") {
        return sql(state, request.body, request_id);
    }
    let mut message = "no route for ".to_owned();
    message.append(method);
    message.append(" ");
    message.append(path);
    HttpStep::Respond { response: json_error(NOT_FOUND, errors::NOT_FOUND, message, request_id) }
}

/// What follows from the body of a statement request.
fn sql(state: &AppState, body: Vec<u8>, request_id: &str) -> (step: HttpStep)
    ensures
        step@ == received(state@, body@, request_id@),
{
    if let Some(max) = state.max_body_bytes {
        if body.len() > max {
            let mut message = "request body of ".to_owned();
            text::push_decimal(&mut message, body.len() as u128);
            message.append(" bytes exceeds RUSTYHIP_MAX_BODY_BYTES=");
            text::push_decimal(&mut message, max as u128);
            let response = json_error(
                PAYLOAD_TOO_LARGE,
                errors::VALIDATION,
                message,
                request_id,
            );
            return HttpStep::Respond { response };
        }
    }
    HttpStep::Parse { body }
}

/// What the body of a request says, or the error that it could not be read with.
pub open spec fn parse_view(
    request: Result<SqlRequest, String>,
) -> Result<SqlRequestView, Seq<char>> {
    match request {
        Ok(r) => Ok(r@),
        Err(message) => Err(message@),
    }
}

/// What follows from what the body of a statement request says, or from the
/// error that it could not be read with.
pub fn handle_parsed(
    state: &AppState,
    request: Result<SqlRequest, String>,
    request_id: &str,
) -> (step: HttpStep)
    ensures
        step@ == parsed(state@, parse_view(request), request_id@),
{
    match request {
        Ok(r) => HttpStep::Execute {
            step: state.db.exec_durable(r.sql, r.params, r.rows_format, state.checkpoint_mode),
        },
        Err(error) => {
            let mut message = "invalid JSON: ".to_owned();
            message.append(error.as_str());
            HttpStep::Respond {
                response: json_error(BAD_REQUEST, errors::VALIDATION, message, request_id),
            }
        },
    }
}

/// The result of a statement.
pub open spec fn result_view(
    result: Result<ExecOutcome, ExecError>,
) -> Result<crate::db::OutcomeView, crate::db::ExecErrorView> {
    match result {
        Ok(outcome) => Ok(outcome@),
        Err(error) => Err(error@),
    }
}

/// The response to a statement request.
pub fn handle_executed(result: Result<ExecOutcome, ExecError>, request_id: &str) -> (response:
    Response)
    ensures
        response@ == executed(result_view(result), request_id@),
{
    match result {
        Ok(outcome) => Response { status: OK, body: ResponseBody::Outcome(outcome) },
        Err(ExecError::Sql(f)) => json_error(BAD_REQUEST, errors::SQL, f.text(), request_id),
        Err(ExecError::Checkpoint(f)) => {
            let mut message = "checkpoint failed: ".to_owned();
            let chain = f.text();
            message.append(chain.as_str());
            json_error(INTERNAL_SERVER_ERROR, errors::INTERNAL, message, request_id)
        },
        Err(ExecError::Internal(f)) => json_error(
            INTERNAL_SERVER_ERROR,
            errors::INTERNAL,
            f.text(),
            request_id,
        ),
    }
}

// ---------------------------------------------------------------------------
// Laws
// ---------------------------------------------------------------------------

/// The response is one of an unauthorized request.
pub open spec fn is_refusal(step: HttpStepView) -> bool {
    step matches HttpStepView::Respond { response } && response.status == UNAUTHORIZED
}

/// Where there is a token, a request without it is refused, whatever its method,
/// its route and its body; and no other request is.
pub proof fn law_token_guards_every_route(
    state: crate::state::StateView,
    request: HttpRequestView,
    request_id: Seq<char>,
)
    ensures
        is_refusal(handled(state, request, request_id)) <==> !authorized(
            state.auth_token,
            request.authorization,
        ),
        is_refusal(handled(state, request, request_id)) ==> handled(state, request, request_id)
            == (HttpStepView::Respond { response: refusal(request_id) }),
        state.auth_token is None ==> !is_refusal(handled(state, request, request_id)),
{
}

/// A header lets exactly one token pass.
pub proof fn law_header_fits_one_token(header: Seq<u8>, one: Seq<char>, other: Seq<char>)
    requires
        authorized(Some(one), Some(header)),
        authorized(Some(other), Some(header)),
    ensures
        one == other,
{
    reveal_strlit("Bearer ");
    reveal_strlit("bearer ");
    let value = header_text(header)->0;
    assert(value.skip(7) =~= one);
    assert(value.skip(7) =~= other);
}

/// A body is only read for an authorized statement request, it is not over the
/// cap, and it is the one that came.
pub proof fn law_body_is_read_only_within_limits(
    state: crate::state::StateView,
    request: HttpRequestView,
    request_id: Seq<char>,
    body: Seq<u8>,
)
    requires
        handled(state, request, request_id) == (HttpStepView::Parse { body }),
    ensures
        authorized(state.auth_token, request.authorization),
        is_sql(request.method, request.path),
        body == request.body,
        state.max_body_bytes matches Some(max) ==> body.len() <= max,
{
}

/// Looking at a request runs no statement.
pub proof fn law_nothing_runs_before_the_body_is_read(
    state: crate::state::StateView,
    request: HttpRequestView,
    request_id: Seq<char>,
)
    ensures
        handled(state, request, request_id) !is Execute,
{
}

/// A response that can come of a request, at any of its turns.
pub open spec fn possible_response(
    state: crate::state::StateView,
    request_id: Seq<char>,
    response: ResponseView,
) -> bool {
    ||| exists|request: HttpRequestView| #[trigger]
        handled(state, request, request_id) == (HttpStepView::Respond { response })
    ||| exists|body: Result<SqlRequestView, Seq<char>>| #[trigger]
        parsed(state, body, request_id) == (HttpStepView::Respond { response })
    ||| exists|result: Result<crate::db::OutcomeView, crate::db::ExecErrorView>| #[trigger]
        executed(result, request_id) == response
}

/// Every response is JSON: either a success with status 200, or an error that
/// carries the id of the request and one of the codes, each with its own status.
pub proof fn law_response_shape(
    state: crate::state::StateView,
    request_id: Seq<char>,
    response: ResponseView,
)
    requires
        possible_response(state, request_id, response),
    ensures
        match response.body {
            BodyView::Error { code, message: _, request_id: id } => {
                &&& id == request_id
                &&& {
                    ||| code == errors::VALIDATION@ && (response.status == BAD_REQUEST
                        || response.status == PAYLOAD_TOO_LARGE)
                    ||| code == errors::SQL@ && response.status == BAD_REQUEST
                    ||| code == errors::UNAUTHORIZED@ && response.status == UNAUTHORIZED
                    ||| code == errors::NOT_FOUND@ && response.status == NOT_FOUND
                    ||| code == errors::INTERNAL@ && response.status == INTERNAL_SERVER_ERROR
                }
            },
            _ => response.status == OK,
        },
        CONTENT_TYPE@ == "application/json"@,
{
}

/// What is answered with status 200 is durable: where the statement left work
/// that has to be flushed and the service flushes at all, the last thing that
/// the database said is that a checkpoint ran to completion.
pub proof fn law_success_means_durable(
    state: crate::state::StateView,
    request: SqlRequestView,
    request_id: Seq<char>,
    replies: Seq<crate::execution::ReplyView>,
    result: Result<crate::db::OutcomeView, crate::db::ExecErrorView>,
)
    requires
        parsed(state, Ok(request), request_id) matches HttpStepView::Execute { step }
            && crate::execution::ends_with(step, replies, result),
        executed(result, request_id).status == OK,
    ensures
        result matches Ok(outcome) && {
            let settled = crate::execution::settled_at(outcome);
            &&& replies[0] matches crate::execution::ReplyView::Autocommit(before)
            &&& replies[settled] matches crate::execution::ReplyView::Autocommit(after)
            &&& state.checkpoint_mode != crate::settings::CheckpointMode::Off
                && crate::execution::checkpoint_due(!before, outcome.readonly, after) ==> {
                &&& replies.last() matches crate::execution::ReplyView::Checkpointed(Ok(stats))
                &&& stats.busy == 0
            }
        },
{
    let options = crate::db::options_of(
        state.db.settings,
        request.rows_format,
        state.checkpoint_mode,
    );
    crate::execution::law_acknowledged_means_flushed(
        request.sql,
        request.params,
        options,
        replies,
        result->Ok_0,
    );
}

/// A statement that went through but whose checkpoint failed or stayed
/// incomplete is answered as a failure of the service.
pub proof fn law_unflushed_write_is_a_service_error(
    state: crate::state::StateView,
    request: SqlRequestView,
    request_id: Seq<char>,
    replies: Seq<crate::execution::ReplyView>,
    result: Result<crate::db::OutcomeView, crate::db::ExecErrorView>,
)
    requires
        parsed(state, Ok(request), request_id) matches HttpStepView::Execute { step }
            && crate::execution::ends_with(step, replies, result),
        replies.last() matches crate::execution::ReplyView::Checkpointed(reply) && (
        reply matches Ok(stats) ==> stats.busy != 0),
    ensures
        executed(result, request_id).status == INTERNAL_SERVER_ERROR,
        executed(result, request_id).body matches BodyView::Error { code, .. } && code
            == errors::INTERNAL@,
{
}

/// A statement that went through is answered with its outcome, whole.
pub proof fn law_outcome_is_answered_whole(
    outcome: crate::db::OutcomeView,
    request_id: Seq<char>,
)
    ensures
        executed(Ok(outcome), request_id).status == 200,
        executed(Ok(outcome), request_id).body matches BodyView::Outcome(answered) && {
            &&& answered.columns == outcome.columns
            &&& answered.rows == outcome.rows
            &&& answered.rowcount == outcome.rowcount
            &&& answered.lastrowid == outcome.lastrowid
            &&& answered.readonly == outcome.readonly
        },
{
}

/// A statement that failed is answered with the whole chain of causes: as an error
/// of the client where the statement itself failed, as one of the service where
/// its checkpoint or the worker did.
pub proof fn law_failures_are_answered_by_their_kind(
    failure: Seq<crate::failure::CauseView>,
    request_id: Seq<char>,
)
    ensures
        executed(Err(crate::db::ExecErrorView::Sql(failure)), request_id) == (ResponseView {
            status: 400,
            body: BodyView::Error {
                code: "RUSTYHIP_E_SQL"@,
                message: crate::failure::chain_text(failure),
                request_id,
            },
        }),
        executed(Err(crate::db::ExecErrorView::Checkpoint(failure)), request_id) == (ResponseView {
            status: 500,
            body: BodyView::Error {
                code: "RUSTYHIP_E_INTERNAL"@,
                message: "checkpoint failed: "@ + crate::failure::chain_text(failure),
                request_id,
            },
        }),
        executed(Err(crate::db::ExecErrorView::Internal(failure)), request_id) == (ResponseView {
            status: 500,
            body: BodyView::Error {
                code: "RUSTYHIP_E_INTERNAL"@,
                message: crate::failure::chain_text(failure),
                request_id,
            },
        }),
{
}

/// What an authorized request gets: `GET /` and `GET /health` the version and
/// `ok`, `POST /sql` its body read unless that is over the cap, and any other
/// route, by its method or its path, that there is no such route.
pub proof fn law_routes(
    state: crate::state::StateView,
    request: HttpRequestView,
    request_id: Seq<char>,
)
    requires
        state.auth_token is None,
    ensures
        ({
            let step = handled(state, request, request_id);
            let n = request.body.len();
            if request.method == "GET"@ && (request.path == "/"@ || request.path == "/health"@) {
                step == (HttpStepView::Respond {
                    response: ResponseView {
                        status: 200,
                        body: BodyView::Health { version: "0.1.0"@, status: "ok"@ },
                    },
                })
            } else if request.method == "POST"@ && request.path == "/sql"@ {
                match state.max_body_bytes {
                    Some(max) if n > max => step == (HttpStepView::Respond {
                        response: ResponseView {
                            status: 413,
                            body: BodyView::Error {
                                code: "RUSTYHIP_E_VALIDATION"@,
                                message: "request body of "@ + text::decimal(n)
                                    + " bytes exceeds RUSTYHIP_MAX_BODY_BYTES="@ + text::decimal(
                                    max as nat,
                                ),
                                request_id,
                            },
                        },
                    }),
                    _ => step == (HttpStepView::Parse { body: request.body }),
                }
            } else {
                step == (HttpStepView::Respond {
                    response: ResponseView {
                        status: 404,
                        body: BodyView::Error {
                            code: "RUSTYHIP_E_NOT_FOUND"@,
                            message: "no route for "@ + request.method + " "@ + request.path,
                            request_id,
                        },
                    },
                })
            }
        }),
{
}

/// A token changes nothing for the requests that carry it: they get what they
/// would get where there is none.
pub proof fn law_token_only_guards(
    state: crate::state::StateView,
    request: HttpRequestView,
    request_id: Seq<char>,
)
    requires
        authorized(state.auth_token, request.authorization),
    ensures
        handled(state, request, request_id) == handled(
            crate::state::StateView { auth_token: None, ..state },
            request,
            request_id,
        ),
{
}

/// The header that carries a token is `Bearer ` or `bearer ` and the token, byte
/// for byte, in visible ASCII and tabs; any other is refused.
pub proof fn law_bearer_header(token: Seq<char>, header: Seq<u8>)
    ensures
        authorized(Some(token), Some(header)) <==> {
            &&& header.len() == 7 + token.len()
            &&& forall|i: int|
                0 <= i < header.len() ==> 32 <= #[trigger] header[i] <= 126 || header[i] == 9
            &&& header[0] == 0x42 || header[0] == 0x62
            &&& header[1] == 0x65
            &&& header[2] == 0x61
            &&& header[3] == 0x72
            &&& header[4] == 0x65
            &&& header[5] == 0x72
            &&& header[6] == 0x20
            &&& forall|i: int|
                0 <= i < token.len() ==> #[trigger] token[i] == header[i + 7] as char
        },
        !authorized(Some(token), None),
        authorized(None, Some(header)),
        authorized(None, None),
{
    reveal_strlit("Bearer ");
    reveal_strlit("bearer ");
    let text = header.map_values(|b: u8| b as char);
    let upper = "Bearer "@ + token;
    let lower = "bearer "@ + token;
    if authorized(Some(token), Some(header)) {
        assert(header_text(header) == Some(text));
        assert(text.len() == header.len());
        assert(text[0] == header[0] as char && text[1] == header[1] as char && text[2]
            == header[2] as char && text[3] == header[3] as char && text[4] == header[4] as char
            && text[5] == header[5] as char && text[6] == header[6] as char);
        assert forall|i: int| 0 <= i < token.len() implies #[trigger] token[i] == header[i
            + 7] as char by {
            assert(text[i + 7] == header[i + 7] as char);
            assert(upper[i + 7] == token[i] && lower[i + 7] == token[i]);
        }
    }
    let fits = {
        &&& header.len() == 7 + token.len()
        &&& forall|i: int|
            0 <= i < header.len() ==> 32 <= #[trigger] header[i] <= 126 || header[i] == 9
        &&& header[0] == 0x42 || header[0] == 0x62
        &&& header[1] == 0x65
        &&& header[2] == 0x61
        &&& header[3] == 0x72
        &&& header[4] == 0x65
        &&& header[5] == 0x72
        &&& header[6] == 0x20
        &&& forall|i: int| 0 <= i < token.len() ==> #[trigger] token[i] == header[i + 7] as char
    };
    if fits {
        assert(header_text(header) == Some(text));
        let wanted = if header[0] == 0x42 {
            upper
        } else {
            lower
        };
        assert forall|i: int| 0 <= i < text.len() implies text[i] == wanted[i] by {
            if i >= 7 {
                assert(token[i - 7] == header[i - 7 + 7] as char);
            }
        }
        assert(text =~= wanted);
    }
}

/// A refusal says why, and which request it is about.
pub proof fn law_refusals(request_id: Seq<char>)
    ensures
        refusal(request_id) == (ResponseView {
            status: 401,
            body: BodyView::Error {
                code: "RUSTYHIP_E_UNAUTHORIZED"@,
                message: "invalid or missing bearer token"@,
                request_id,
            },
        }),
{
}

/// The statement that is run is the one in the body, with its parameters, in the
/// wanted shape, with the limits of the database and the checkpoint mode of the
/// service; a body that cannot be read is refused with the reason.
pub proof fn law_body_is_what_is_run(
    state: crate::state::StateView,
    request: SqlRequestView,
    message: Seq<char>,
    request_id: Seq<char>,
)
    ensures
        parsed(state, Ok(request), request_id) matches HttpStepView::Execute {
            step: crate::execution::StepView::Ask { state: begin, request: first },
        } && {
            &&& first is Autocommit
            &&& begin.phase == (crate::execution::PhaseView::Begin {
                sql: request.sql,
                params: request.params,
            })
            &&& begin.options.rows_format == request.rows_format
            &&& begin.options.checkpoint_mode == state.checkpoint_mode
            &&& begin.options.max_rows == state.db.settings.max_rows
            &&& begin.options.query_timeout_ms == state.db.settings.query_timeout_ms
        },
        parsed(state, Err(message), request_id) == (HttpStepView::Respond {
            response: ResponseView {
                status: 400,
                body: BodyView::Error {
                    code: "RUSTYHIP_E_VALIDATION"@,
                    message: "invalid JSON: "@ + message,
                    request_id,
                },
            },
        }),
{
}

/// A request goes by the id that it comes with, and one that has none by the time.
pub proof fn law_request_ids(id: Seq<char>, nanos: Option<u128>)
    ensures
        id_of(Some(id), nanos) == id,
        nanos matches Some(n) ==> id_of(None, nanos) == "local-"@ + text::decimal(n as nat),
        nanos is None ==> id_of(None, nanos) == "local-"@ + text::decimal(0),
{
}

/// The views leave nothing out: what is said of the view of a request or of a
/// response is said of the request or of the response itself.
pub proof fn law_views_of_responses(
    request: HttpRequest,
    body: SqlRequest,
    response: Response,
    step: HttpStep,
    result: Result<ExecOutcome, ExecError>,
    parse: Result<SqlRequest, String>,
)
    ensures
        match step {
            HttpStep::Respond { response: r } => step@ == (HttpStepView::Respond { response: r@ }),
            HttpStep::Parse { body: b } => step@ == (HttpStepView::Parse { body: b@ }),
            HttpStep::Execute { step: s } => step@ == (HttpStepView::Execute { step: s@ }),
        },
        request@.method == request.method@,
        request@.path == request.path@,
        request@.body == request.body@,
        match request.authorization {
            Some(bytes) => request@.authorization == Some(bytes@),
            None => request@.authorization is None,
        },
        body@.sql == body.sql@,
        body@.params.len() == body.params@.len(),
        forall|i: int|
            0 <= i < body.params@.len() ==> #[trigger] body@.params[i] == body.params@[i]@,
        body@.rows_format == body.rows_format,
        response@.status == response.status,
        match response.body {
            ResponseBody::Health(h) => response@.body == (BodyView::Health {
                version: h.version@,
                status: h.status@,
            }),
            ResponseBody::Outcome(o) => response@.body == BodyView::Outcome(o@),
            ResponseBody::Error(e) => response@.body == (BodyView::Error {
                code: e.error.code@,
                message: e.error.message@,
                request_id: e.error.request_id@,
            }),
        },
        match result {
            Ok(o) => result_view(result) == Ok::<
                crate::db::OutcomeView,
                crate::db::ExecErrorView,
            >(o@),
            Err(e) => result_view(result) == Err::<
                crate::db::OutcomeView,
                crate::db::ExecErrorView,
            >(e@),
        },
        match parse {
            Ok(r) => parse_view(parse) == Ok::<SqlRequestView, Seq<char>>(r@),
            Err(e) => parse_view(parse) == Err::<SqlRequestView, Seq<char>>(e@),
        },
{
}

/// A statement that went through is answered with status 200 and its outcome, whole.
pub proof fn law_answers_as_values(
    outcome: ExecOutcome,
    error: ExecError,
    request_id: &str,
    response: Response,
)
    ensures
        call_ensures(handle_executed, (Ok(outcome), request_id), response) ==> {
            &&& response.status == 200
            &&& response.body matches ResponseBody::Outcome(answered)
            &&& answered@.columns == outcome@.columns
            &&& answered@.rows == outcome@.rows
            &&& answered@.rowcount == outcome@.rowcount
            &&& answered@.lastrowid == outcome@.lastrowid
            &&& answered@.readonly == outcome@.readonly
        },
        call_ensures(handle_executed, (Err(error), request_id), response) ==> {
            &&& response.status == if error is Sql {
                400u16
            } else {
                500u16
            }
            &&& response.body matches ResponseBody::Error(e)
            &&& e.error.request_id@ == request_id@
            &&& match error {
                ExecError::Sql(f) => e.error.code@ == "RUSTYHIP_E_SQL"@ && e.error.message@
                    == crate::failure::chain_text(f@),
                ExecError::Checkpoint(f) => e.error.code@ == "RUSTYHIP_E_INTERNAL"@
                    && e.error.message@ == "checkpoint failed: "@ + crate::failure::chain_text(f@),
                ExecError::Internal(f) => e.error.code@ == "RUSTYHIP_E_INTERNAL"@
                    && e.error.message@ == crate::failure::chain_text(f@),
            }
        },
{
}

/// The steps of a request are those that were said above.
pub proof fn law_requests_as_values(
    state: AppState,
    request: HttpRequest,
    parse: Result<SqlRequest, String>,
    request_id: &str,
    step: HttpStep,
    id: String,
    nanos: Option<u128>,
    made: String,
)
    ensures
        call_ensures(handle, (&state, request, request_id), step) ==> step@ == handled(
            state@,
            request@,
            request_id@,
        ),
        call_ensures(handle_parsed, (&state, parse, request_id), step) ==> step@ == parsed(
            state@,
            match parse {
                Ok(r) => Ok(r@),
                Err(e) => Err(e@),
            },
            request_id@,
        ),
        call_ensures(extract_request_id, (Some(id), nanos), made) ==> made@ == id@,
        call_ensures(extract_request_id, (None, nanos), made) ==> made@ == "local-"@
            + text::decimal(
            match nanos {
                Some(n) => n as nat,
                None => 0,
            },
        ),
{
}

/// A request is let through when it carries the token, and refused otherwise.
pub proof fn law_verdicts_as_values(
    state: AppState,
    header: Vec<u8>,
    request_id: &str,
    verdict: Result<(), Response>,
)
    ensures
        call_ensures(check_auth, (&state, &Some(header), request_id), verdict) ==> match verdict {
            Ok(()) => authorized(state@.auth_token, Some(header@)),
            Err(response) => !authorized(state@.auth_token, Some(header@)) && response@ == refusal(
                request_id@,
            ),
        },
        call_ensures(check_auth, (&state, &None, request_id), verdict) ==> match verdict {
            Ok(()) => state.auth_token is None,
            Err(response) => state.auth_token is Some && response@ == refusal(request_id@),
        },
{
}

} // verus!
