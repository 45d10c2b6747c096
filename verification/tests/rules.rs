//! The rules that need no database: settings, policy, values, rows, steps.

use std::sync::Arc;

use rustyhip::db::{
    authorize_action, authorize_pragma, bind_number, bind_params, is_schema_change, json_to_sql,
    pragma_statements,
    shape_row, sql_to_json, Authorization, CheckpointStats, DbSettings, ExecError, ExecOutcome,
    Row, RowsFormat, SqlValue, SqliteDb, StatementAction, ARG_SAFE_PRAGMAS,
};
use rustyhip::errors;
use rustyhip::execution::{
    ExecOptions, Execution, Fetched, Prepared, Reply, Request, Step,
};
use rustyhip::failure::{error_is_interrupt, Cause, Failure};
use rustyhip::handler::{
    check_auth, extract_request_id, handle, handle_executed, handle_parsed, HttpRequest, HttpStep,
    Response, ResponseBody, SqlRequest,
};
use rustyhip::json::{real_to_json, Json, JsonObject};
use rustyhip::opening::{OpenReply, OpenRequest, OpenStep};
use rustyhip::settings::{CheckpointMode, JournalMode, Synchronous, TempStore};
use rustyhip::state::AppState;

fn text(s: &str) -> Json {
    Json::Text(s.to_owned())
}

fn failure(message: &str) -> Failure {
    Failure::new(message.to_owned())
}

fn interruption() -> Failure {
    Failure { causes: vec![Cause { message: "interrupted".to_owned(), interrupted: true }] }
}

// --- Settings and policy ---

fn statements(settings: &DbSettings) -> Vec<String> {
    pragma_statements(settings).into_iter().map(|p| p.sql).collect()
}

#[test]
fn no_settings_no_pragmas() {
    assert!(statements(&DbSettings::default()).is_empty());
}

#[test]
fn pragmas_come_in_their_order() {
    let settings = DbSettings {
        synchronous: Some(Synchronous::Extra),
        journal_mode: Some(JournalMode::Wal),
        page_cache_kb: Some(2048),
        mmap_size: Some(-5),
        temp_store: Some(TempStore::File),
        busy_timeout_ms: Some(250),
        max_rows: Some(1),
        query_timeout_ms: Some(1),
    };
    assert_eq!(
        statements(&settings),
        vec![
            "PRAGMA journal_mode = WAL",
            "PRAGMA synchronous = EXTRA",
            "PRAGMA temp_store = FILE",
            "PRAGMA cache_size = -2048",
            "PRAGMA mmap_size = -5",
            "PRAGMA busy_timeout = 250",
        ]
    );
    let labels: Vec<&str> = pragma_statements(&settings).iter().map(|p| p.label).collect();
    assert_eq!(
        labels,
        vec!["journal_mode", "synchronous", "temp_store", "cache_size", "mmap_size", "busy_timeout"]
    );
}

#[test]
fn the_sign_of_the_page_cache_does_not_matter() {
    for (kb, sql) in [
        (-2048, "PRAGMA cache_size = -2048"),
        (0, "PRAGMA cache_size = -0"),
        (i64::MAX, "PRAGMA cache_size = -9223372036854775807"),
        (i64::MIN, "PRAGMA cache_size = -9223372036854775808"),
    ] {
        let settings = DbSettings { page_cache_kb: Some(kb), ..DbSettings::default() };
        assert_eq!(statements(&settings), vec![sql]);
    }
}

#[test]
fn pragmas_are_judged_by_name_and_form() {
    assert_eq!(authorize_pragma("wal_checkpoint", true), Authorization::Allow);
    assert_eq!(authorize_pragma("WAL_Checkpoint", false), Authorization::Allow);
    for name in ARG_SAFE_PRAGMAS {
        assert_eq!(authorize_pragma(name, true), Authorization::Allow);
        assert_eq!(authorize_pragma(&name.to_uppercase(), true), Authorization::Allow);
    }
    for name in ["journal_mode", "synchronous", "temp_store", "cache_size", "mmap_size", "x", ""] {
        assert_eq!(authorize_pragma(name, false), Authorization::Allow);
        assert_eq!(authorize_pragma(name, true), Authorization::Deny);
    }
    assert_eq!(authorize_pragma("wal_autocheckpoint", true), Authorization::Deny);
}

#[test]
fn other_databases_are_denied() {
    assert_eq!(authorize_action(&StatementAction::Attach), Authorization::Deny);
    assert_eq!(authorize_action(&StatementAction::Detach), Authorization::Deny);
    assert_eq!(authorize_action(&StatementAction::Other), Authorization::Allow);
    let pragma = StatementAction::Pragma { name: "user_version".to_owned(), has_value: true };
    assert_eq!(authorize_action(&pragma), Authorization::Deny);
}

#[test]
fn schema_changes_are_known_by_their_first_word() {
    for sql in [
        "CREATE TABLE t (x)",
        "drop table t",
        "Alter Table t RENAME TO u",
        " \t\r\n\x0c;CREATE VIEW v AS SELECT 1",
        "-- a comment\nDROP VIEW v",
        "--\n-- two\n\nDROP VIEW v",
        "/* a ** comment */CREATE/**/TABLE t (x)",
        "/**/create index i on t (x)",
        "\u{feff}CREATE TABLE t (x)",
    ] {
        assert!(is_schema_change(sql), "{sql:?}");
    }
    for sql in [
        "",
        "-",
        "/",
        "INSERT INTO t VALUES ('CREATE')",
        "SELECT 'drop'",
        "-- CREATE TABLE t (x)",
        "-- CREATE\nDELETE FROM t",
        "/* DROP TABLE t",
        "/*/ DROP TABLE t",
        "/* CREATE */ UPDATE t SET x = 1",
        "- CREATE",
        "creat",
        "REPLACE INTO t VALUES (1)",
    ] {
        assert!(!is_schema_change(sql), "{sql:?}");
    }
}

#[test]
fn a_schema_change_reports_no_rows() {
    for (sql, rowcount) in [("/* new */ create table t (x)", 0), ("INSERT INTO t VALUES (1)", 2)] {
        let step = Execution::begin(sql.to_owned(), vec![], OPTIONS);
        let outcome = play(step, write_replies(true, false)).1.expect("over").expect("written");
        assert_eq!(outcome.rowcount, rowcount, "{sql}");
        assert!(!outcome.readonly);
    }
}

// --- Values and rows ---

#[test]
fn values_become_json() {
    assert_eq!(sql_to_json(&SqlValue::Null), Json::Null);
    assert_eq!(sql_to_json(&SqlValue::Integer(-3)), Json::Integer(-3));
    assert_eq!(sql_to_json(&SqlValue::Text("a".to_owned())), text("a"));
    assert_eq!(sql_to_json(&SqlValue::Blob(vec![1])), Json::Null);
    let bits = 2.5f64.to_bits();
    assert_eq!(sql_to_json(&SqlValue::Real(bits)), Json::Real(bits));
    assert_eq!(sql_to_json(&SqlValue::Real(f64::NAN.to_bits())), Json::Null);
}

#[test]
fn only_finite_reals_have_a_json_form() {
    for f in [0.0, -0.0, 1.0, f64::MIN, f64::MAX, f64::MIN_POSITIVE, 5e-324, f64::EPSILON] {
        assert_eq!(real_to_json(f.to_bits()), Json::Real(f.to_bits()));
        assert_eq!(real_to_json((-f).to_bits()), Json::Real((-f).to_bits()));
    }
    for f in [f64::NAN, -f64::NAN, f64::INFINITY, f64::NEG_INFINITY] {
        assert_eq!(real_to_json(f.to_bits()), Json::Null);
    }
}

#[test]
fn parameters_become_values() {
    assert_eq!(json_to_sql(Json::Null).ok(), Some(SqlValue::Null));
    assert_eq!(json_to_sql(Json::Bool(true)).ok(), Some(SqlValue::Integer(1)));
    assert_eq!(json_to_sql(Json::Bool(false)).ok(), Some(SqlValue::Integer(0)));
    assert_eq!(json_to_sql(Json::Integer(i64::MIN)).ok(), Some(SqlValue::Integer(i64::MIN)));
    assert_eq!(
        json_to_sql(Json::Unsigned(i64::MAX as u64)).ok(),
        Some(SqlValue::Integer(i64::MAX))
    );
    assert_eq!(
        json_to_sql(Json::Unsigned(1 << 63)).ok(),
        Some(SqlValue::Real(9_223_372_036_854_775_808.0f64.to_bits()))
    );
    assert_eq!(json_to_sql(Json::Real(7)).ok(), Some(SqlValue::Real(7)));
    assert_eq!(json_to_sql(text("a")).ok(), Some(SqlValue::Text("a".to_owned())));
    let err = json_to_sql(Json::Composite("Array []".to_owned())).expect_err("no value");
    assert_eq!(err.text(), "cannot bind Array [] as SQL parameter");
}

#[test]
fn a_number_without_a_double_cannot_be_bound() {
    assert_eq!(bind_number(5, None).ok(), Some(SqlValue::Integer(5)));
    assert_eq!(bind_number(u64::MAX, Some(9)).ok(), Some(SqlValue::Real(9)));
    let err = bind_number(u64::MAX, None).expect_err("no double");
    assert_eq!(err.text(), "number 18446744073709551615 does not fit i64 or f64");
}

#[test]
fn the_first_parameter_that_cannot_be_bound_decides() {
    let params = vec![
        Json::Integer(1),
        Json::Composite("first".to_owned()),
        Json::Composite("second".to_owned()),
    ];
    let err = bind_params(params).expect_err("no value");
    assert_eq!(err.text(), "cannot bind first as SQL parameter");
    let values = bind_params(vec![Json::Bool(true), text("a")]).expect("values");
    assert_eq!(values, vec![SqlValue::Integer(1), SqlValue::Text("a".to_owned())]);
    assert!(bind_params(vec![]).expect("values").is_empty());
}

#[test]
fn what_is_read_can_be_bound_again() {
    for value in [
        SqlValue::Null,
        SqlValue::Integer(-1),
        SqlValue::Integer(i64::MAX),
        SqlValue::Real(0.1f64.to_bits()),
        SqlValue::Text("ä".to_owned()),
    ] {
        assert_eq!(json_to_sql(sql_to_json(&value)).ok(), Some(value));
    }
}

fn columns(names: &[&str]) -> Vec<String> {
    names.iter().map(|n| (*n).to_owned()).collect()
}

#[test]
fn rows_take_the_wanted_shape() {
    let cells = vec![SqlValue::Integer(1), SqlValue::Integer(2), SqlValue::Integer(3)];
    match shape_row(RowsFormat::Objects, &columns(&["a", "b", "a"]), &cells) {
        Row::Object(object) => {
            assert_eq!(object.get("a"), Some(&Json::Integer(3)));
            assert_eq!(object.get("b"), Some(&Json::Integer(2)));
            assert_eq!(object.get("c"), None);
        }
        Row::Array(_) => panic!("an array"),
    }
    match shape_row(RowsFormat::Arrays, &columns(&["a", "b", "a"]), &cells) {
        Row::Array(values) => {
            assert_eq!(values, vec![Json::Integer(1), Json::Integer(2), Json::Integer(3)]);
        }
        Row::Object(_) => panic!("an object"),
    }
    assert_eq!(RowsFormat::default(), RowsFormat::Objects);
}

#[test]
fn an_object_holds_each_name_once() {
    let mut object = JsonObject::new();
    assert!(object.members().is_empty());
    object.insert("b".to_owned(), Json::Integer(1));
    object.insert("a".to_owned(), text("x"));
    object.insert("b".to_owned(), Json::Null);
    let mut members = object.members();
    members.sort_by(|x, y| x.0.cmp(&y.0));
    assert_eq!(members, vec![("a".to_owned(), text("x")), ("b".to_owned(), Json::Null)]);
}

// --- Failures ---

#[test]
fn a_failure_tells_its_whole_chain() {
    let err = failure("no such table: t").context("prepare statement".to_owned());
    assert_eq!(err.text(), "prepare statement: no such table: t");
    assert_eq!(failure("alone").text(), "alone");
    assert_eq!(Failure { causes: vec![] }.text(), "");
    assert!(!error_is_interrupt(&err));
    assert!(error_is_interrupt(&interruption().context("fetch next row".to_owned())));
}

// --- Executions ---

const OPTIONS: ExecOptions = ExecOptions {
    rows_format: RowsFormat::Arrays,
    checkpoint_mode: CheckpointMode::Truncate,
    max_rows: None,
    query_timeout_ms: None,
};

/// Hands the replies in one after the other and collects what is asked for.
fn play(start: Step, replies: Vec<Reply>) -> (Vec<String>, Option<Result<ExecOutcome, ExecError>>) {
    let mut asked = Vec::new();
    let mut step = start;
    let mut replies = replies.into_iter();
    loop {
        match step {
            Step::Done { result } => return (asked, Some(result)),
            Step::Ask { execution, request } => {
                asked.push(match &request {
                    Request::Prepare { sql } => format!("prepare {sql}"),
                    Request::Checkpoint { sql } => sql.clone(),
                    other => format!("{other:?}"),
                });
                match replies.next() {
                    Some(reply) => step = execution.step(reply),
                    None => return (asked, None),
                }
            }
        }
    }
}

fn begin(options: ExecOptions) -> Step {
    Execution::begin("SQL".to_owned(), vec![Json::Bool(true)], options)
}

fn prepared(readonly: bool) -> Reply {
    Reply::Prepared(Ok(Prepared { readonly, columns: columns(&["a"]), total_changes: 40 }))
}

fn row(n: i64) -> Reply {
    Reply::Fetched(Ok(Some(Fetched::Cells(vec![SqlValue::Integer(n)]))))
}

fn flushed(busy: i64) -> Reply {
    Reply::Checkpointed(Ok(CheckpointStats { busy, log: 4, checkpointed: 3 }))
}

fn write_replies(before: bool, after: bool) -> Vec<Reply> {
    vec![
        Reply::Autocommit(before),
        prepared(false),
        Reply::Queried(Ok(())),
        row(1),
        row(2),
        Reply::Fetched(Ok(None)),
        Reply::Counters { changes: 2, total_changes: 42, last_insert_rowid: 9 },
        Reply::Autocommit(after),
    ]
}

#[test]
fn a_write_is_followed_by_its_checkpoint() {
    let mut replies = write_replies(true, true);
    replies.push(flushed(0));
    let (asked, result) = play(begin(OPTIONS), replies);
    assert_eq!(
        asked,
        vec![
            "Autocommit",
            "prepare SQL",
            "Query { params: [Integer(1)] }",
            "FetchRow",
            "FetchRow",
            "FetchRow",
            "Counters",
            "Autocommit",
            "PRAGMA wal_checkpoint(TRUNCATE)",
        ]
    );
    let outcome = result.expect("over").expect("acknowledged");
    assert_eq!(outcome.columns, vec!["a"]);
    assert_eq!(outcome.rows.len(), 2);
    assert_eq!(outcome.rowcount, 2);
    assert_eq!(outcome.lastrowid, 9);
    assert!(!outcome.readonly);
}

#[test]
fn a_write_inside_a_transaction_is_not_flushed() {
    let (asked, result) = play(begin(OPTIONS), write_replies(false, false));
    assert_eq!(asked.len(), 8);
    assert!(result.expect("over").is_ok());
    let (asked, result) = play(begin(OPTIONS), write_replies(true, false));
    assert_eq!(asked.len(), 8);
    assert!(result.expect("over").is_ok());
}

#[test]
fn without_checkpoints_a_write_is_acknowledged_at_once() {
    let options = ExecOptions { checkpoint_mode: CheckpointMode::Off, ..OPTIONS };
    let (asked, result) = play(begin(options), write_replies(true, true));
    assert_eq!(asked.len(), 8);
    assert!(result.expect("over").is_ok());
}

fn read_replies(before: bool, after: bool) -> Vec<Reply> {
    vec![
        Reply::Autocommit(before),
        prepared(true),
        Reply::Queried(Ok(())),
        Reply::Fetched(Ok(None)),
        Reply::Autocommit(after),
    ]
}

#[test]
fn only_the_end_of_a_transaction_flushes_without_a_write() {
    let (asked, result) = play(begin(OPTIONS), read_replies(true, true));
    assert_eq!(asked.len(), 5);
    let outcome = result.expect("over").expect("read");
    assert_eq!((outcome.rowcount, outcome.lastrowid), (0, 0));
    let (asked, result) = play(begin(OPTIONS), read_replies(false, true));
    assert_eq!(asked.last().map(String::as_str), Some("PRAGMA wal_checkpoint(TRUNCATE)"));
    assert!(result.is_none());
    let (asked, _) = play(begin(OPTIONS), read_replies(false, false));
    assert_eq!(asked.len(), 5);
}

#[test]
fn an_incomplete_checkpoint_is_not_acknowledged() {
    let mut replies = write_replies(true, true);
    replies.push(flushed(1));
    match play(begin(OPTIONS), replies).1.expect("over") {
        Err(ExecError::Checkpoint(f)) => assert_eq!(
            f.text(),
            "wal_checkpoint(TRUNCATE) could not complete (busy=1, log=4, checkpointed=3)"
        ),
        other => panic!("{other:?}"),
    }
    let mut replies = write_replies(true, true);
    replies.push(Reply::Checkpointed(Err(failure("disk I/O error"))));
    match play(begin(OPTIONS), replies).1.expect("over") {
        Err(ExecError::Checkpoint(f)) => {
            assert_eq!(f.text(), "run PRAGMA wal_checkpoint(TRUNCATE): disk I/O error");
        }
        other => panic!("{other:?}"),
    }
}

fn sql_failure(options: ExecOptions, replies: Vec<Reply>) -> String {
    match play(begin(options), replies).1.expect("over") {
        Err(ExecError::Sql(f)) => f.text(),
        other => panic!("{other:?}"),
    }
}

#[test]
fn a_failure_says_what_was_being_done() {
    let start = || Reply::Autocommit(true);
    assert_eq!(
        sql_failure(OPTIONS, vec![start(), Reply::Prepared(Err(failure("bad")))]),
        "prepare statement: bad"
    );
    assert_eq!(
        sql_failure(OPTIONS, vec![start(), prepared(true), Reply::Queried(Err(failure("bad")))]),
        "execute statement: bad"
    );
    let fetching = || vec![start(), prepared(true), Reply::Queried(Ok(())), row(1)];
    let mut replies = fetching();
    replies.push(Reply::Fetched(Err(failure("bad"))));
    assert_eq!(sql_failure(OPTIONS, replies), "fetch next row: bad");
    let mut replies = fetching();
    replies.push(Reply::Fetched(Ok(Some(Fetched::Unreadable {
        column: 12,
        failure: failure("bad"),
    }))));
    assert_eq!(sql_failure(OPTIONS, replies), "read column 12: bad");
}

#[test]
fn too_many_rows_are_refused() {
    let options = ExecOptions { max_rows: Some(1), ..OPTIONS };
    let replies =
        vec![Reply::Autocommit(true), prepared(true), Reply::Queried(Ok(())), row(1), row(2)];
    assert_eq!(
        sql_failure(options, replies),
        "result exceeded RUSTYHIP_MAX_ROWS=1; refusing to materialize more rows"
    );
}

#[test]
fn an_interruption_is_a_timeout_where_there_is_a_limit() {
    let replies = || {
        vec![
            Reply::Autocommit(true),
            prepared(true),
            Reply::Queried(Ok(())),
            Reply::Fetched(Err(interruption())),
        ]
    };
    let limited = ExecOptions { query_timeout_ms: Some(250), ..OPTIONS };
    assert_eq!(sql_failure(limited, replies()), "query timeout exceeded 250ms");
    assert_eq!(sql_failure(OPTIONS, replies()), "fetch next row: interrupted");
    let plain = vec![Reply::Autocommit(true), Reply::Prepared(Err(failure("bad")))];
    assert_eq!(sql_failure(limited, plain), "prepare statement: bad");
}

#[test]
fn change_counts_are_capped() {
    let mut replies = write_replies(true, false);
    replies[6] =
        Reply::Counters { changes: u64::MAX, total_changes: u64::MAX, last_insert_rowid: -1 };
    let outcome = play(begin(OPTIONS), replies).1.expect("over").expect("written");
    assert_eq!(outcome.rowcount, i64::MAX);
    assert_eq!(outcome.lastrowid, -1);
}

#[test]
fn an_unchanged_total_reports_no_rows() {
    let mut replies = write_replies(true, false);
    replies[6] = Reply::Counters { changes: 2, total_changes: 40, last_insert_rowid: 9 };
    let outcome = play(begin(OPTIONS), replies).1.expect("over").expect("written");
    assert_eq!((outcome.rowcount, outcome.lastrowid), (0, 9));
}

#[test]
fn the_time_limit_is_that_of_the_options() {
    for limit in [None, Some(250)] {
        match begin(ExecOptions { query_timeout_ms: limit, ..OPTIONS }) {
            Step::Ask { execution, .. } => assert_eq!(execution.time_limit_ms(), limit),
            other => panic!("{other:?}"),
        }
    }
}

#[test]
fn a_reply_to_something_else_ends_the_execution() {
    for replies in [
        vec![Reply::Queried(Ok(()))],
        vec![Reply::Autocommit(true), Reply::Autocommit(true)],
        vec![
            Reply::Autocommit(true),
            prepared(true),
            Reply::Queried(Ok(())),
            Reply::Fetched(Ok(Some(Fetched::Cells(vec![])))),
        ],
    ] {
        match play(begin(OPTIONS), replies).1.expect("over") {
            Err(ExecError::Internal(f)) => {
                assert_eq!(f.text(), "reply does not answer the request");
            }
            other => panic!("{other:?}"),
        }
    }
}

#[test]
fn the_time_limit_covers_the_statement_alone() {
    assert!(Request::Prepare { sql: String::new() }.is_timed());
    assert!(Request::Query { params: vec![] }.is_timed());
    assert!(Request::FetchRow.is_timed());
    assert!(Request::Counters.is_timed());
    assert!(!Request::Autocommit.is_timed());
    assert!(!Request::Checkpoint { sql: String::new() }.is_timed());
}

// --- Opening ---

fn play_opening(start: OpenStep, failing: bool) -> (Vec<String>, Result<SqliteDb, Failure>) {
    let mut asked = Vec::new();
    let mut step = start;
    loop {
        match step {
            OpenStep::Done { result } => return (asked, result),
            OpenStep::Ask { opening, request } => {
                step = opening.step(match request {
                    OpenRequest::Connect { path, vfs } => {
                        asked.push(format!("connect {path} {vfs:?}"));
                        OpenReply::Connected(Ok(()))
                    }
                    OpenRequest::Configure { statement } => {
                        asked.push(statement.sql);
                        let refused = failure("refused");
                        OpenReply::Configured(if failing { Err(refused) } else { Ok(()) })
                    }
                    OpenRequest::Guard => {
                        asked.push("guard".to_owned());
                        OpenReply::Guarded
                    }
                });
            }
        }
    }
}

#[test]
fn a_connection_is_configured_and_then_guarded() {
    let settings = DbSettings {
        journal_mode: Some(JournalMode::Wal),
        busy_timeout_ms: Some(5),
        ..DbSettings::default()
    };
    for failing in [false, true] {
        let step = SqliteDb::open_with("x.db".to_owned(), Some("tiered".to_owned()), settings);
        let (asked, result) = play_opening(step, failing);
        assert_eq!(
            asked,
            vec![
                "connect x.db Some(\"tiered\")",
                "PRAGMA journal_mode = WAL",
                "PRAGMA busy_timeout = 5",
                "guard",
            ]
        );
        let db = result.expect("open");
        assert_eq!(db.path(), "x.db");
        assert_eq!(db.settings().busy_timeout_ms, Some(5));
    }
    let (asked, result) = play_opening(SqliteDb::open("y.db".to_owned()), false);
    assert_eq!(asked, vec!["connect y.db None", "guard"]);
    assert!(result.is_ok());
}

#[test]
fn an_opening_out_of_step_fails() {
    match SqliteDb::open("y.db".to_owned()) {
        OpenStep::Ask { opening, .. } => match opening.step(OpenReply::Guarded) {
            OpenStep::Done { result: Err(f) } => {
                assert_eq!(f.text(), "reply does not answer the request");
            }
            other => panic!("{other:?}"),
        },
        other => panic!("{other:?}"),
    }
}

// --- Requests ---

fn state(token: Option<&str>) -> AppState {
    let (_, db) = play_opening(SqliteDb::open("x.db".to_owned()), false);
    AppState::new(Arc::new(db.expect("open")), token.map(str::to_owned))
}

fn request(method: &str, path: &str, authorization: Option<&[u8]>) -> HttpRequest {
    HttpRequest {
        method: method.to_owned(),
        path: path.to_owned(),
        authorization: authorization.map(<[u8]>::to_vec),
        body: b"{}".to_vec(),
    }
}

fn respond(step: HttpStep) -> Response {
    match step {
        HttpStep::Respond { response } => response,
        other => panic!("{other:?}"),
    }
}

fn error_of(response: &Response) -> (&str, &str, &str) {
    match &response.body {
        ResponseBody::Error(e) => (e.error.code, &e.error.message, &e.error.request_id),
        other => panic!("{other:?}"),
    }
}

#[test]
fn a_token_guards_every_route() {
    let guarded = state(Some("s3cret"));
    for (method, path) in [("GET", "/"), ("GET", "/health"), ("POST", "/sql"), ("PUT", "/x")] {
        for header in [
            None,
            Some(&b"s3cret"[..]),
            Some(b"Bearer s3cre"),
            Some(b"Bearer s3cret "),
            Some(b"BEARER s3cret"),
            Some(b"Bearer  s3cret"),
            Some(b"Bearer s3cret\x7f"),
            Some(b"Bearer "),
            Some(b""),
        ] {
            let response = respond(handle(&guarded, request(method, path, header), "id"));
            assert_eq!(response.status, 401);
            assert_eq!(
                error_of(&response),
                (errors::UNAUTHORIZED, "invalid or missing bearer token", "id")
            );
        }
    }
    for header in [&b"Bearer s3cret"[..], b"bearer s3cret"] {
        let response = respond(handle(&guarded, request("GET", "/", Some(header)), "id"));
        assert_eq!(response.status, 200);
        assert!(check_auth(&guarded, &Some(header.to_vec()), "id").is_ok());
    }
}

#[test]
fn a_token_outside_ascii_never_matches() {
    let guarded = state(Some("ä"));
    let header = "Bearer ä".as_bytes();
    assert!(check_auth(&guarded, &Some(header.to_vec()), "id").is_err());
    let tabbed = state(Some("a\tb"));
    assert!(check_auth(&tabbed, &Some(b"Bearer a\tb".to_vec()), "id").is_ok());
}

#[test]
fn without_a_token_all_are_served() {
    let open = state(None);
    assert_eq!(respond(handle(&open, request("GET", "/", None), "id")).status, 200);
    assert_eq!(respond(handle(&open, request("GET", "/", Some(b"\xff")), "id")).status, 200);
}

#[test]
fn other_routes_do_not_exist() {
    let open = state(None);
    for (method, path) in
        [("POST", "/"), ("GET", "/sql"), ("get", "/"), ("GET", "/health/"), ("GET", ""), ("", "")]
    {
        let response = respond(handle(&open, request(method, path, None), "id"));
        assert_eq!(response.status, 404);
        let message = format!("no route for {method} {path}");
        assert_eq!(error_of(&response), (errors::NOT_FOUND, message.as_str(), "id"));
    }
}

#[test]
fn a_body_at_the_cap_is_read() {
    let capped = state(None).with_max_body_bytes(Some(2));
    match handle(&capped, request("POST", "/sql", None), "id") {
        HttpStep::Parse { body } => assert_eq!(body, b"{}"),
        other => panic!("{other:?}"),
    }
    let capped = capped.with_max_body_bytes(Some(1));
    let response = respond(handle(&capped, request("POST", "/sql", None), "id"));
    assert_eq!(response.status, 413);
    assert_eq!(
        error_of(&response),
        (
            errors::VALIDATION,
            "request body of 2 bytes exceeds RUSTYHIP_MAX_BODY_BYTES=1",
            "id"
        )
    );
}

#[test]
fn a_body_that_is_no_request_is_refused() {
    let step = handle_parsed(&state(None), Err("expected value".to_owned()), "id");
    let response = respond(step);
    assert_eq!(response.status, 400);
    assert_eq!(error_of(&response), (errors::VALIDATION, "invalid JSON: expected value", "id"));
}

#[test]
fn a_statement_runs_with_the_mode_of_the_service() {
    for (mode, asked) in [
        (CheckpointMode::Truncate, Some("PRAGMA wal_checkpoint(TRUNCATE)")),
        (CheckpointMode::Full, Some("PRAGMA wal_checkpoint(FULL)")),
        (CheckpointMode::Off, None),
    ] {
        let sql = SqlRequest {
            sql: "SQL".to_owned(),
            params: vec![],
            rows_format: RowsFormat::Objects,
        };
        let serving = state(None).with_checkpoint_mode(mode);
        match handle_parsed(&serving, Ok(sql), "id") {
            HttpStep::Execute { step } => {
                let (requests, result) = play(step, write_replies(true, true));
                assert_eq!(requests[1], "prepare SQL");
                assert_eq!(result.is_some(), asked.is_none());
                if let Some(sql) = asked {
                    assert_eq!(requests[8], sql);
                }
            }
            other => panic!("{other:?}"),
        }
    }
}

#[test]
fn results_are_answered_by_their_kind() {
    let outcome = ExecOutcome {
        columns: vec![],
        rows: vec![],
        rowcount: 0,
        lastrowid: 0,
        readonly: true,
    };
    let response = handle_executed(Ok(outcome), "id");
    assert_eq!(response.status, 200);
    assert!(matches!(response.body, ResponseBody::Outcome(_)));
    let chain = || failure("inner").context("outer".to_owned());
    let response = handle_executed(Err(ExecError::Sql(chain())), "id");
    assert_eq!(response.status, 400);
    assert_eq!(error_of(&response), (errors::SQL, "outer: inner", "id"));
    let response = handle_executed(Err(ExecError::Checkpoint(chain())), "id");
    assert_eq!(response.status, 500);
    assert_eq!(
        error_of(&response),
        (errors::INTERNAL, "checkpoint failed: outer: inner", "id")
    );
    let response = handle_executed(Err(ExecError::Internal(chain())), "id");
    assert_eq!(response.status, 500);
    assert_eq!(error_of(&response), (errors::INTERNAL, "outer: inner", "id"));
}

#[test]
fn request_ids_come_from_the_context_or_the_clock() {
    assert_eq!(extract_request_id(Some("abc".to_owned()), Some(5)), "abc");
    assert_eq!(extract_request_id(None, Some(1_700_000_000_000_000_000)), "local-1700000000000000000");
    assert_eq!(extract_request_id(None, None), "local-0");
}
