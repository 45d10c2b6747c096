//! Statements and requests against a real SQLite database.

use std::error::Error as StdError;
use std::path::Path;
use std::sync::Arc;
use std::time::{Duration, Instant};

use rusqlite::hooks::{AuthAction, AuthContext};
use rusqlite::types::Value;
use rusqlite::{Connection, OpenFlags, Rows};
use tempfile::{NamedTempFile, TempDir};

use rustyhip::db::{
    authorize_action, Authorization, CheckpointStats, DbSettings, ExecError, ExecOutcome, Row,
    RowsFormat, SqlValue, SqliteDb, StatementAction,
};
use rustyhip::errors;
use rustyhip::execution::{Execution, Fetched, Prepared, Reply, Request, Step};
use rustyhip::failure::{Cause, Failure};
use rustyhip::handler::{
    extract_request_id, handle, handle_executed, handle_parsed, HttpRequest, HttpStep, Response,
    ResponseBody, SqlRequest,
};
use rustyhip::json::Json;
use rustyhip::opening::{OpenReply, OpenRequest, OpenStep};
use rustyhip::settings::{CheckpointMode, JournalMode, Synchronous};
use rustyhip::state::AppState;
use rustyhip::VERSION;

// --- A connection that does what the library asks for ---

struct Database {
    db: Arc<SqliteDb>,
    conn: Connection,
}

fn failure_of(error: rusqlite::Error) -> Failure {
    let interrupted =
        error.sqlite_error_code() == Some(rusqlite::ffi::ErrorCode::OperationInterrupted);
    let mut causes = vec![Cause { message: error.to_string(), interrupted }];
    let mut source = error.source();
    while let Some(inner) = source {
        causes.push(Cause { message: inner.to_string(), interrupted: false });
        source = inner.source();
    }
    Failure { causes }
}

fn action_of(action: &AuthAction<'_>) -> StatementAction {
    match action {
        AuthAction::Attach { .. } => StatementAction::Attach,
        AuthAction::Detach { .. } => StatementAction::Detach,
        AuthAction::Pragma { pragma_name, pragma_value } => StatementAction::Pragma {
            name: (*pragma_name).to_owned(),
            has_value: pragma_value.is_some(),
        },
        _ => StatementAction::Other,
    }
}

fn guard(ctx: AuthContext<'_>) -> rusqlite::hooks::Authorization {
    match authorize_action(&action_of(&ctx.action)) {
        Authorization::Allow => rusqlite::hooks::Authorization::Allow,
        Authorization::Deny => rusqlite::hooks::Authorization::Deny,
    }
}

fn open_database(start: OpenStep) -> Result<Database, Failure> {
    let mut conn: Option<Connection> = None;
    let mut step = start;
    loop {
        match step {
            OpenStep::Done { result } => {
                let db = Arc::new(result?);
                return Ok(Database { db, conn: conn.expect("a connection was opened") });
            }
            OpenStep::Ask { opening, request } => {
                let reply = match request {
                    OpenRequest::Connect { path, vfs } => {
                        let opened = match vfs {
                            None => Connection::open(&path),
                            Some(name) => Connection::open_with_flags_and_vfs(
                                &path,
                                OpenFlags::SQLITE_OPEN_READ_WRITE | OpenFlags::SQLITE_OPEN_CREATE,
                                name.as_str(),
                            ),
                        };
                        match opened {
                            Ok(c) => {
                                conn = Some(c);
                                OpenReply::Connected(Ok(()))
                            }
                            Err(e) => OpenReply::Connected(Err(failure_of(e))),
                        }
                    }
                    OpenRequest::Configure { statement } => {
                        let c = conn.as_ref().expect("open");
                        OpenReply::Configured(c.execute_batch(&statement.sql).map_err(failure_of))
                    }
                    OpenRequest::Guard => {
                        let c = conn.as_ref().expect("open");
                        c.authorizer(Some(guard));
                        OpenReply::Guarded
                    }
                };
                step = opening.step(reply);
            }
        }
    }
}

fn bound(value: SqlValue) -> Value {
    match value {
        SqlValue::Null => Value::Null,
        SqlValue::Integer(n) => Value::Integer(n),
        SqlValue::Real(bits) => Value::Real(f64::from_bits(bits)),
        SqlValue::Text(s) => Value::Text(s),
        SqlValue::Blob(b) => Value::Blob(b),
    }
}

fn cell(value: Value) -> SqlValue {
    match value {
        Value::Null => SqlValue::Null,
        Value::Integer(n) => SqlValue::Integer(n),
        Value::Real(f) => SqlValue::Real(f.to_bits()),
        Value::Text(s) => SqlValue::Text(s),
        Value::Blob(b) => SqlValue::Blob(b),
    }
}

fn fetch(rows: &mut Rows<'_>, columns: usize) -> Result<Option<Fetched>, Failure> {
    let Some(row) = rows.next().map_err(failure_of)? else {
        return Ok(None);
    };
    let mut cells = Vec::new();
    for i in 0..columns {
        match row.get::<usize, Value>(i) {
            Ok(v) => cells.push(cell(v)),
            Err(e) => {
                return Ok(Some(Fetched::Unreadable { column: i, failure: failure_of(e) }));
            }
        }
    }
    Ok(Some(Fetched::Cells(cells)))
}

fn run_statement(conn: &Connection, execution: Execution, sql: &str) -> Step {
    let mut stmt = match conn.prepare(sql) {
        Ok(stmt) => stmt,
        Err(e) => return execution.step(Reply::Prepared(Err(failure_of(e)))),
    };
    let columns: Vec<String> = stmt.column_names().into_iter().map(str::to_owned).collect();
    let count = columns.len();
    let total_changes = conn.total_changes();
    let prepared = Prepared { readonly: stmt.readonly(), columns, total_changes };
    let (execution, params) = match execution.step(Reply::Prepared(Ok(prepared))) {
        Step::Ask { execution, request: Request::Query { params } } => (execution, params),
        other => return other,
    };
    let values: Vec<Value> = params.into_iter().map(bound).collect();
    let mut rows = match stmt.query(rusqlite::params_from_iter(values.iter())) {
        Ok(rows) => rows,
        Err(e) => return execution.step(Reply::Queried(Err(failure_of(e)))),
    };
    let mut step = execution.step(Reply::Queried(Ok(())));
    loop {
        match step {
            Step::Ask { execution, request: Request::FetchRow } => {
                step = execution.step(Reply::Fetched(fetch(&mut rows, count)));
            }
            other => return other,
        }
    }
}

fn checkpoint(conn: &Connection, sql: &str) -> Result<CheckpointStats, Failure> {
    conn.query_row(sql, [], |row| {
        Ok(CheckpointStats { busy: row.get(0)?, log: row.get(1)?, checkpointed: row.get(2)? })
    })
    .map_err(failure_of)
}

/// Runs a statement, and counts the checkpoints that it asks for.
fn run_counted(conn: &Connection, start: Step) -> (Result<ExecOutcome, ExecError>, usize) {
    let mut checkpoints = 0;
    let mut timed = false;
    let mut step = start;
    loop {
        match step {
            Step::Done { result } => {
                conn.progress_handler::<fn() -> bool>(0, None);
                return (result, checkpoints);
            }
            Step::Ask { execution, request } => {
                if let Some(ms) = execution.time_limit_ms() {
                    if request.is_timed() && !timed {
                        timed = true;
                        let deadline = Instant::now() + Duration::from_millis(ms);
                        conn.progress_handler(10_000, Some(move || Instant::now() > deadline));
                    } else if !request.is_timed() {
                        timed = false;
                        conn.progress_handler::<fn() -> bool>(0, None);
                    }
                }
                step = match request {
                    Request::Autocommit => execution.step(Reply::Autocommit(conn.is_autocommit())),
                    Request::Prepare { sql } => run_statement(conn, execution, &sql),
                    Request::Counters => execution.step(Reply::Counters {
                        changes: conn.changes(),
                        total_changes: conn.total_changes(),
                        last_insert_rowid: conn.last_insert_rowid(),
                    }),
                    Request::Checkpoint { sql } => {
                        checkpoints += 1;
                        execution.step(Reply::Checkpointed(checkpoint(conn, &sql)))
                    }
                    Request::Query { .. } | Request::FetchRow => {
                        unreachable!("no statement is prepared")
                    }
                };
            }
        }
    }
}

impl Database {
    fn run(&self, step: Step) -> Result<ExecOutcome, ExecError> {
        run_counted(&self.conn, step).0
    }

    fn exec(&self, sql: &str, params: Vec<Json>) -> Result<ExecOutcome, Failure> {
        self.run(self.db.exec(sql.to_owned(), params)).map_err(ExecError::into_failure)
    }

    fn exec_durable(
        &self,
        sql: &str,
        format: RowsFormat,
        mode: CheckpointMode,
    ) -> Result<ExecOutcome, ExecError> {
        self.run(self.db.exec_durable(sql.to_owned(), vec![], format, mode))
    }
}

fn open_with(path: &Path, settings: DbSettings) -> Database {
    let path = path.to_str().expect("path").to_owned();
    open_database(SqliteDb::open_with(path, None, settings)).expect("open")
}

fn empty_db() -> (NamedTempFile, Database) {
    let file = NamedTempFile::new().expect("tempfile");
    let path = file.path().to_str().expect("path").to_owned();
    let db = open_database(SqliteDb::open(path)).expect("open sqlite");
    (file, db)
}

fn exec_sql(db: &Database, sql: &str) -> ExecOutcome {
    db.exec(sql, vec![]).expect("exec")
}

fn text(s: &str) -> Json {
    Json::Text(s.to_owned())
}

fn member<'a>(row: &'a Row, name: &str) -> &'a Json {
    match row {
        Row::Object(object) => object.get(name).expect("member"),
        Row::Array(_) => panic!("the row is an array"),
    }
}

fn array(row: &Row) -> &Vec<Json> {
    match row {
        Row::Array(values) => values,
        Row::Object(_) => panic!("the row is an object"),
    }
}

fn mentions(failure: &Failure, words: &str) -> bool {
    failure.causes.iter().any(|c| c.message.contains(words))
}

// --- Statements ---

#[test]
fn create_table_is_not_readonly() {
    let (_f, db) = empty_db();
    let out = exec_sql(&db, "CREATE TABLE fruit (id INTEGER PRIMARY KEY, name TEXT)");
    assert!(!out.readonly);
    assert!(out.rows.is_empty());
}

#[test]
fn select_is_readonly() {
    let (_f, db) = empty_db();
    exec_sql(&db, "CREATE TABLE fruit (id INTEGER PRIMARY KEY, name TEXT)");
    let out = exec_sql(&db, "SELECT name FROM fruit");
    assert!(out.readonly);
    assert_eq!(out.columns, vec!["name".to_owned()]);
    assert_eq!(out.rows.len(), 0);
}

#[test]
fn insert_returns_rowcount_and_lastrowid() {
    let (_f, db) = empty_db();
    exec_sql(&db, "CREATE TABLE fruit (id INTEGER PRIMARY KEY, name TEXT)");
    let out = db
        .exec("INSERT INTO fruit (name) VALUES (?), (?)", vec![text("apple"), text("peach")])
        .expect("insert");
    assert!(!out.readonly);
    assert_eq!(out.rowcount, 2);
    assert_eq!(out.lastrowid, 2);
}

#[test]
fn parameterized_select_works() {
    let (_f, db) = empty_db();
    exec_sql(&db, "CREATE TABLE fruit (id INTEGER PRIMARY KEY, name TEXT)");
    exec_sql(&db, "INSERT INTO fruit (name) VALUES ('apple'), ('peach'), ('pear')");
    let out =
        db.exec("SELECT name FROM fruit WHERE name = ?", vec![text("peach")]).expect("select");
    assert_eq!(out.rows.len(), 1);
    assert_eq!(member(&out.rows[0], "name"), &text("peach"));
}

#[test]
fn select_does_not_leak_previous_write_counters() {
    let (_f, db) = empty_db();
    exec_sql(&db, "CREATE TABLE fruit (id INTEGER PRIMARY KEY, name TEXT)");
    let write = exec_sql(&db, "INSERT INTO fruit (name) VALUES ('apple'), ('peach')");
    assert_eq!(write.rowcount, 2);
    assert_eq!(write.lastrowid, 2);
    let read = exec_sql(&db, "SELECT name FROM fruit");
    assert_eq!(read.rowcount, 0, "SELECT must report rowcount 0");
    assert_eq!(read.lastrowid, 0, "SELECT must report lastrowid 0");
}

#[test]
fn schema_changes_report_no_rows() {
    let (_f, db) = empty_db();
    exec_sql(&db, "CREATE TABLE t (x INTEGER)");
    assert_eq!(exec_sql(&db, "INSERT INTO t VALUES (1),(2)").rowcount, 2);
    for sql in [
        "CREATE TABLE u (y INTEGER)",
        "CREATE TABLE v AS SELECT x FROM t",
        "CREATE INDEX i ON t (x)",
        "ALTER TABLE u RENAME TO w",
        "ALTER TABLE t ADD COLUMN z TEXT",
        "DROP INDEX i",
        "DROP TABLE w",
        "CREATE VIRTUAL TABLE f USING fts5(a)",
        "; -- one more\n /* with ; inside */\tcreate virtual table g using fts5(a)",
        "DROP TABLE g",
        "REINDEX",
        "ANALYZE",
    ] {
        let out = exec_sql(&db, sql);
        assert!(!out.readonly, "{sql}");
        assert!(out.columns.is_empty() && out.rows.is_empty(), "{sql}");
        assert_eq!(out.rowcount, 0, "{sql}");
    }
    assert_eq!(exec_sql(&db, "UPDATE t SET x = 5 WHERE x > 9").rowcount, 0);
    assert_eq!(exec_sql(&db, "UPDATE t SET x = 5").rowcount, 2);
    assert_eq!(exec_sql(&db, "DELETE FROM t WHERE x = 5").rowcount, 2);
}

#[test]
fn rows_format_arrays_aligns_with_columns() {
    let (_f, db) = empty_db();
    exec_sql(&db, "CREATE TABLE fruit (id INTEGER PRIMARY KEY, name TEXT)");
    exec_sql(&db, "INSERT INTO fruit (name) VALUES ('apple'), ('peach')");
    let out = db
        .exec_durable(
            "SELECT id, name FROM fruit ORDER BY id",
            RowsFormat::Arrays,
            CheckpointMode::Off,
        )
        .expect("select");
    assert_eq!(out.columns, vec!["id".to_owned(), "name".to_owned()]);
    assert_eq!(array(&out.rows[0]), &vec![Json::Integer(1), text("apple")]);
    assert_eq!(array(&out.rows[1]), &vec![Json::Integer(2), text("peach")]);
}

#[test]
fn rows_format_arrays_preserves_duplicate_column_names() {
    let (_f, db) = empty_db();
    let out = db
        .exec_durable("SELECT 1 AS a, 2 AS a", RowsFormat::Arrays, CheckpointMode::Off)
        .expect("select");
    assert_eq!(out.columns, vec!["a".to_owned(), "a".to_owned()]);
    assert_eq!(
        array(&out.rows[0]),
        &vec![Json::Integer(1), Json::Integer(2)],
        "both duplicate-named columns must survive"
    );
}

#[test]
fn object_rows_keep_the_last_of_duplicate_column_names() {
    let (_f, db) = empty_db();
    let out = exec_sql(&db, "SELECT 1 AS a, 'x' AS b, 2 AS a");
    assert_eq!(member(&out.rows[0], "a"), &Json::Integer(2));
    assert_eq!(member(&out.rows[0], "b"), &text("x"));
    match &out.rows[0] {
        Row::Object(object) => assert_eq!(object.members().len(), 2),
        Row::Array(_) => panic!("the row is an array"),
    }
}

#[test]
fn missing_table_returns_error() {
    let (_f, db) = empty_db();
    let err = db.exec("SELECT * FROM does_not_exist", vec![]).expect_err("should fail");
    assert!(mentions(&err, "no such table"));
    assert!(err.text().starts_with("prepare statement: no such table: does_not_exist"));
}

#[test]
fn a_missing_parameter_fails_the_execution() {
    let (_f, db) = empty_db();
    let err = db.exec("SELECT ?", vec![]).expect_err("should fail");
    assert!(err.text().starts_with("execute statement: "), "{}", err.text());
}

#[test]
fn a_row_that_cannot_be_computed_fails_the_fetch() {
    let (_f, db) = empty_db();
    exec_sql(&db, "CREATE TABLE t (x TEXT)");
    exec_sql(&db, "INSERT INTO t VALUES ('not json')");
    let err = db.exec("SELECT json_extract(x, '$.a') FROM t", vec![]).expect_err("should fail");
    assert!(err.text().starts_with("fetch next row: "), "{}", err.text());
}

#[test]
fn values_of_every_type_come_back() {
    let (_f, db) = empty_db();
    let out = db
        .exec_durable(
            "SELECT NULL, 7, -7, 1.5, 'a', x'00ff', 9e999",
            RowsFormat::Arrays,
            CheckpointMode::Off,
        )
        .expect("select");
    assert_eq!(
        array(&out.rows[0]),
        &vec![
            Json::Null,
            Json::Integer(7),
            Json::Integer(-7),
            Json::Real(1.5f64.to_bits()),
            text("a"),
            Json::Null,
            Json::Null,
        ]
    );
}

#[test]
fn parameters_of_every_type_are_bound() {
    let (_f, db) = empty_db();
    let step = db.db.exec_durable(
        "SELECT ?, ?, ?, ?, ?, ?, ?, typeof(?6)".to_owned(),
        vec![
            Json::Null,
            Json::Bool(true),
            Json::Bool(false),
            Json::Integer(-9),
            Json::Unsigned(9),
            Json::Unsigned(u64::MAX),
            text("t"),
        ],
        RowsFormat::Arrays,
        CheckpointMode::Off,
    );
    let out = db.run(step).expect("select");
    assert_eq!(
        array(&out.rows[0]),
        &vec![
            Json::Null,
            Json::Integer(1),
            Json::Integer(0),
            Json::Integer(-9),
            Json::Integer(9),
            Json::Real((u64::MAX as f64).to_bits()),
            text("t"),
            text("real"),
        ]
    );
}

// --- Settings ---

#[test]
fn synchronous_pragma_is_applied() {
    let file = NamedTempFile::new().expect("tempfile");
    let settings =
        DbSettings { synchronous: Some(Synchronous::Normal), ..DbSettings::default() };
    let db = open_with(file.path(), settings);
    let out = db.exec("PRAGMA synchronous", vec![]).expect("read pragma");
    // SQLite reports 0 to 3; NORMAL is 1.
    assert_eq!(member(&out.rows[0], "synchronous"), &Json::Integer(1));
}

#[test]
fn journal_mode_pragma_is_applied() {
    let file = NamedTempFile::new().expect("tempfile");
    let settings =
        DbSettings { journal_mode: Some(JournalMode::Memory), ..DbSettings::default() };
    let db = open_with(file.path(), settings);
    let out = db.exec("PRAGMA journal_mode", vec![]).expect("read pragma");
    assert_eq!(member(&out.rows[0], "journal_mode"), &text("memory"));
}

#[test]
fn page_cache_is_set_in_kilobytes() {
    let file = NamedTempFile::new().expect("tempfile");
    let settings = DbSettings { page_cache_kb: Some(4096), ..DbSettings::default() };
    let db = open_with(file.path(), settings);
    let out = db.exec("PRAGMA cache_size", vec![]).expect("read pragma");
    assert_eq!(member(&out.rows[0], "cache_size"), &Json::Integer(-4096));
}

#[test]
fn max_rows_clip_returns_error_before_overrunning() {
    let file = NamedTempFile::new().expect("tempfile");
    let settings = DbSettings { max_rows: Some(2), ..DbSettings::default() };
    let db = open_with(file.path(), settings);
    db.exec("CREATE TABLE t (id INTEGER PRIMARY KEY)", vec![]).expect("create");
    db.exec("INSERT INTO t VALUES (1),(2),(3),(4)", vec![]).expect("seed");
    let err = db.exec("SELECT id FROM t", vec![]).expect_err("should clip");
    assert!(err.text().contains("RUSTYHIP_MAX_ROWS=2"), "unexpected error: {}", err.text());
}

#[test]
fn max_rows_admits_exactly_the_cap() {
    let file = NamedTempFile::new().expect("tempfile");
    let settings = DbSettings { max_rows: Some(2), ..DbSettings::default() };
    let db = open_with(file.path(), settings);
    let out = db.exec("SELECT 1 UNION ALL SELECT 2", vec![]).expect("select");
    assert_eq!(out.rows.len(), 2);
}

#[test]
fn max_rows_unset_returns_all() {
    let (_f, db) = empty_db();
    db.exec("CREATE TABLE t (id INTEGER PRIMARY KEY)", vec![]).expect("create");
    db.exec("INSERT INTO t VALUES (1),(2),(3),(4)", vec![]).expect("seed");
    let out = db.exec("SELECT id FROM t", vec![]).expect("select");
    assert_eq!(out.rows.len(), 4);
}

#[test]
fn query_timeout_aborts_runaway_query() {
    let file = NamedTempFile::new().expect("tempfile");
    let settings = DbSettings { query_timeout_ms: Some(50), ..DbSettings::default() };
    let db = open_with(file.path(), settings);
    let err = db
        .exec(
            "WITH RECURSIVE c(n) AS (SELECT 1 UNION ALL SELECT n+1 FROM c) SELECT COUNT(*) FROM c",
            vec![],
        )
        .expect_err("should time out");
    assert!(
        err.text().contains("query timeout exceeded"),
        "unexpected error: {}",
        err.text()
    );
    assert_eq!(err.text(), "query timeout exceeded 50ms");
}

#[test]
fn a_database_that_cannot_be_opened_says_which() {
    let missing = "/nonexistent-directory/x.db";
    let err = match open_database(SqliteDb::open(missing.to_owned())) {
        Ok(_) => panic!("there is no such directory"),
        Err(e) => e,
    };
    assert!(err.text().starts_with("open /nonexistent-directory/x.db: "), "{}", err.text());
    let err = match open_database(SqliteDb::open_with_vfs("x.db".to_owned(), "nope".to_owned())) {
        Ok(_) => panic!("there is no such vfs"),
        Err(e) => e,
    };
    assert!(err.text().starts_with("open x.db via vfs nope: "), "{}", err.text());
}

// --- Checkpoints ---

/// The size of the write-ahead log in bytes, 0 where there is none yet.
fn wal_size(path: &str) -> u64 {
    Path::new(&format!("{path}-wal")).metadata().map_or(0, |m| m.len())
}

fn wal_mode_db() -> (NamedTempFile, Database) {
    let file = NamedTempFile::new().expect("tempfile");
    let settings = DbSettings { journal_mode: Some(JournalMode::Wal), ..DbSettings::default() };
    let db = open_with(file.path(), settings);
    (file, db)
}

fn durable(db: &Database, sql: &str) -> Result<ExecOutcome, ExecError> {
    db.exec_durable(sql, RowsFormat::Objects, CheckpointMode::Truncate)
}

#[test]
fn plain_write_checkpoint_truncates_wal() {
    let (_f, db) = wal_mode_db();
    durable(&db, "CREATE TABLE t (x INTEGER)").expect("create");
    assert_eq!(
        wal_size(db.db.path()),
        0,
        "wal should be truncated after a checkpointed write"
    );
}

#[test]
fn readonly_select_does_not_checkpoint() {
    let (_f, db) = wal_mode_db();
    db.exec("CREATE TABLE t (x INTEGER)", vec![]).expect("create");
    let before = wal_size(db.db.path());
    assert!(before > 0, "un-checkpointed write should leave WAL frames");
    durable(&db, "SELECT * FROM t").expect("select");
    assert_eq!(wal_size(db.db.path()), before, "readonly statement must not checkpoint");
}

#[test]
fn commit_of_explicit_transaction_is_checkpointed() {
    let (_f, db) = wal_mode_db();
    durable(&db, "CREATE TABLE t (x INTEGER)").expect("create");
    durable(&db, "BEGIN").expect("begin");
    durable(&db, "INSERT INTO t VALUES (1)").expect("insert in txn");
    durable(&db, "COMMIT").expect("commit");
    assert_eq!(wal_size(db.db.path()), 0, "COMMIT must flush the transaction out of the WAL");
    let out = db.exec("SELECT x FROM t", vec![]).expect("select");
    assert_eq!(out.rows.len(), 1);
}

#[test]
fn checkpoints_come_when_they_are_due() {
    let (_f, db) = wal_mode_db();
    let count = |sql: &str, mode: CheckpointMode| {
        let step = db.db.exec_durable(sql.to_owned(), vec![], RowsFormat::Objects, mode);
        let (result, checkpoints) = run_counted(&db.conn, step);
        result.expect("statement");
        checkpoints
    };
    assert_eq!(count("CREATE TABLE t (x INTEGER)", CheckpointMode::Truncate), 1);
    assert_eq!(count("SELECT * FROM t", CheckpointMode::Truncate), 0);
    assert_eq!(count("BEGIN", CheckpointMode::Truncate), 0);
    assert_eq!(count("INSERT INTO t VALUES (1)", CheckpointMode::Truncate), 0);
    assert_eq!(count("ROLLBACK", CheckpointMode::Truncate), 1);
    assert_eq!(count("INSERT INTO t VALUES (1)", CheckpointMode::Passive), 1);
    assert_eq!(count("INSERT INTO t VALUES (1)", CheckpointMode::Off), 0);
}

#[test]
fn blocked_checkpoint_surfaces_as_checkpoint_error() {
    let (file, db) = wal_mode_db();
    durable(&db, "CREATE TABLE t (x INTEGER)").expect("create");
    // Another connection with an open read snapshot keeps the log from being reset.
    let reader = Connection::open(file.path()).expect("open reader");
    reader.execute_batch("BEGIN").expect("begin read txn");
    let _count: i64 = reader
        .query_row("SELECT COUNT(*) FROM t", [], |r| r.get(0))
        .expect("acquire read snapshot");
    let err = durable(&db, "INSERT INTO t VALUES (1)").expect_err("checkpoint should report busy");
    assert!(matches!(err, ExecError::Checkpoint(_)), "unexpected error variant: {err:?}");
    assert!(err.to_string().starts_with("wal_checkpoint(TRUNCATE) could not complete (busy=1, "));
}

// --- Which statements are accepted ---

#[test]
fn attach_is_denied() {
    let (_f, db) = empty_db();
    let err = db
        .exec("ATTACH DATABASE '/tmp/rustyhip-escape.db' AS x", vec![])
        .expect_err("ATTACH must be rejected");
    assert!(mentions(&err, "not authorized"), "unexpected error: {}", err.text());
}

#[test]
fn detach_is_denied() {
    let (_f, db) = empty_db();
    let err = db.exec("DETACH DATABASE x", vec![]).expect_err("DETACH must be rejected");
    assert!(mentions(&err, "not authorized"), "unexpected error: {}", err.text());
}

#[test]
fn config_altering_pragma_is_denied() {
    let (_f, db) = empty_db();
    for sql in
        ["PRAGMA journal_mode = DELETE", "PRAGMA synchronous = OFF", "PRAGMA wal_autocheckpoint = 0"]
    {
        let err = db.exec(sql, vec![]).expect_err("value-form pragma must be rejected");
        assert!(mentions(&err, "not authorized"), "{sql}: {}", err.text());
    }
}

#[test]
fn introspection_pragmas_are_allowed() {
    let (_f, db) = empty_db();
    exec_sql(&db, "CREATE TABLE fruit (id INTEGER PRIMARY KEY, name TEXT)");
    let out = db.exec("PRAGMA table_info(fruit)", vec![]).expect("table_info allowed");
    assert_eq!(out.rows.len(), 2);
    db.exec("PRAGMA journal_mode", vec![]).expect("read form allowed");
}

#[test]
fn internal_checkpoint_still_works_with_authorizer() {
    let (_f, db) = wal_mode_db();
    durable(&db, "CREATE TABLE t (x INTEGER)")
        .expect("checkpointed write with authorizer installed");
    assert_eq!(wal_size(db.db.path()), 0);
}

// --- Requests ---

struct Service {
    state: AppState,
    database: Database,
}

fn service(database: Database, auth: Option<&str>) -> Service {
    let state = AppState::new(database.db.clone(), auth.map(str::to_owned));
    Service { state, database }
}

fn make_state(auth: Option<&str>) -> (TempDir, Service) {
    let dir = tempfile::tempdir().expect("tempdir");
    let path = dir.path().join("rustyhip.db").to_str().expect("path").to_owned();
    let database = open_database(SqliteDb::open(path)).expect("open sqlite");
    (dir, service(database, auth))
}

/// A service on a database in memory, without a token.
fn dummy_state() -> Service {
    let database = open_database(SqliteDb::open(":memory:".to_owned())).expect("open sqlite");
    service(database, None)
}

fn make_request(method: &str, path: &str, body: &str, token: Option<&str>) -> HttpRequest {
    HttpRequest {
        method: method.to_owned(),
        path: path.to_owned(),
        authorization: token.map(|t| format!("Bearer {t}").into_bytes()),
        body: body.as_bytes().to_vec(),
    }
}

fn json_of(value: &serde_json::Value) -> Json {
    match value {
        serde_json::Value::Null => Json::Null,
        serde_json::Value::Bool(b) => Json::Bool(*b),
        serde_json::Value::Number(n) => {
            if let Some(i) = n.as_i64() {
                Json::Integer(i)
            } else if let Some(u) = n.as_u64() {
                Json::Unsigned(u)
            } else {
                Json::Real(n.as_f64().expect("a number").to_bits())
            }
        }
        serde_json::Value::String(s) => Json::Text(s.clone()),
        other => Json::Composite(format!("{other:?}")),
    }
}

fn read_body(body: &[u8]) -> Result<SqlRequest, String> {
    let value: serde_json::Value = serde_json::from_slice(body).map_err(|e| e.to_string())?;
    let sql = value["sql"].as_str().ok_or("missing field `sql`")?.to_owned();
    let params = value["params"].as_array().map_or(vec![], |a| a.iter().map(json_of).collect());
    let rows_format = match value["rows_format"].as_str() {
        Some("arrays") => RowsFormat::Arrays,
        _ => RowsFormat::Objects,
    };
    Ok(SqlRequest { sql, params, rows_format })
}

fn serve(service: &Service, request: HttpRequest) -> Response {
    let id = extract_request_id(None, Some(7));
    let mut step = handle(&service.state, request, &id);
    loop {
        step = match step {
            HttpStep::Respond { response } => return response,
            HttpStep::Parse { body } => handle_parsed(&service.state, read_body(&body), &id),
            HttpStep::Execute { step } => {
                return handle_executed(service.database.run(step), &id);
            }
        };
    }
}

fn post_sql(body: &str) -> HttpRequest {
    make_request("POST", "/sql", body, None)
}

fn outcome(response: &Response) -> &ExecOutcome {
    match &response.body {
        ResponseBody::Outcome(outcome) => outcome,
        other => panic!("no outcome: {other:?}"),
    }
}

/// The code, the message and the request id of an error response.
fn error(response: &Response) -> (&str, &str, &str) {
    match &response.body {
        ResponseBody::Error(e) => (e.error.code, &e.error.message, &e.error.request_id),
        other => panic!("no error: {other:?}"),
    }
}

#[test]
fn health_returns_ok_with_version() {
    let resp = serve(&dummy_state(), make_request("GET", "/health", "", None));
    assert_eq!(resp.status, 200);
    match resp.body {
        ResponseBody::Health(health) => {
            assert_eq!(health.status, "ok");
            assert_eq!(health.version, VERSION);
        }
        other => panic!("no health: {other:?}"),
    }
}

#[test]
fn root_also_returns_health() {
    let resp = serve(&dummy_state(), make_request("GET", "/", "", None));
    assert_eq!(resp.status, 200);
}

#[test]
fn sql_rejects_invalid_json() {
    let resp = serve(&dummy_state(), make_request("POST", "/sql", "not json", None));
    assert_eq!(resp.status, 400);
    let (code, message, request_id) = error(&resp);
    assert_eq!(code, errors::VALIDATION);
    assert!(message.starts_with("invalid JSON: "));
    assert!(!request_id.is_empty());
}

#[test]
fn unknown_route_returns_404_with_error_code() {
    let resp = serve(&dummy_state(), make_request("GET", "/nope", "", None));
    assert_eq!(resp.status, 404);
    assert_eq!(error(&resp).0, errors::NOT_FOUND);
}

#[test]
fn missing_bearer_returns_401() {
    let (_dir, state) = make_state(Some("expected-token"));
    let resp = serve(&state, make_request("GET", "/health", "", None));
    assert_eq!(resp.status, 401);
    assert_eq!(error(&resp).0, errors::UNAUTHORIZED);
}

#[test]
fn wrong_bearer_returns_401() {
    let (_dir, state) = make_state(Some("expected-token"));
    let resp = serve(&state, make_request("GET", "/health", "", Some("wrong-token")));
    assert_eq!(resp.status, 401);
}

#[test]
fn matching_bearer_passes_through() {
    let (_dir, state) = make_state(Some("expected-token"));
    let resp = serve(&state, make_request("GET", "/health", "", Some("expected-token")));
    assert_eq!(resp.status, 200);
}

#[test]
fn readonly_select_works_through_default_vfs() {
    let (_dir, state) = make_state(None);
    state.database.exec("CREATE TABLE t (x INT)", vec![]).expect("create");
    state.database.exec("INSERT INTO t VALUES (1)", vec![]).expect("insert");
    let resp = serve(&state, make_request("POST", "/sql", r#"{"sql":"SELECT x FROM t"}"#, None));
    assert_eq!(resp.status, 200);
    let body = outcome(&resp);
    assert!(body.readonly);
    assert_eq!(member(&body.rows[0], "x"), &Json::Integer(1));
}

#[test]
fn body_exceeding_max_returns_413() {
    let (_dir, mut state) = make_state(None);
    state.state = state.state.clone().with_max_body_bytes(Some(16));
    let resp =
        serve(&state, make_request("POST", "/sql", r#"{"sql":"SELECT 1 AS one"}"#, None));
    assert_eq!(resp.status, 413);
    let (code, message, _) = error(&resp);
    assert_eq!(code, errors::VALIDATION);
    assert!(message.contains("RUSTYHIP_MAX_BODY_BYTES=16"));
    assert_eq!(message, "request body of 25 bytes exceeds RUSTYHIP_MAX_BODY_BYTES=16");
}

#[test]
fn body_within_max_passes_through() {
    let (_dir, mut state) = make_state(None);
    state.state = state.state.clone().with_max_body_bytes(Some(1024));
    let resp =
        serve(&state, make_request("POST", "/sql", r#"{"sql":"SELECT 1 AS one"}"#, None));
    assert_eq!(resp.status, 200);
}

#[test]
fn checkpoint_mode_off_skips_pragma_call() {
    let (_dir, mut state) = make_state(None);
    state.state = state.state.clone().with_checkpoint_mode(CheckpointMode::Off);
    let body = r#"{"sql":"CREATE TABLE t (x INTEGER)"}"#;
    let resp = serve(&state, make_request("POST", "/sql", body, None));
    assert_eq!(resp.status, 200);
    assert!(!outcome(&resp).readonly);
}

#[test]
fn health_endpoint_returns_200() {
    let (_dir, state) = make_state(None);
    let resp = serve(&state, make_request("GET", "/health", "", None));
    assert_eq!(resp.status, 200);
}

#[test]
fn unknown_route_returns_404() {
    let (_dir, state) = make_state(None);
    let resp = serve(&state, make_request("GET", "/does-not-exist", "", None));
    assert_eq!(resp.status, 404);
}

#[test]
fn readonly_select_returns_rows() {
    let (_dir, state) = make_state(None);
    let create = "CREATE TABLE fruit (id INTEGER PRIMARY KEY, name TEXT)";
    state.database.exec(create, vec![]).expect("create");
    let insert = "INSERT INTO fruit (name) VALUES ('apple'), ('peach')";
    state.database.exec(insert, vec![]).expect("insert");
    let resp = serve(&state, post_sql(r#"{"sql":"SELECT name FROM fruit ORDER BY id"}"#));
    assert_eq!(resp.status, 200);
    let body = outcome(&resp);
    assert!(body.readonly);
    assert_eq!(body.rows.len(), 2);
    assert_eq!(member(&body.rows[0], "name"), &text("apple"));
}

#[test]
fn sql_against_missing_table_returns_400() {
    let (_dir, state) = make_state(None);
    let resp = serve(&state, post_sql(r#"{"sql":"SELECT * FROM does_not_exist"}"#));
    assert_eq!(resp.status, 400);
    let (code, message, request_id) = error(&resp);
    assert_eq!(code, "RUSTYHIP_E_SQL");
    assert!(message.to_lowercase().contains("no such table"));
    assert!(!request_id.is_empty());
}

#[test]
fn rows_format_is_chosen_by_the_body() {
    let (_dir, state) = make_state(None);
    let body = r#"{"sql":"SELECT ? AS a, ? AS b","params":[1.5,"x"],"rows_format":"arrays"}"#;
    let resp = serve(&state, post_sql(body));
    assert_eq!(resp.status, 200);
    assert_eq!(
        array(&outcome(&resp).rows[0]),
        &vec![Json::Real(1.5f64.to_bits()), text("x")]
    );
}

#[test]
fn a_composite_parameter_is_an_error_of_the_statement() {
    let (_dir, state) = make_state(None);
    let resp = serve(&state, post_sql(r#"{"sql":"SELECT ?","params":[[1]]}"#));
    assert_eq!(resp.status, 400);
    let (code, message, _) = error(&resp);
    assert_eq!(code, errors::SQL);
    assert_eq!(message, "cannot bind Array [Number(1)] as SQL parameter");
}

#[test]
fn a_blocked_checkpoint_is_answered_with_500() {
    let (file, db) = wal_mode_db();
    let state = service(db, None);
    serve(&state, post_sql(r#"{"sql":"CREATE TABLE t (x INTEGER)"}"#));
    let reader = Connection::open(file.path()).expect("open reader");
    reader.execute_batch("BEGIN").expect("begin");
    let _count: i64 =
        reader.query_row("SELECT COUNT(*) FROM t", [], |r| r.get(0)).expect("snapshot");
    let resp = serve(&state, post_sql(r#"{"sql":"INSERT INTO t VALUES (1)"}"#));
    assert_eq!(resp.status, 500);
    let (code, message, request_id) = error(&resp);
    assert_eq!(code, errors::INTERNAL);
    assert!(message.starts_with("checkpoint failed: wal_checkpoint(TRUNCATE) could not complete"));
    assert_eq!(request_id, "local-7");
}
