//! The database as requests see it: its settings, which statements it accepts,
//! and how its values and rows become JSON.
//!
//! Opening a connection and running statements on it is left to the caller;
//! [`crate::opening`] and [`crate::execution`] say what to do and in which order.

use vstd::prelude::*;

use crate::execution::{ExecOptions, Execution, Step};
use crate::failure::Failure;
use crate::json::{real_to_json, Json, JsonObject};
use crate::opening::{OpenStep, Opening};
use crate::settings::{CheckpointMode, ConfigKnobs, JournalMode, Synchronous, TempStore};
use crate::text;

verus! {

// ---------------------------------------------------------------------------
// Settings
// ---------------------------------------------------------------------------

/// The knobs that concern the database.
#[derive(Debug, Clone, Copy)]
pub struct DbSettings {
    pub synchronous: Option<Synchronous>,
    pub journal_mode: Option<JournalMode>,
    pub page_cache_kb: Option<i64>,
    pub mmap_size: Option<i64>,
    pub temp_store: Option<TempStore>,
    pub busy_timeout_ms: Option<u32>,
    pub max_rows: Option<usize>,
    pub query_timeout_ms: Option<u64>,
}

impl DbSettings {
    /// No setting at all: what SQLite does by itself.
    pub open spec fn unset() -> DbSettings {
        DbSettings {
            synchronous: None,
            journal_mode: None,
            page_cache_kb: None,
            mmap_size: None,
            temp_store: None,
            busy_timeout_ms: None,
            max_rows: None,
            query_timeout_ms: None,
        }
    }

    /// The settings among the knobs that concern the database.
    pub fn from_knobs(k: &ConfigKnobs) -> (settings: DbSettings)
        ensures
            settings.synchronous == k.synchronous,
            settings.journal_mode == k.journal_mode,
            settings.page_cache_kb == k.page_cache_kb,
            settings.mmap_size == k.mmap_size,
            settings.temp_store == k.temp_store,
            settings.busy_timeout_ms == k.busy_timeout_ms,
            settings.max_rows == k.max_rows,
            settings.query_timeout_ms == k.query_timeout_ms,
    {
        DbSettings {
            synchronous: k.synchronous,
            journal_mode: k.journal_mode,
            page_cache_kb: k.page_cache_kb,
            mmap_size: k.mmap_size,
            temp_store: k.temp_store,
            busy_timeout_ms: k.busy_timeout_ms,
            max_rows: k.max_rows,
            query_timeout_ms: k.query_timeout_ms,
        }
    }
}

impl Default for DbSettings {
    fn default() -> (settings: Self)
        ensures
            settings == DbSettings::unset(),
    {
        DbSettings {
            synchronous: None,
            journal_mode: None,
            page_cache_kb: None,
            mmap_size: None,
            temp_store: None,
            busy_timeout_ms: None,
            max_rows: None,
            query_timeout_ms: None,
        }
    }
}

/// A `PRAGMA` statement that configures a fresh connection.
#[derive(Debug)]
pub struct PragmaStatement {
    /// The pragma that it sets.
    pub label: &'static str,
    pub sql: String,
}

/// What a [`PragmaStatement`] stands for.
pub ghost struct PragmaView {
    pub label: Seq<char>,
    pub sql: Seq<char>,
}

impl View for PragmaStatement {
    type V = PragmaView;

    open spec fn view(&self) -> PragmaView {
        PragmaView { label: self.label@, sql: self.sql@ }
    }
}

/// The statement that sets the pragma `label` to `value`, where there is a value.
pub open spec fn setting(label: Seq<char>, value: Option<Seq<char>>) -> Seq<PragmaView> {
    match value {
        Some(v) => seq![PragmaView { label, sql: "PRAGMA "@ + label + " = "@ + v }],
        None => Seq::empty(),
    }
}

/// The statements that configure a fresh connection, in the order in which they
/// run. The page cache is given to SQLite as a negative number: that counts KB,
/// where a positive one counts pages.
pub open spec fn pragmas_of(s: DbSettings) -> Seq<PragmaView> {
    setting(
        "journal_mode"@,
        match s.journal_mode {
            Some(mode) => Some(mode.word()),
            None => None,
        },
    ) + setting(
        "synchronous"@,
        match s.synchronous {
            Some(mode) => Some(mode.word()),
            None => None,
        },
    ) + setting(
        "temp_store"@,
        match s.temp_store {
            Some(store) => Some(store.word()),
            None => None,
        },
    ) + setting(
        "cache_size"@,
        match s.page_cache_kb {
            Some(kb) => Some(seq!['-'] + text::decimal(magnitude(kb as int))),
            None => None,
        },
    ) + setting(
        "mmap_size"@,
        match s.mmap_size {
            Some(bytes) => Some(text::signed_decimal(bytes as int)),
            None => None,
        },
    ) + setting(
        "busy_timeout"@,
        match s.busy_timeout_ms {
            Some(ms) => Some(text::decimal(ms as nat)),
            None => None,
        },
    )
}

/// `n` without its sign.
pub open spec fn magnitude(n: int) -> nat {
    if n < 0 {
        (-n) as nat
    } else {
        n as nat
    }
}

/// Appends the statement that sets the pragma `label` to `value`.
fn push_setting(plan: &mut Vec<PragmaStatement>, label: &'static str, value: &str)
    ensures
        final(plan)@.map_values(|p: PragmaStatement| p@) == old(plan)@.map_values(
            |p: PragmaStatement| p@,
        ) + setting(label@, Some(value@)),
{
    let mut sql = "PRAGMA ".to_owned();
    sql.append(label);
    sql.append(" = ");
    sql.append(value);
    plan.push(PragmaStatement { label, sql });
    assert(plan@.map_values(|p: PragmaStatement| p@) =~= old(plan)@.map_values(
        |p: PragmaStatement| p@,
    ) + setting(label@, Some(value@)));
}

/// The statements that configure a fresh connection. One that fails leaves the
/// connection usable: it is to be logged and passed over.
pub fn pragma_statements(settings: &DbSettings) -> (plan: Vec<PragmaStatement>)
    ensures
        plan@.map_values(|p: PragmaStatement| p@) == pragmas_of(*settings),
{
    let mut plan: Vec<PragmaStatement> = Vec::new();
    let ghost done = |p: PragmaStatement| p@;
    assert(plan@.map_values(done) =~= Seq::<PragmaView>::empty());
    if let Some(mode) = settings.journal_mode {
        push_setting(&mut plan, "journal_mode", mode.as_pragma());
    }
    if let Some(mode) = settings.synchronous {
        push_setting(&mut plan, "synchronous", mode.as_pragma());
    }
    if let Some(store) = settings.temp_store {
        push_setting(&mut plan, "temp_store", store.as_pragma());
    }
    if let Some(kb) = settings.page_cache_kb {
        let mut value = String::new();
        value.push('-');
        let size: u128 = if kb < 0 {
            (0i128 - kb as i128) as u128
        } else {
            kb as u128
        };
        text::push_decimal(&mut value, size);
        assert(value@ =~= seq!['-'] + text::decimal(magnitude(kb as int)));
        push_setting(&mut plan, "cache_size", value.as_str());
    }
    if let Some(bytes) = settings.mmap_size {
        let mut value = String::new();
        text::push_signed(&mut value, bytes as i128);
        assert(value@ =~= text::signed_decimal(bytes as int));
        push_setting(&mut plan, "mmap_size", value.as_str());
    }
    if let Some(ms) = settings.busy_timeout_ms {
        let mut value = String::new();
        text::push_decimal(&mut value, ms as u128);
        assert(value@ =~= text::decimal(ms as nat));
        push_setting(&mut plan, "busy_timeout", value.as_str());
    }
    assert(plan@.map_values(done) =~= pragmas_of(*settings));
    plan
}

// ---------------------------------------------------------------------------
// Which statements are accepted
// ---------------------------------------------------------------------------

/// What a statement is about to do, as far as the policy looks at it.
#[derive(Debug)]
pub enum StatementAction {
    /// Open another database file.
    Attach,
    /// Close a database file opened that way.
    Detach,
    /// Read a pragma, or use it with a value.
    Pragma { name: String, has_value: bool },
    /// Anything else: reads, writes, schema changes, transactions.
    Other,
}

/// The answer of the policy.
#[derive(Debug, Clone, Copy, PartialEq, Eq, Structural)]
pub enum Authorization {
    Allow,
    Deny,
}

/// Pragmas whose value only selects what to read: safe with and without one.
pub const ARG_SAFE_PRAGMAS: [&'static str; 10] = [
    "table_info",
    "table_xinfo",
    "table_list",
    "index_list",
    "index_info",
    "index_xinfo",
    "foreign_key_list",
    "foreign_key_check",
    "integrity_check",
    "quick_check",
];

/// The pragma that flushes the write-ahead log.
pub const CHECKPOINT_PRAGMA: &'static str = "wal_checkpoint";

/// The names of [`ARG_SAFE_PRAGMAS`].
pub open spec fn arg_safe_names() -> Seq<Seq<char>> {
    seq![
        "table_info"@,
        "table_xinfo"@,
        "table_list"@,
        "index_list"@,
        "index_info"@,
        "index_xinfo"@,
        "foreign_key_list"@,
        "foreign_key_check"@,
        "integrity_check"@,
        "quick_check"@,
    ]
}

/// Whether the pragma may be used with a value.
pub open spec fn value_allowed(name: Seq<char>) -> bool {
    let lower = text::ascii_lower(name);
    lower == CHECKPOINT_PRAGMA@ || arg_safe_names().contains(lower)
}

/// The policy for a pragma: with a value only where that cannot reconfigure
/// the shared connection.
pub open spec fn pragma_policy(name: Seq<char>, has_value: bool) -> Authorization {
    if has_value && !value_allowed(name) {
        Authorization::Deny
    } else {
        Authorization::Allow
    }
}

/// The policy: no other database file, since what is written there would never
/// reach the durable storage; pragmas as [`pragma_policy`] says; all else.
pub open spec fn action_policy(action: StatementAction) -> Authorization {
    match action {
        StatementAction::Attach => Authorization::Deny,
        StatementAction::Detach => Authorization::Deny,
        StatementAction::Pragma { name, has_value } => pragma_policy(name@, has_value),
        StatementAction::Other => Authorization::Allow,
    }
}

/// Whether a pragma may be used.
pub fn authorize_pragma(name: &str, has_value: bool) -> (answer: Authorization)
    ensures
        answer == pragma_policy(name@, has_value),
{
    let lower = text::to_lower(name);
    if text::same(lower.as_str(), CHECKPOINT_PRAGMA) {
        return Authorization::Allow;
    }
    for i in 0..10usize
        invariant
            lower@ == text::ascii_lower(name@),
            forall|j: int| 0 <= j < i ==> lower@ != #[trigger] arg_safe_names()[j],
    {
        let safe: &'static str = ARG_SAFE_PRAGMAS[i];
        assert(safe@ == arg_safe_names()[i as int]);
        if text::same(lower.as_str(), safe) {
            return Authorization::Allow;
        }
    }
    if has_value {
        Authorization::Deny
    } else {
        Authorization::Allow
    }
}

/// Whether a statement may do what it is about to do.
pub fn authorize_action(action: &StatementAction) -> (answer: Authorization)
    ensures
        answer == action_policy(*action),
{
    match action {
        StatementAction::Attach => Authorization::Deny,
        StatementAction::Detach => Authorization::Deny,
        StatementAction::Pragma { name, has_value } => authorize_pragma(name.as_str(), *has_value),
        StatementAction::Other => Authorization::Allow,
    }
}

// ---------------------------------------------------------------------------
// Which statements change the schema
// ---------------------------------------------------------------------------

/// What SQLite passes over before a statement, besides comments.
pub open spec fn is_blank(c: char) -> bool {
    c == ' ' || c == '\t' || c == '\n' || c == '\x0b' || c == '\x0c' || c == '\r' || c == ';'
        || c == '\u{feff}'
}

/// `s` after the end of its first line.
pub open spec fn after_line(s: Seq<char>) -> Seq<char>
    decreases s.len(),
{
    if s.len() == 0 {
        s
    } else if s[0] == '\n' {
        s.skip(1)
    } else {
        after_line(s.skip(1))
    }
}

/// `s` after the first end of a block comment; nothing where there is none.
pub open spec fn after_comment(s: Seq<char>) -> Seq<char>
    decreases s.len(),
{
    if s.len() < 2 {
        Seq::empty()
    } else if s[0] == '*' && s[1] == '/' {
        s.skip(2)
    } else {
        after_comment(s.skip(1))
    }
}

/// Passing over a line or a comment leaves no more than there was.
pub proof fn lemma_passing_over(s: Seq<char>)
    ensures
        after_line(s).len() <= s.len(),
        after_comment(s).len() <= s.len(),
    decreases s.len(),
{
    if s.len() > 0 {
        lemma_passing_over(s.skip(1));
    }
}

/// `sql` from its first word on.
pub open spec fn from_first_word(sql: Seq<char>) -> Seq<char>
    decreases sql.len(),
{
    proof {
        lemma_passing_over(sql.skip(2));
    }
    if sql.len() > 0 && is_blank(sql[0]) {
        from_first_word(sql.skip(1))
    } else if sql.len() > 1 && sql[0] == '-' && sql[1] == '-' {
        from_first_word(after_line(sql.skip(2)))
    } else if sql.len() > 1 && sql[0] == '/' && sql[1] == '*' {
        from_first_word(after_comment(sql.skip(2)))
    } else {
        sql
    }
}

/// Whether `s` begins with `word`, in any letter case.
pub open spec fn begins_with(s: Seq<char>, word: Seq<char>) -> bool {
    text::occurs_at(text::ascii_lower(s), word, 0)
}

/// Whether the statement changes the schema: it creates, drops or alters.
pub open spec fn changes_schema(sql: Seq<char>) -> bool {
    let statement = from_first_word(sql);
    begins_with(statement, "create"@) || begins_with(statement, "drop"@) || begins_with(
        statement,
        "alter"@,
    )
}

/// The position after the end of the line that `from` stands in.
fn skip_line(chars: &Vec<char>, from: usize) -> (to: usize)
    requires
        from <= chars.len(),
    ensures
        from <= to <= chars.len(),
        chars@.skip(to as int) == after_line(chars@.skip(from as int)),
{
    let mut at: usize = from;
    while at < chars.len()
        invariant
            from <= at <= chars.len(),
            after_line(chars@.skip(at as int)) == after_line(chars@.skip(from as int)),
        decreases chars.len() - at,
    {
        assert(chars@.skip(at as int).skip(1) =~= chars@.skip(at + 1));
        if chars[at] == '\n' {
            return at + 1;
        }
        at = at + 1;
    }
    at
}

/// The position after the end of the block comment that `from` stands in.
fn skip_comment(chars: &Vec<char>, from: usize) -> (to: usize)
    requires
        from <= chars.len(),
    ensures
        from <= to <= chars.len(),
        chars@.skip(to as int) == after_comment(chars@.skip(from as int)),
{
    let mut at: usize = from;
    while at < chars.len()
        invariant
            from <= at <= chars.len(),
            after_comment(chars@.skip(at as int)) == after_comment(chars@.skip(from as int)),
        decreases chars.len() - at,
    {
        assert(chars@.skip(at as int).skip(1) =~= chars@.skip(at + 1));
        if chars.len() - at >= 2 && chars[at] == '*' && chars[at + 1] == '/' {
            assert(chars@.skip(at as int).skip(2) =~= chars@.skip(at + 2));
            return at + 2;
        }
        at = at + 1;
    }
    assert(chars@.skip(at as int) =~= Seq::empty());
    at
}

/// Whether the statement changes the schema.
pub fn is_schema_change(sql: &str) -> (yes: bool)
    ensures
        yes == changes_schema(sql@),
{
    let lower = text::to_lower(sql);
    let chars = text::chars_of(lower.as_str());
    let mut at: usize = 0;
    proof {
        lemma_case_of_first_word(sql@);
        assert(chars@.skip(0) =~= chars@);
    }
    loop
        invariant
            at <= chars.len(),
            from_first_word(chars@.skip(at as int)) == from_first_word(chars@),
        ensures
            at <= chars.len(),
            from_first_word(chars@) == chars@.skip(at as int),
        decreases chars.len() - at,
    {
        let ghost rest = chars@.skip(at as int);
        if at < chars.len() && blank(chars[at]) {
            assert(rest.skip(1) =~= chars@.skip(at + 1));
            at = at + 1;
        } else if chars.len() - at >= 2 && chars[at] == '-' && chars[at + 1] == '-' {
            assert(rest.skip(2) =~= chars@.skip(at + 2));
            at = skip_line(&chars, at + 2);
        } else if chars.len() - at >= 2 && chars[at] == '/' && chars[at + 1] == '*' {
            assert(rest.skip(2) =~= chars@.skip(at + 2));
            at = skip_comment(&chars, at + 2);
        } else {
            break;
        }
    }
    text::stands_at(&chars, "create", at) || text::stands_at(&chars, "drop", at)
        || text::stands_at(&chars, "alter", at)
}

/// Whether SQLite passes over the character before a statement.
fn blank(c: char) -> (yes: bool)
    ensures
        yes == is_blank(c),
{
    c == ' ' || c == '\t' || c == '\n' || c == '\x0b' || c == '\x0c' || c == '\r' || c == ';'
        || c == '\u{feff}'
}

/// Where the first word begins does not depend on letter case.
proof fn lemma_case_of_first_word(sql: Seq<char>)
    ensures
        from_first_word(text::ascii_lower(sql)) == text::ascii_lower(from_first_word(sql)),
    decreases sql.len(),
{
    let lower = text::ascii_lower(sql);
    assert(sql.len() > 0 ==> lower.skip(1) =~= text::ascii_lower(sql.skip(1)));
    assert(sql.len() > 1 ==> lower.skip(2) =~= text::ascii_lower(sql.skip(2)));
    if sql.len() > 0 && is_blank(sql[0]) {
        lemma_case_of_first_word(sql.skip(1));
    } else if sql.len() > 1 && sql[0] == '-' && sql[1] == '-' {
        lemma_passing_over(sql.skip(2));
        lemma_case_of_passing(sql.skip(2));
        lemma_case_of_first_word(after_line(sql.skip(2)));
    } else if sql.len() > 1 && sql[0] == '/' && sql[1] == '*' {
        lemma_passing_over(sql.skip(2));
        lemma_case_of_passing(sql.skip(2));
        lemma_case_of_first_word(after_comment(sql.skip(2)));
    }
}

/// Neither does where a line or a comment ends.
proof fn lemma_case_of_passing(s: Seq<char>)
    ensures
        after_line(text::ascii_lower(s)) == text::ascii_lower(after_line(s)),
        after_comment(text::ascii_lower(s)) == text::ascii_lower(after_comment(s)),
    decreases s.len(),
{
    let lower = text::ascii_lower(s);
    if s.len() > 0 {
        assert(lower.skip(1) =~= text::ascii_lower(s.skip(1)));
        lemma_case_of_passing(s.skip(1));
    }
    if s.len() > 1 {
        assert(lower.skip(2) =~= text::ascii_lower(s.skip(2)));
    }
    assert(text::ascii_lower(Seq::empty()) =~= Seq::empty());
}

// ---------------------------------------------------------------------------
// Values
// ---------------------------------------------------------------------------

/// A value of the database. A real number is kept as the bit pattern of its
/// IEEE 754 double.
#[derive(Debug, PartialEq)]
pub enum SqlValue {
    Null,
    Integer(i64),
    Real(u64),
    Text(String),
    Blob(Vec<u8>),
}

/// What a [`SqlValue`] stands for.
pub ghost enum SqlView {
    Null,
    Integer(i64),
    Real(u64),
    Text(Seq<char>),
    Blob(Seq<u8>),
}

impl View for SqlValue {
    type V = SqlView;

    open spec fn view(&self) -> SqlView {
        match self {
            SqlValue::Null => SqlView::Null,
            SqlValue::Integer(n) => SqlView::Integer(*n),
            SqlValue::Real(bits) => SqlView::Real(*bits),
            SqlValue::Text(s) => SqlView::Text(s@),
            SqlValue::Blob(b) => SqlView::Blob(b@),
        }
    }
}

/// What the values of a sequence stand for.
pub open spec fn sql_values(values: Seq<SqlValue>) -> Seq<SqlView> {
    values.map_values(|v: SqlValue| v@)
}

/// The JSON form of a value of the database. A blob has none, and neither has a
/// real that is not finite: `null` stands for both.
pub open spec fn json_form(v: SqlView) -> crate::json::JsonValue {
    match v {
        SqlView::Null => crate::json::JsonValue::Null,
        SqlView::Integer(n) => crate::json::JsonValue::Integer(n as int),
        SqlView::Real(bits) => crate::json::real_value(bits),
        SqlView::Text(s) => crate::json::JsonValue::Text(s),
        SqlView::Blob(_) => crate::json::JsonValue::Null,
    }
}

/// The JSON form of a value of the database.
pub fn sql_to_json(v: &SqlValue) -> (json: Json)
    ensures
        json@ == json_form(v@),
{
    match v {
        SqlValue::Integer(n) => Json::Integer(*n),
        SqlValue::Real(bits) => real_to_json(*bits),
        SqlValue::Text(s) => Json::Text(s.clone()),
        SqlValue::Null => Json::Null,
        SqlValue::Blob(_) => Json::Null,
    }
}

/// The bit pattern of the double that `serde_json` gives for the number `n`.
pub uninterp spec fn double_of(n: u64) -> u64;

/// `serde_json::Number::as_f64`, of the number `n`: the bit pattern of a finite
/// double, which every `u64` has. Which double it is, is not stated.
#[verifier::external_body]
fn number_as_double(n: u64) -> (bits: Option<u64>)
    ensures
        bits == Some(double_of(n)),
        bits is Some && crate::json::finite_bits(bits->0),
{
    match serde_json::Number::from(n).as_f64() {
        Some(double) => Some(double.to_bits()),
        None => None,
    }
}

/// The value that the number `n` is bound as: an integer where it fits an
/// `i64`, and otherwise the double `double`.
pub open spec fn bound_number(n: u64, double: Option<u64>) -> Result<SqlView, Seq<char>> {
    if n <= i64::MAX {
        Ok(SqlView::Integer(n as i64))
    } else {
        match double {
            Some(bits) => Ok(SqlView::Real(bits)),
            None => Err("number "@ + text::decimal(n as nat) + " does not fit i64 or f64"@),
        }
    }
}

/// The value that `n` is bound as, `double` being the double that stands for it.
pub fn bind_number(n: u64, double: Option<u64>) -> (bound: Result<SqlValue, Failure>)
    ensures
        match bound_number(n, double) {
            Ok(value) => bound matches Ok(v) && v@ == value,
            Err(message) => bound matches Err(f) && f@ == crate::failure::plain_failure(message),
        },
{
    if n <= i64::MAX as u64 {
        return Ok(SqlValue::Integer(n as i64));
    }
    match double {
        Some(bits) => Ok(SqlValue::Real(bits)),
        None => {
            let mut message = "number ".to_owned();
            text::push_decimal(&mut message, n as u128);
            message.append(" does not fit i64 or f64");
            Err(Failure::new(message))
        },
    }
}

/// The value that a JSON parameter is bound as. SQLite has no booleans: they are
/// bound as 0 and 1. Arrays and objects cannot be bound.
pub open spec fn bound(v: crate::json::JsonValue) -> Result<SqlView, Seq<char>> {
    match v {
        crate::json::JsonValue::Null => Ok(SqlView::Null),
        crate::json::JsonValue::Bool(b) => Ok(SqlView::Integer(if b { 1 } else { 0 })),
        crate::json::JsonValue::Integer(n) => if n < 0 {
            Ok(SqlView::Integer(n as i64))
        } else {
            bound_number(n as u64, Some(double_of(n as u64)))
        },
        crate::json::JsonValue::Real(bits) => Ok(SqlView::Real(bits)),
        crate::json::JsonValue::Text(s) => Ok(SqlView::Text(s)),
        crate::json::JsonValue::Composite(shown) => Err(
            "cannot bind "@ + shown + " as SQL parameter"@,
        ),
    }
}

/// The value that the JSON parameter `v` is bound as.
pub fn json_to_sql(v: Json) -> (value: Result<SqlValue, Failure>)
    ensures
        match bound(v@) {
            Ok(b) => value matches Ok(sql) && sql@ == b,
            Err(message) => value matches Err(f) && f@ == crate::failure::plain_failure(message),
        },
        value is Err <==> v is Composite,
{
    match v {
        Json::Null => Ok(SqlValue::Null),
        Json::Bool(b) => Ok(SqlValue::Integer(if b { 1 } else { 0 })),
        Json::Integer(n) => Ok(SqlValue::Integer(n)),
        Json::Unsigned(n) => bind_number(n, number_as_double(n)),
        Json::Real(bits) => Ok(SqlValue::Real(bits)),
        Json::Text(s) => Ok(SqlValue::Text(s)),
        Json::Composite(shown) => {
            let mut message = "cannot bind ".to_owned();
            message.append(shown.as_str());
            message.append(" as SQL parameter");
            Err(Failure::new(message))
        },
    }
}

/// The values that the parameters are bound as, or the failure of the first one
/// that cannot be bound.
pub open spec fn bound_all(
    params: Seq<crate::json::JsonValue>,
) -> Result<Seq<SqlView>, Seq<char>>
    decreases params.len(),
{
    if params.len() == 0 {
        Ok(Seq::empty())
    } else {
        match bound_all(params.drop_last()) {
            Err(message) => Err(message),
            Ok(values) => match bound(params.last()) {
                Err(message) => Err(message),
                Ok(value) => Ok(values.push(value)),
            },
        }
    }
}

/// A parameter that cannot be bound decides the outcome for every list that
/// starts with the ones up to it.
proof fn lemma_first_failure_stays(params: Seq<crate::json::JsonValue>, k: int)
    requires
        0 <= k <= params.len(),
        bound_all(params.take(k)) is Err,
    ensures
        bound_all(params) == bound_all(params.take(k)),
    decreases params.len(),
{
    if k == params.len() {
        assert(params.take(k) == params);
    } else {
        assert(params.drop_last().take(k) == params.take(k));
        lemma_first_failure_stays(params.drop_last(), k);
    }
}

/// The values that the parameters are bound as.
pub fn bind_params(params: Vec<Json>) -> (values: Result<Vec<SqlValue>, Failure>)
    ensures
        match bound_all(crate::json::json_values(params@)) {
            Ok(b) => values matches Ok(v) && sql_values(v@) == b,
            Err(message) => values matches Err(f) && f@ == crate::failure::plain_failure(message),
        },
        values is Err <==> exists|i: int|
            0 <= i < params@.len() && (#[trigger] params@[i]) is Composite,
{
    let ghost all = crate::json::json_values(params@);
    let mut values: Vec<SqlValue> = Vec::new();
    assert(sql_values(values@) =~= Seq::<SqlView>::empty());
    for i in 0..params.len()
        invariant
            all == crate::json::json_values(params@),
            bound_all(all.take(i as int)) == Ok::<Seq<SqlView>, Seq<char>>(sql_values(values@)),
            forall|j: int| 0 <= j < i ==> (#[trigger] params@[j]) !is Composite,
    {
        assert(all.take(i + 1).drop_last() == all.take(i as int));
        assert(all.take(i + 1).last() == params@[i as int]@);
        match json_to_sql(params[i].clone()) {
            Ok(value) => {
                let ghost before = values@;
                values.push(value);
                assert(sql_values(values@) =~= sql_values(before).push(value@));
            },
            Err(failure) => {
                proof {
                    lemma_first_failure_stays(all, i + 1);
                }
                return Err(failure);
            },
        }
    }
    assert(all.take(all.len() as int) == all);
    Ok(values)
}

// ---------------------------------------------------------------------------
// Rows
// ---------------------------------------------------------------------------

/// Shape of the rows of a result, chosen per request. `Objects` repeats the
/// column names in every row; `Arrays` gives the values alone, aligned with the
/// columns.
#[derive(Debug, Clone, Copy, PartialEq, Eq, Structural)]
pub enum RowsFormat {
    Objects,
    Arrays,
}

impl Default for RowsFormat {
    fn default() -> (format: Self)
        ensures
            format == RowsFormat::Objects,
    {
        RowsFormat::Objects
    }
}

/// A row of a result.
#[derive(Debug)]
pub enum Row {
    Object(JsonObject),
    Array(Vec<Json>),
}

/// What a [`Row`] stands for.
pub ghost enum RowView {
    Object(Map<Seq<char>, crate::json::JsonValue>),
    Array(Seq<crate::json::JsonValue>),
}

impl View for Row {
    type V = RowView;

    open spec fn view(&self) -> RowView {
        match self {
            Row::Object(object) => RowView::Object(object@),
            Row::Array(values) => RowView::Array(crate::json::json_values(values@)),
        }
    }
}

/// What the rows of a sequence stand for.
pub open spec fn row_values(rows: Seq<Row>) -> Seq<RowView> {
    rows.map_values(|r: Row| r@)
}

/// The object with a member for every column; where columns share a name, the
/// last of them gives the value.
pub open spec fn row_object(
    columns: Seq<Seq<char>>,
    cells: Seq<SqlView>,
) -> Map<Seq<char>, crate::json::JsonValue>
    decreases columns.len(),
{
    if columns.len() == 0 {
        Map::empty()
    } else {
        row_object(columns.drop_last(), cells.drop_last()).insert(
            columns.last(),
            json_form(cells.last()),
        )
    }
}

/// The values of the cells, in column order.
pub open spec fn row_array(cells: Seq<SqlView>) -> Seq<crate::json::JsonValue> {
    cells.map_values(|v: SqlView| json_form(v))
}

/// The row with these cells.
pub open spec fn row_of(
    format: RowsFormat,
    columns: Seq<Seq<char>>,
    cells: Seq<SqlView>,
) -> RowView {
    match format {
        RowsFormat::Objects => RowView::Object(row_object(columns, cells)),
        RowsFormat::Arrays => RowView::Array(row_array(cells)),
    }
}

/// The row with the cells `cells`, one for every column.
pub fn shape_row(format: RowsFormat, columns: &Vec<String>, cells: &Vec<SqlValue>) -> (row: Row)
    requires
        columns.len() == cells.len(),
    ensures
        row@ == row_of(format, text::texts(columns@), sql_values(cells@)),
{
    let ghost names = text::texts(columns@);
    let ghost values = sql_values(cells@);
    match format {
        RowsFormat::Objects => {
            let mut object = JsonObject::new();
            for i in 0..columns.len()
                invariant
                    columns.len() == cells.len(),
                    names == text::texts(columns@),
                    values == sql_values(cells@),
                    object@ == row_object(names.take(i as int), values.take(i as int)),
            {
                assert(names.take(i + 1).drop_last() == names.take(i as int));
                assert(values.take(i + 1).drop_last() == values.take(i as int));
                object.insert(columns[i].clone(), sql_to_json(&cells[i]));
            }
            assert(names.take(names.len() as int) == names);
            assert(values.take(values.len() as int) == values);
            Row::Object(object)
        },
        RowsFormat::Arrays => {
            let mut array: Vec<Json> = Vec::new();
            for i in 0..cells.len()
                invariant
                    array.len() == i,
                    forall|j: int| 0 <= j < i ==> (#[trigger] array@[j])@ == json_form(cells@[j]@),
            {
                array.push(sql_to_json(&cells[i]));
            }
            assert(crate::json::json_values(array@) =~= row_array(values));
            Row::Array(array)
        },
    }
}

/// What a statement gave.
#[derive(Debug)]
pub struct ExecOutcome {
    /// Column names in declaration order; empty where the statement gives no rows.
    pub columns: Vec<String>,
    pub rows: Vec<Row>,
    /// Rows changed by the statement; 0 where it only reads, and 0 where it only
    /// changes the schema.
    pub rowcount: i64,
    /// The rowid of the latest insertion of the connection; 0 where the
    /// statement only reads.
    pub lastrowid: i64,
    /// The statement changed neither data nor schema.
    pub readonly: bool,
}

/// What an [`ExecOutcome`] stands for.
pub ghost struct OutcomeView {
    pub columns: Seq<Seq<char>>,
    pub rows: Seq<RowView>,
    pub rowcount: i64,
    pub lastrowid: i64,
    pub readonly: bool,
}

impl View for ExecOutcome {
    type V = OutcomeView;

    open spec fn view(&self) -> OutcomeView {
        OutcomeView {
            columns: text::texts(self.columns@),
            rows: row_values(self.rows@),
            rowcount: self.rowcount,
            lastrowid: self.lastrowid,
            readonly: self.readonly,
        }
    }
}

// ---------------------------------------------------------------------------
// Errors and checkpoints
// ---------------------------------------------------------------------------

/// How the execution of a statement can fail.
#[derive(Debug)]
pub enum ExecError {
    /// The statement itself failed: an error of the client.
    Sql(Failure),
    /// The statement succeeded, but the checkpoint after it did not complete:
    /// the write may not be durable and must not be acknowledged.
    Checkpoint(Failure),
    /// The worker that ran the statement failed.
    Internal(Failure),
}

/// What an [`ExecError`] stands for.
pub ghost enum ExecErrorView {
    Sql(Seq<crate::failure::CauseView>),
    Checkpoint(Seq<crate::failure::CauseView>),
    Internal(Seq<crate::failure::CauseView>),
}

impl View for ExecError {
    type V = ExecErrorView;

    open spec fn view(&self) -> ExecErrorView {
        match self {
            ExecError::Sql(f) => ExecErrorView::Sql(f@),
            ExecError::Checkpoint(f) => ExecErrorView::Checkpoint(f@),
            ExecError::Internal(f) => ExecErrorView::Internal(f@),
        }
    }
}

/// The failure behind the error.
pub open spec fn failure_of(e: ExecErrorView) -> Seq<crate::failure::CauseView> {
    match e {
        ExecErrorView::Sql(f) => f,
        ExecErrorView::Checkpoint(f) => f,
        ExecErrorView::Internal(f) => f,
    }
}

impl ExecError {
    /// The failure behind the error.
    pub fn into_failure(self) -> (failure: Failure)
        ensures
            failure@ == failure_of(self@),
    {
        match self {
            ExecError::Sql(f) => f,
            ExecError::Checkpoint(f) => f,
            ExecError::Internal(f) => f,
        }
    }

    /// The whole chain of causes on one line.
    pub fn to_string(&self) -> (line: String)
        ensures
            line@ == crate::failure::chain_text(failure_of(self@)),
    {
        match self {
            ExecError::Sql(f) => f.text(),
            ExecError::Checkpoint(f) => f.text(),
            ExecError::Internal(f) => f.text(),
        }
    }
}

/// The result row of `PRAGMA wal_checkpoint`. Where `busy` is not 0 the
/// checkpoint could not run to completion.
#[derive(Debug, Clone, Copy)]
pub struct CheckpointStats {
    pub busy: i64,
    pub log: i64,
    pub checkpointed: i64,
}

// ---------------------------------------------------------------------------
// The handle
// ---------------------------------------------------------------------------

/// The handle to a database: where it is and how it is set up. The connection
/// that belongs to it is opened once and shared by all statements.
#[derive(Debug)]
pub struct SqliteDb {
    path: String,
    vfs: Option<String>,
    settings: DbSettings,
}

/// What a [`SqliteDb`] stands for.
pub ghost struct DbView {
    pub path: Seq<char>,
    /// The VFS that the file is opened through; the default one where there is none.
    pub vfs: Option<Seq<char>>,
    pub settings: DbSettings,
}

impl View for SqliteDb {
    type V = DbView;

    closed spec fn view(&self) -> DbView {
        DbView {
            path: self.path@,
            vfs: crate::settings::optional_text(self.vfs),
            settings: self.settings,
        }
    }
}

impl Clone for SqliteDb {
    fn clone(&self) -> (copy: Self)
        ensures
            copy@ == self@,
    {
        SqliteDb { path: self.path.clone(), vfs: self.vfs_text(), settings: self.settings }
    }
}

/// What an execution on a database with the settings `settings` goes by.
pub open spec fn options_of(
    settings: DbSettings,
    rows_format: RowsFormat,
    mode: CheckpointMode,
) -> ExecOptions {
    ExecOptions {
        rows_format,
        checkpoint_mode: mode,
        max_rows: settings.max_rows,
        query_timeout_ms: settings.query_timeout_ms,
    }
}

impl SqliteDb {
    /// Opens the file through the default VFS, with no setting.
    pub fn open(path: String) -> (step: OpenStep)
        ensures
            step@ == crate::opening::opening_of(
                (DbView { path: path@, vfs: None, settings: DbSettings::unset() }),
            ),
    {
        Self::open_with(path, None, DbSettings::default())
    }

    /// Opens the file through the VFS `vfs`, with no setting.
    pub fn open_with_vfs(path: String, vfs: String) -> (step: OpenStep)
        ensures
            step@ == crate::opening::opening_of(
                (DbView { path: path@, vfs: Some(vfs@), settings: DbSettings::unset() }),
            ),
    {
        Self::open_with(path, Some(vfs), DbSettings::default())
    }

    /// Opens the file, through the VFS `vfs` where there is one, and configures
    /// the connection.
    pub fn open_with(path: String, vfs: Option<String>, settings: DbSettings) -> (step: OpenStep)
        ensures
            step@ == crate::opening::opening_of(
                (DbView { path: path@, vfs: crate::settings::optional_text(vfs), settings }),
            ),
    {
        Opening::begin(SqliteDb { path, vfs, settings })
    }

    /// The file.
    pub fn path(&self) -> (path: &str)
        ensures
            path@ == self@.path,
    {
        self.path.as_str()
    }

    /// The file, as a text of its own.
    pub(crate) fn path_text(&self) -> (path: String)
        ensures
            path@ == self@.path,
    {
        self.path.clone()
    }

    /// The name of the VFS, as a text of its own.
    pub(crate) fn vfs_text(&self) -> (vfs: Option<String>)
        ensures
            crate::settings::optional_text(vfs) == self@.vfs,
    {
        match &self.vfs {
            Some(name) => Some(name.clone()),
            None => None,
        }
    }

    /// The settings.
    pub fn settings(&self) -> (settings: &DbSettings)
        ensures
            *settings == self@.settings,
    {
        &self.settings
    }

    /// Runs the statement without a checkpoint: for tests and local tools.
    /// [`ExecError::into_failure`] turns the error that may come of it into the
    /// failure alone.
    pub fn exec(&self, sql: String, params: Vec<Json>) -> (step: Step)
        ensures
            step@ == crate::execution::begun(
                sql@,
                crate::json::json_values(params@),
                options_of(self@.settings, RowsFormat::Objects, CheckpointMode::Off),
            ),
    {
        self.exec_durable(sql, params, RowsFormat::Objects, CheckpointMode::Off)
    }

    /// Runs the statement and, where it leaves durable work in the write-ahead
    /// log, a checkpoint after it.
    pub fn exec_durable(
        &self,
        sql: String,
        params: Vec<Json>,
        rows_format: RowsFormat,
        mode: CheckpointMode,
    ) -> (step: Step)
        ensures
            step@ == crate::execution::begun(
                sql@,
                crate::json::json_values(params@),
                options_of(self@.settings, rows_format, mode),
            ),
    {
        let options = ExecOptions {
            rows_format,
            checkpoint_mode: mode,
            max_rows: self.settings.max_rows,
            query_timeout_ms: self.settings.query_timeout_ms,
        };
        Execution::begin(sql, params, options)
    }
}

// ---------------------------------------------------------------------------
// Laws
// ---------------------------------------------------------------------------

/// Without settings a connection is left as SQLite opens it.
pub proof fn law_no_settings_no_pragmas()
    ensures
        pragmas_of(DbSettings::unset()) == Seq::<PragmaView>::empty(),
{
}

/// The policy looks at a pragma's name without regard to letter case.
pub proof fn law_policy_ignores_case(name: Seq<char>, other: Seq<char>, has_value: bool)
    requires
        text::ascii_lower(name) == text::ascii_lower(other),
    ensures
        pragma_policy(name, has_value) == pragma_policy(other, has_value),
{
}

/// A pragma may always be read.
pub proof fn law_reading_a_pragma_is_allowed(name: Seq<char>)
    ensures
        pragma_policy(name, false) == Authorization::Allow,
{
}

/// The checkpoint passes the policy, with and without an argument: so does the
/// one that follows a write.
pub proof fn law_checkpoint_passes_the_policy(has_value: bool)
    ensures
        pragma_policy(CHECKPOINT_PRAGMA@, has_value) == Authorization::Allow,
{
    reveal_strlit("wal_checkpoint");
    assert(text::ascii_lower(CHECKPOINT_PRAGMA@) =~= CHECKPOINT_PRAGMA@);
}

/// Once the policy is in force, no statement can undo what has configured the
/// connection: every pragma that the settings can set is refused with a value.
pub proof fn law_configuration_is_protected(settings: DbSettings, i: int)
    requires
        0 <= i < pragmas_of(settings).len(),
    ensures
        pragma_policy(pragmas_of(settings)[i].label, true) == Authorization::Deny,
{
    let label = pragmas_of(settings)[i].label;
    lemma_configuration_labels(settings, i);
    reveal_strlit("journal_mode");
    reveal_strlit("synchronous");
    reveal_strlit("temp_store");
    reveal_strlit("cache_size");
    reveal_strlit("mmap_size");
    reveal_strlit("busy_timeout");
    reveal_strlit("wal_checkpoint");
    reveal_strlit("table_info");
    reveal_strlit("table_xinfo");
    reveal_strlit("table_list");
    reveal_strlit("index_list");
    reveal_strlit("index_info");
    reveal_strlit("index_xinfo");
    reveal_strlit("foreign_key_list");
    reveal_strlit("foreign_key_check");
    reveal_strlit("integrity_check");
    reveal_strlit("quick_check");
    let lower = text::ascii_lower(label);
    assert(lower =~= label);
    assert forall|j: int| 0 <= j < arg_safe_names().len() implies lower
        != #[trigger] arg_safe_names()[j] by {
        let safe = arg_safe_names()[j];
        if lower.len() == safe.len() {
            assert(lower[0] != safe[0] || lower[5] != safe[5]);
        }
    }
    if lower == CHECKPOINT_PRAGMA@ {
        assert(lower.len() == 14);
    }
}

/// The pragmas that the settings can set.
proof fn lemma_configuration_labels(settings: DbSettings, i: int)
    requires
        0 <= i < pragmas_of(settings).len(),
    ensures
        ({
            let label = pragmas_of(settings)[i].label;
            ||| label == "journal_mode"@
            ||| label == "synchronous"@
            ||| label == "temp_store"@
            ||| label == "cache_size"@
            ||| label == "mmap_size"@
            ||| label == "busy_timeout"@
        }),
{
}

/// Whether a statement changes the schema does not depend on letter case.
pub proof fn law_schema_change_ignores_case(sql: Seq<char>, other: Seq<char>)
    requires
        text::ascii_lower(sql) == text::ascii_lower(other),
    ensures
        changes_schema(sql) == changes_schema(other),
{
    lemma_case_of_first_word(sql);
    lemma_case_of_first_word(other);
}

/// Whether `names[i]` does not come again further on.
pub open spec fn last_of_its_name(names: Seq<Seq<char>>, i: int) -> bool {
    forall|j: int| i < j < names.len() ==> #[trigger] names[j] != names[i]
}

/// A row as an object has a member for every column name and no other; where
/// columns share a name, it has the value of the last of them.
pub proof fn law_object_row(columns: Seq<Seq<char>>, cells: Seq<SqlView>)
    requires
        columns.len() == cells.len(),
    ensures
        forall|name: Seq<char>| #[trigger]
            row_object(columns, cells).contains_key(name) <==> columns.contains(name),
        forall|i: int|
            0 <= i < columns.len() && #[trigger] last_of_its_name(columns, i) ==> row_object(
                columns,
                cells,
            )[columns[i]] == json_form(cells[i]),
    decreases columns.len(),
{
    if columns.len() > 0 {
        let earlier = columns.drop_last();
        let values = cells.drop_last();
        law_object_row(earlier, values);
        let object = row_object(columns, cells);
        assert forall|name: Seq<char>| #[trigger] object.contains_key(name) <==> columns.contains(
            name,
        ) by {
            if columns.contains(name) {
                let i = choose|i: int| 0 <= i < columns.len() && columns[i] == name;
                if i < earlier.len() {
                    assert(earlier[i] == name);
                }
            }
            if earlier.contains(name) {
                let i = choose|i: int| 0 <= i < earlier.len() && earlier[i] == name;
                assert(columns[i] == name);
            }
            assert(columns[columns.len() - 1] == columns.last());
        }
        assert forall|i: int|
            0 <= i < columns.len() && #[trigger] last_of_its_name(
                columns,
                i,
            ) implies object[columns[i]] == json_form(cells[i]) by {
            if i < earlier.len() {
                assert(columns[columns.len() - 1] != columns[i]);
                assert forall|j: int| i < j < earlier.len() implies #[trigger] earlier[j]
                    != earlier[i] by {
                    assert(columns[j] != columns[i]);
                }
                assert(last_of_its_name(earlier, i));
            }
        }
    }
}

/// A row as an array has a value for every column, in column order, also where
/// columns share a name.
pub proof fn law_array_row(columns: Seq<Seq<char>>, cells: Seq<SqlView>)
    requires
        columns.len() == cells.len(),
    ensures
        row_array(cells).len() == columns.len(),
        forall|i: int|
            0 <= i < columns.len() ==> #[trigger] row_array(cells)[i] == json_form(cells[i]),
{
}

/// A parameter that is bound and read back is the same: `null`, an integer that
/// fits an `i64`, a finite real, a text. A boolean comes back as 0 or 1.
pub proof fn law_parameter_reads_back(v: crate::json::JsonValue)
    ensures
        v is Null ==> (bound(v) matches Ok(sql) && json_form(sql) == v),
        v matches crate::json::JsonValue::Integer(n) ==> i64::MIN <= n <= i64::MAX ==> (bound(
            v,
        ) matches Ok(sql) && json_form(sql) == v),
        v matches crate::json::JsonValue::Real(bits) ==> crate::json::finite_bits(bits) ==> (bound(
            v,
        ) matches Ok(sql) && json_form(sql) == v),
        v is Text ==> (bound(v) matches Ok(sql) && json_form(sql) == v),
        v matches crate::json::JsonValue::Bool(b) ==> (bound(v) matches Ok(sql) && json_form(sql)
            == crate::json::JsonValue::Integer(if b { 1 } else { 0 })),
{
}

/// A value that was read can be bound again and is the same, a blob and a real
/// that is not finite apart: these are read as `null`.
pub proof fn law_value_binds_back(v: SqlView)
    ensures
        v is Blob || (v matches SqlView::Real(bits) && !crate::json::finite_bits(bits))
            ==> json_form(v) == crate::json::JsonValue::Null,
        v !is Blob && (v matches SqlView::Real(bits) ==> crate::json::finite_bits(bits)) ==> bound(
            json_form(v),
        ) == Ok::<SqlView, Seq<char>>(v),
{
}

/// The parameters are bound one for one and in order, or not at all.
pub proof fn law_all_parameters_are_bound(params: Seq<crate::json::JsonValue>)
    ensures
        match bound_all(params) {
            Ok(values) => values.len() == params.len() && forall|i: int|
                0 <= i < params.len() ==> bound(#[trigger] params[i]) == Ok::<SqlView, Seq<char>>(
                    values[i],
                ),
            Err(message) => exists|i: int|
                0 <= i < params.len() && bound(#[trigger] params[i]) == Err::<SqlView, Seq<char>>(
                    message,
                ) && forall|j: int| 0 <= j < i ==> bound(#[trigger] params[j]) is Ok,
        },
    decreases params.len(),
{
    if params.len() > 0 {
        let earlier = params.drop_last();
        law_all_parameters_are_bound(earlier);
        match bound_all(earlier) {
            Ok(values) => {
                assert(params[params.len() - 1] == params.last());
                assert forall|j: int| 0 <= j < earlier.len() implies bound(#[trigger] params[j])
                    == Ok::<SqlView, Seq<char>>(values[j]) by {
                    assert(params[j] == earlier[j]);
                }
            },
            Err(message) => {
                let i = choose|i: int|
                    0 <= i < earlier.len() && bound(#[trigger] earlier[i]) == Err::<
                        SqlView,
                        Seq<char>,
                    >(message) && forall|j: int| 0 <= j < i ==> bound(#[trigger] earlier[j]) is Ok;
                assert(params[i] == earlier[i]);
                assert forall|j: int| 0 <= j < i implies bound(#[trigger] params[j]) is Ok by {
                    assert(params[j] == earlier[j]);
                }
            },
        }
    }
}

/// Only arrays and objects cannot be bound: parameters without any of them are all
/// bound.
pub proof fn law_only_composites_cannot_be_bound(params: Seq<crate::json::JsonValue>)
    ensures
        bound_all(params) is Err <==> exists|i: int|
            0 <= i < params.len() && (#[trigger] params[i]) is Composite,
{
    law_all_parameters_are_bound(params);
    if exists|i: int| 0 <= i < params.len() && (#[trigger] params[i]) is Composite {
        let i = choose|i: int| 0 <= i < params.len() && (#[trigger] params[i]) is Composite;
        assert(bound(params[i]) is Err);
    }
}

/// Whether `value` is what the parameter `param` is, as a value of the database.
pub open spec fn carries(param: crate::json::JsonValue, value: SqlView) -> bool {
    match param {
        crate::json::JsonValue::Null => value is Null,
        crate::json::JsonValue::Bool(b) => value == SqlView::Integer(if b { 1 } else { 0 }),
        crate::json::JsonValue::Integer(n) => if n <= i64::MAX {
            i64::MIN <= n ==> value == SqlView::Integer(n as i64)
        } else {
            n <= u64::MAX ==> value == SqlView::Real(double_of(n as u64))
        },
        crate::json::JsonValue::Real(bits) => value == SqlView::Real(bits),
        crate::json::JsonValue::Text(s) => value == SqlView::Text(s),
        crate::json::JsonValue::Composite(_) => false,
    }
}

/// What a parameter is bound as is the parameter itself, and of what cannot be
/// bound the error shows what it is.
pub proof fn law_bound_values_carry_their_parameter(param: crate::json::JsonValue)
    ensures
        match bound(param) {
            Ok(value) => carries(param, value),
            Err(message) => param matches crate::json::JsonValue::Composite(shown) && message
                == "cannot bind "@ + shown + " as SQL parameter"@,
        },
{
}

/// What is shown of a value of the database is that value: integers, finite reals
/// and texts as they are, and `null` for all else.
pub proof fn law_shown_values_are_the_values(value: SqlView)
    ensures
        match value {
            SqlView::Integer(n) => json_form(value) == crate::json::JsonValue::Integer(n as int),
            SqlView::Real(bits) => json_form(value) == if (bits / 0x10_0000_0000_0000) % 0x800
                == 0x7ff {
                crate::json::JsonValue::Null
            } else {
                crate::json::JsonValue::Real(bits)
            },
            SqlView::Text(s) => json_form(value) == crate::json::JsonValue::Text(s),
            SqlView::Null => json_form(value) == crate::json::JsonValue::Null,
            SqlView::Blob(_) => json_form(value) == crate::json::JsonValue::Null,
        },
{
}

/// Whether the object shows the cells by the names of their columns.
pub open spec fn shows_by_name(
    columns: Seq<Seq<char>>,
    cells: Seq<SqlView>,
    members: Map<Seq<char>, crate::json::JsonValue>,
) -> bool {
    &&& forall|name: Seq<char>| #[trigger] members.contains_key(name) <==> columns.contains(name)
    &&& forall|i: int|
        0 <= i < columns.len() && #[trigger] last_of_its_name(columns, i)
            ==> members[columns[i]] == json_form(cells[i])
}

/// Whether the array shows the cells in their order.
pub open spec fn shows_in_order(
    cells: Seq<SqlView>,
    values: Seq<crate::json::JsonValue>,
) -> bool {
    &&& values.len() == cells.len()
    &&& forall|i: int| 0 <= i < cells.len() ==> #[trigger] values[i] == json_form(cells[i])
}

/// A row shows every cell, `null` included: as an object by the names of the
/// columns, as an array in their order.
pub proof fn law_rows_show_every_cell(
    format: RowsFormat,
    columns: Seq<Seq<char>>,
    cells: Seq<SqlView>,
)
    requires
        columns.len() == cells.len(),
    ensures
        match format {
            RowsFormat::Objects => row_of(format, columns, cells) matches RowView::Object(members)
                && shows_by_name(columns, cells, members),
            RowsFormat::Arrays => row_of(format, columns, cells) matches RowView::Array(values)
                && shows_in_order(cells, values),
        },
{
    law_object_row(columns, cells);
    law_array_row(columns, cells);
}

/// [`SqliteDb::exec`] runs no checkpoint.
pub proof fn law_exec_runs_no_checkpoint(
    sql: Seq<char>,
    params: Seq<crate::json::JsonValue>,
    settings: DbSettings,
    rows_format: RowsFormat,
    replies: Seq<crate::execution::ReplyView>,
)
    ensures
        crate::execution::run(
            crate::execution::begun(
                sql,
                params,
                options_of(settings, rows_format, CheckpointMode::Off),
            ),
            replies,
        ) matches crate::execution::StepView::Ask { request, .. } ==> request !is Checkpoint,
{
    let options = options_of(settings, rows_format, CheckpointMode::Off);
    if let crate::execution::StepView::Ask { state, request } = crate::execution::run(
        crate::execution::begun(sql, params, options),
        replies,
    ) {
        if request is Checkpoint {
            crate::execution::law_checkpoint_only_when_due(
                sql,
                params,
                options,
                replies,
                state,
                request,
            );
        }
    }
}

/// Which of the statements that configure a connection comes first, and which next.
pub open spec fn turn(label: Seq<char>) -> int {
    if label == "journal_mode"@ {
        0
    } else if label == "synchronous"@ {
        1
    } else if label == "temp_store"@ {
        2
    } else if label == "cache_size"@ {
        3
    } else if label == "mmap_size"@ {
        4
    } else if label == "busy_timeout"@ {
        5
    } else {
        6
    }
}

/// Every setting has its statement, which says the value that was set; what is not
/// set has none. The statements come in a fixed order, each of them once.
pub proof fn law_every_setting_has_its_pragma(s: DbSettings)
    ensures
        s.journal_mode matches Some(mode) ==> pragmas_of(s).contains(
            (PragmaView {
                label: "journal_mode"@,
                sql: "PRAGMA journal_mode = "@ + mode.word(),
            }),
        ),
        s.synchronous matches Some(mode) ==> pragmas_of(s).contains(
            (PragmaView { label: "synchronous"@, sql: "PRAGMA synchronous = "@ + mode.word() }),
        ),
        s.temp_store matches Some(store) ==> pragmas_of(s).contains(
            (PragmaView { label: "temp_store"@, sql: "PRAGMA temp_store = "@ + store.word() }),
        ),
        s.page_cache_kb matches Some(kb) ==> pragmas_of(s).contains(
            (PragmaView {
                label: "cache_size"@,
                sql: "PRAGMA cache_size = -"@ + text::decimal(
                    if kb < 0 {
                        (-kb) as nat
                    } else {
                        kb as nat
                    },
                ),
            }),
        ),
        s.mmap_size matches Some(bytes) ==> pragmas_of(s).contains(
            (PragmaView {
                label: "mmap_size"@,
                sql: "PRAGMA mmap_size = "@ + text::signed_decimal(bytes as int),
            }),
        ),
        s.busy_timeout_ms matches Some(ms) ==> pragmas_of(s).contains(
            (PragmaView {
                label: "busy_timeout"@,
                sql: "PRAGMA busy_timeout = "@ + text::decimal(ms as nat),
            }),
        ),
        forall|i: int|
            0 <= i < pragmas_of(s).len() ==> {
                let label = (#[trigger] pragmas_of(s)[i]).label;
                ||| label == "journal_mode"@ && s.journal_mode is Some
                ||| label == "synchronous"@ && s.synchronous is Some
                ||| label == "temp_store"@ && s.temp_store is Some
                ||| label == "cache_size"@ && s.page_cache_kb is Some
                ||| label == "mmap_size"@ && s.mmap_size is Some
                ||| label == "busy_timeout"@ && s.busy_timeout_ms is Some
            },
        forall|i: int, j: int|
            0 <= i < j < pragmas_of(s).len() ==> turn((#[trigger] pragmas_of(s)[i]).label) < turn(
                (#[trigger] pragmas_of(s)[j]).label,
            ),
{
    let journal_mode = match s.journal_mode {
        Some(mode) => Some(mode.word()),
        None => None,
    };
    let synchronous = match s.synchronous {
        Some(mode) => Some(mode.word()),
        None => None,
    };
    let temp_store = match s.temp_store {
        Some(store) => Some(store.word()),
        None => None,
    };
    let cache_size = match s.page_cache_kb {
        Some(kb) => Some(seq!['-'] + text::decimal(magnitude(kb as int))),
        None => None,
    };
    let mmap_size = match s.mmap_size {
        Some(bytes) => Some(text::signed_decimal(bytes as int)),
        None => None,
    };
    let busy_timeout = match s.busy_timeout_ms {
        Some(ms) => Some(text::decimal(ms as nat)),
        None => None,
    };
    lemma_six_settings(
        journal_mode,
        synchronous,
        temp_store,
        cache_size,
        mmap_size,
        busy_timeout,
        pragmas_of(s),
    );
    lemma_statements();
    if let Some(kb) = s.page_cache_kb {
        let size = text::decimal(magnitude(kb as int));
        assert("PRAGMA "@ + "cache_size"@ + " = "@ + (seq!['-'] + size) =~= "PRAGMA "@
            + "cache_size"@ + " = "@ + seq!['-'] + size);
    }
}

/// The statements for six settings, each of which has a value or not.
#[verifier::spinoff_prover]
proof fn lemma_six_settings(
    journal_mode: Option<Seq<char>>,
    synchronous: Option<Seq<char>>,
    temp_store: Option<Seq<char>>,
    cache_size: Option<Seq<char>>,
    mmap_size: Option<Seq<char>>,
    busy_timeout: Option<Seq<char>>,
    plan: Seq<PragmaView>,
)
    requires
        plan == setting("journal_mode"@, journal_mode) + setting("synchronous"@, synchronous)
            + setting("temp_store"@, temp_store) + setting("cache_size"@, cache_size) + setting(
            "mmap_size"@,
            mmap_size,
        ) + setting("busy_timeout"@, busy_timeout),
    ensures
        in_order(plan, 6),
        sets(plan, "journal_mode"@, journal_mode),
        sets(plan, "synchronous"@, synchronous),
        sets(plan, "temp_store"@, temp_store),
        sets(plan, "cache_size"@, cache_size),
        sets(plan, "mmap_size"@, mmap_size),
        sets(plan, "busy_timeout"@, busy_timeout),
        forall|i: int|
            0 <= i < plan.len() ==> {
                let label = (#[trigger] plan[i]).label;
                ||| label == "journal_mode"@ && journal_mode is Some
                ||| label == "synchronous"@ && synchronous is Some
                ||| label == "temp_store"@ && temp_store is Some
                ||| label == "cache_size"@ && cache_size is Some
                ||| label == "mmap_size"@ && mmap_size is Some
                ||| label == "busy_timeout"@ && busy_timeout is Some
            },
{
    lemma_labels_differ();
    let none = Seq::<PragmaView>::empty();
    lemma_one_more(none, "journal_mode"@, journal_mode);
    let one = none + setting("journal_mode"@, journal_mode);
    lemma_one_more(one, "synchronous"@, synchronous);
    let two = one + setting("synchronous"@, synchronous);
    lemma_one_more(two, "temp_store"@, temp_store);
    let three = two + setting("temp_store"@, temp_store);
    lemma_one_more(three, "cache_size"@, cache_size);
    let four = three + setting("cache_size"@, cache_size);
    lemma_one_more(four, "mmap_size"@, mmap_size);
    let five = four + setting("mmap_size"@, mmap_size);
    lemma_one_more(five, "busy_timeout"@, busy_timeout);
    assert(one =~= setting("journal_mode"@, journal_mode));
    assert(plan == five + setting("busy_timeout"@, busy_timeout));
    assert forall|i: int| 0 <= i < plan.len() implies {
        let label = (#[trigger] plan[i]).label;
        ||| label == "journal_mode"@ && journal_mode is Some
        ||| label == "synchronous"@ && synchronous is Some
        ||| label == "temp_store"@ && temp_store is Some
        ||| label == "cache_size"@ && cache_size is Some
        ||| label == "mmap_size"@ && mmap_size is Some
        ||| label == "busy_timeout"@ && busy_timeout is Some
    } by {
        assert(plan.contains(plan[i]));
    }
}

/// Whether the setting, where it has a value, has its statement among `plan`.
spec fn sets(plan: Seq<PragmaView>, label: Seq<char>, value: Option<Seq<char>>) -> bool {
    value matches Some(v) ==> plan.contains(
        (PragmaView { label, sql: "PRAGMA "@ + label + " = "@ + v }),
    )
}

/// Whether the statements come in their order, all of them before the turn `before`.
spec fn in_order(plan: Seq<PragmaView>, before: int) -> bool {
    &&& forall|i: int| 0 <= i < plan.len() ==> turn((#[trigger] plan[i]).label) < before
    &&& forall|i: int, j: int|
        0 <= i < j < plan.len() ==> turn((#[trigger] plan[i]).label) < turn(
            (#[trigger] plan[j]).label,
        )
}

/// What one more setting adds to the statements for those before it.
proof fn lemma_one_more(front: Seq<PragmaView>, label: Seq<char>, value: Option<Seq<char>>)
    requires
        in_order(front, turn(label)),
    ensures
        in_order(front + setting(label, value), turn(label) + 1),
        forall|p: PragmaView| #[trigger]
            front.contains(p) ==> (front + setting(label, value)).contains(p),
        value matches Some(v) ==> (front + setting(label, value)).contains(
            (PragmaView { label, sql: "PRAGMA "@ + label + " = "@ + v }),
        ),
        forall|p: PragmaView| #[trigger]
            (front + setting(label, value)).contains(p) ==> front.contains(p) || p.label == label
                && value is Some,
{
    let whole = front + setting(label, value);
    assert forall|p: PragmaView| #[trigger] front.contains(p) implies whole.contains(p) by {
        let i = choose|i: int| 0 <= i < front.len() && front[i] == p;
        assert(whole[i] == p);
    }
    if value is Some {
        assert(whole[front.len() as int] == setting(label, value)[0]);
    }
    assert forall|p: PragmaView| #[trigger] whole.contains(p) implies front.contains(p) || p.label
        == label && value is Some by {
        let i = choose|i: int| 0 <= i < whole.len() && whole[i] == p;
        if i < front.len() {
            assert(front[i] == p);
        }
    }
}

/// The labels have six different names.
proof fn lemma_labels_differ()
    ensures
        turn("journal_mode"@) == 0,
        turn("synchronous"@) == 1,
        turn("temp_store"@) == 2,
        turn("cache_size"@) == 3,
        turn("mmap_size"@) == 4,
        turn("busy_timeout"@) == 5,
{
    reveal_strlit("journal_mode");
    reveal_strlit("synchronous");
    reveal_strlit("temp_store");
    reveal_strlit("cache_size");
    reveal_strlit("mmap_size");
    reveal_strlit("busy_timeout");
    assert("journal_mode"@.len() == 12 && "synchronous"@.len() == 11 && "temp_store"@.len() == 10
        && "cache_size"@.len() == 10 && "mmap_size"@.len() == 9 && "busy_timeout"@.len() == 12);
    assert("temp_store"@[0] != "cache_size"@[0]);
    assert("journal_mode"@[0] != "busy_timeout"@[0]);
}

/// How the statements begin.
proof fn lemma_statements()
    ensures
        "PRAGMA journal_mode = "@ == "PRAGMA "@ + "journal_mode"@ + " = "@,
        "PRAGMA synchronous = "@ == "PRAGMA "@ + "synchronous"@ + " = "@,
        "PRAGMA temp_store = "@ == "PRAGMA "@ + "temp_store"@ + " = "@,
        "PRAGMA cache_size = -"@ == "PRAGMA "@ + "cache_size"@ + " = "@ + seq!['-'],
        "PRAGMA mmap_size = "@ == "PRAGMA "@ + "mmap_size"@ + " = "@,
        "PRAGMA busy_timeout = "@ == "PRAGMA "@ + "busy_timeout"@ + " = "@,
{
    reveal_strlit("journal_mode");
    reveal_strlit("synchronous");
    reveal_strlit("temp_store");
    reveal_strlit("cache_size");
    reveal_strlit("mmap_size");
    reveal_strlit("busy_timeout");
    reveal_strlit("PRAGMA ");
    reveal_strlit(" = ");
    reveal_strlit("PRAGMA journal_mode = ");
    reveal_strlit("PRAGMA synchronous = ");
    reveal_strlit("PRAGMA temp_store = ");
    reveal_strlit("PRAGMA cache_size = -");
    reveal_strlit("PRAGMA mmap_size = ");
    reveal_strlit("PRAGMA busy_timeout = ");
}

/// Other database files are out of reach, all but pragmas is free, and of pragmas
/// only those with a value are refused, unless the value does no more than select
/// what to read or flush.
pub proof fn law_what_is_refused(action: StatementAction)
    ensures
        action_policy(action) == Authorization::Deny <==> match action {
            StatementAction::Attach => true,
            StatementAction::Detach => true,
            StatementAction::Other => false,
            StatementAction::Pragma { name, has_value } => has_value && {
                let lower = text::ascii_lower(name@);
                &&& lower != "wal_checkpoint"@
                &&& lower != "table_info"@
                &&& lower != "table_xinfo"@
                &&& lower != "table_list"@
                &&& lower != "index_list"@
                &&& lower != "index_info"@
                &&& lower != "index_xinfo"@
                &&& lower != "foreign_key_list"@
                &&& lower != "foreign_key_check"@
                &&& lower != "integrity_check"@
                &&& lower != "quick_check"@
            },
        },
{
    let safe = arg_safe_names();
    assert(safe[0] == "table_info"@ && safe[1] == "table_xinfo"@ && safe[2] == "table_list"@
        && safe[3] == "index_list"@ && safe[4] == "index_info"@ && safe[5] == "index_xinfo"@
        && safe[6] == "foreign_key_list"@ && safe[7] == "foreign_key_check"@ && safe[8]
        == "integrity_check"@ && safe[9] == "quick_check"@);
}

/// A statement changes the schema when its first word begins with `create`, `drop`
/// or `alter`, in any letter case.
pub proof fn law_first_word_decides(sql: Seq<char>)
    requires
        sql.len() > 0,
        sql[0] != ' ' && sql[0] != '\t' && sql[0] != '\n' && sql[0] != '\x0b' && sql[0] != '\x0c'
            && sql[0] != '\r' && sql[0] != ';' && sql[0] != '\u{feff}',
        sql.take(2) != seq!['-', '-'],
        sql.take(2) != seq!['/', '*'],
    ensures
        changes_schema(sql) <==> {
            let lower = text::ascii_lower(sql);
            ||| sql.len() >= 6 && lower.take(6) == "create"@
            ||| sql.len() >= 4 && lower.take(4) == "drop"@
            ||| sql.len() >= 5 && lower.take(5) == "alter"@
        },
{
    if sql.len() > 1 {
        assert(sql[0] == '-' && sql[1] == '-' ==> sql.take(2) =~= seq!['-', '-']);
        assert(sql[0] == '/' && sql[1] == '*' ==> sql.take(2) =~= seq!['/', '*']);
    }
    assert(from_first_word(sql) == sql);
    reveal_strlit("create");
    reveal_strlit("drop");
    reveal_strlit("alter");
    let lower = text::ascii_lower(sql);
    assert(sql.len() >= 6 ==> lower.take(6) =~= lower.subrange(0, 6));
    assert(sql.len() >= 5 ==> lower.take(5) =~= lower.subrange(0, 5));
    assert(sql.len() >= 4 ==> lower.take(4) =~= lower.subrange(0, 4));
}

/// Blanks, semicolons and a byte order mark before a statement change nothing, and
/// of an empty statement nothing changes the schema.
pub proof fn law_blanks_are_passed_over(c: char, sql: Seq<char>)
    ensures
        !changes_schema(Seq::empty()),
        c == ' ' || c == '\t' || c == '\n' || c == '\x0b' || c == '\x0c' || c == '\r' || c == ';'
            || c == '\u{feff}' ==> changes_schema(seq![c] + sql) == changes_schema(sql),
{
    assert((seq![c] + sql).skip(1) =~= sql);
    reveal_strlit("create");
    reveal_strlit("drop");
    reveal_strlit("alter");
    assert(from_first_word(Seq::empty()) == Seq::<char>::empty());
}

/// Neither does a comment to the end of the line.
pub proof fn law_line_comments_are_passed_over(comment: Seq<char>, sql: Seq<char>)
    requires
        !comment.contains('\n'),
    ensures
        changes_schema(seq!['-', '-'] + comment + seq!['\n'] + sql) == changes_schema(sql),
        !changes_schema(seq!['-', '-'] + comment),
{
    let whole = seq!['-', '-'] + comment + seq!['\n'] + sql;
    assert(whole.skip(2) =~= comment + seq!['\n'] + sql);
    assert((seq!['-', '-'] + comment).skip(2) =~= comment);
    lemma_line_ends(comment, sql);
    law_blanks_are_passed_over(' ', sql);
    assert(from_first_word(Seq::empty()) == Seq::<char>::empty());
}

/// Where the first line ends.
proof fn lemma_line_ends(line: Seq<char>, rest: Seq<char>)
    requires
        !line.contains('\n'),
    ensures
        after_line(line + seq!['\n'] + rest) == rest,
        after_line(line) == Seq::<char>::empty(),
    decreases line.len(),
{
    let whole = line + seq!['\n'] + rest;
    if line.len() == 0 {
        assert(whole.skip(1) =~= rest);
        assert(line =~= Seq::empty());
    } else {
        let shorter = line.skip(1);
        assert forall|i: int| 0 <= i < shorter.len() implies #[trigger] shorter[i] != '\n' by {
            assert(line.contains(line[i + 1]));
        }
        assert(line.contains(line[0]));
        assert(whole.skip(1) =~= shorter + seq!['\n'] + rest);
        lemma_line_ends(shorter, rest);
    }
}

/// Whether `*/` stands in `s`.
pub open spec fn ends_a_comment(s: Seq<char>) -> bool {
    exists|i: int| 0 <= i < s.len() - 1 && #[trigger] s[i] == '*' && s[i + 1] == '/'
}

/// Nor does a comment between `/*` and the first `*/` after it.
pub proof fn law_block_comments_are_passed_over(comment: Seq<char>, sql: Seq<char>)
    requires
        !ends_a_comment(comment + seq!['*']),
    ensures
        changes_schema(seq!['/', '*'] + comment + seq!['*', '/'] + sql) == changes_schema(sql),
        !changes_schema(seq!['/', '*'] + comment),
{
    let whole = seq!['/', '*'] + comment + seq!['*', '/'] + sql;
    assert(whole.skip(2) =~= comment + seq!['*', '/'] + sql);
    assert((seq!['/', '*'] + comment).skip(2) =~= comment);
    lemma_comment_ends(comment, sql);
    law_blanks_are_passed_over(' ', sql);
    assert(from_first_word(Seq::empty()) == Seq::<char>::empty());
}

/// Where the first comment ends.
proof fn lemma_comment_ends(comment: Seq<char>, rest: Seq<char>)
    requires
        !ends_a_comment(comment + seq!['*']),
    ensures
        after_comment(comment + seq!['*', '/'] + rest) == rest,
        after_comment(comment) == Seq::<char>::empty(),
    decreases comment.len(),
{
    let whole = comment + seq!['*', '/'] + rest;
    if comment.len() == 0 {
        assert(whole.skip(2) =~= rest);
    } else {
        let shorter = comment.skip(1);
        let with_star = comment + seq!['*'];
        assert(with_star[0] == comment[0]);
        assert(with_star[1] == whole[1]);
        if comment[0] == '*' {
            assert(with_star[1] != '/');
        }
        if comment.len() > 1 {
            assert(with_star[1] == comment[1]);
        }
        assert forall|i: int|
            0 <= i < (shorter + seq!['*']).len() - 1 && #[trigger] (shorter + seq!['*'])[i]
                == '*' implies (shorter + seq!['*'])[i + 1] != '/' by {
            assert(with_star[i + 1] == '*');
            assert(with_star[i + 2] != '/');
        }
        assert(whole.skip(1) =~= shorter + seq!['*', '/'] + rest);
        lemma_comment_ends(shorter, rest);
    }
}

/// A number that fits an `i64` is bound as that integer, and a larger one as the
/// double that stands for it; without one the error names the number.
pub proof fn law_numbers_are_bound_by_size(n: u64, double: Option<u64>)
    ensures
        n <= 0x7fff_ffff_ffff_ffff ==> bound_number(n, double) == Ok::<SqlView, Seq<char>>(
            SqlView::Integer(n as i64),
        ),
        n > 0x7fff_ffff_ffff_ffff ==> match double {
            Some(bits) => bound_number(n, double) == Ok::<SqlView, Seq<char>>(SqlView::Real(bits)),
            None => bound_number(n, double) == Err::<SqlView, Seq<char>>(
                "number "@ + text::decimal(n as nat) + " does not fit i64 or f64"@,
            ),
        },
{
}

/// A statement runs in the shape and the checkpoint mode that were asked for, and
/// within the limits of the database.
pub proof fn law_limits_of_the_database_apply(
    settings: DbSettings,
    rows_format: RowsFormat,
    mode: CheckpointMode,
)
    ensures
        options_of(settings, rows_format, mode).rows_format == rows_format,
        options_of(settings, rows_format, mode).checkpoint_mode == mode,
        options_of(settings, rows_format, mode).max_rows == settings.max_rows,
        options_of(settings, rows_format, mode).query_timeout_ms == settings.query_timeout_ms,
        DbSettings::unset().max_rows is None,
        DbSettings::unset().query_timeout_ms is None,
{
}

/// The settings of the database are the knobs of the same names.
pub proof fn law_knobs_become_settings(knobs: ConfigKnobs, settings: DbSettings)
    requires
        call_ensures(DbSettings::from_knobs, (&knobs,), settings),
    ensures
        settings.synchronous == knobs.synchronous,
        settings.journal_mode == knobs.journal_mode,
        settings.page_cache_kb == knobs.page_cache_kb,
        settings.mmap_size == knobs.mmap_size,
        settings.temp_store == knobs.temp_store,
        settings.busy_timeout_ms == knobs.busy_timeout_ms,
        settings.max_rows == knobs.max_rows,
        settings.query_timeout_ms == knobs.query_timeout_ms,
{
}

/// Rows are objects where the request does not say otherwise.
pub proof fn law_rows_are_objects_by_default(format: RowsFormat)
    requires
        call_ensures(RowsFormat::default, (), format),
    ensures
        format is Objects,
{
}

/// The views leave nothing out: what is said of the view of a value, a row, an
/// outcome, an error or a statement is said of that itself.
pub proof fn law_views_of_results(
    value: SqlValue,
    row: Row,
    outcome: ExecOutcome,
    error: ExecError,
    statement: PragmaStatement,
)
    ensures
        match value {
            SqlValue::Null => value@ == SqlView::Null,
            SqlValue::Integer(n) => value@ == SqlView::Integer(n),
            SqlValue::Real(bits) => value@ == SqlView::Real(bits),
            SqlValue::Text(s) => value@ == SqlView::Text(s@),
            SqlValue::Blob(b) => value@ == SqlView::Blob(b@),
        },
        match row {
            Row::Object(object) => row@ == RowView::Object(object@),
            Row::Array(values) => row@ matches RowView::Array(views) && {
                &&& views.len() == values@.len()
                &&& forall|i: int| 0 <= i < values@.len() ==> #[trigger] views[i] == values@[i]@
            },
        },
        outcome@.columns.len() == outcome.columns@.len(),
        forall|i: int|
            0 <= i < outcome.columns@.len() ==> #[trigger] outcome@.columns[i]
                == outcome.columns@[i]@,
        outcome@.rows.len() == outcome.rows@.len(),
        forall|i: int|
            0 <= i < outcome.rows@.len() ==> #[trigger] outcome@.rows[i] == outcome.rows@[i]@,
        outcome@.rowcount == outcome.rowcount,
        outcome@.lastrowid == outcome.lastrowid,
        outcome@.readonly == outcome.readonly,
        match error {
            ExecError::Sql(f) => error@ == ExecErrorView::Sql(f@) && failure_of(error@) == f@,
            ExecError::Checkpoint(f) => error@ == ExecErrorView::Checkpoint(f@) && failure_of(
                error@,
            ) == f@,
            ExecError::Internal(f) => error@ == ExecErrorView::Internal(f@) && failure_of(error@)
                == f@,
        },
        statement@.label == statement.label@,
        statement@.sql == statement.sql@,
{
}

/// Nor do those of several values and several rows.
pub proof fn law_views_of_several(values: Seq<SqlValue>, rows: Seq<Row>)
    ensures
        sql_values(values).len() == values.len(),
        forall|i: int| 0 <= i < values.len() ==> #[trigger] sql_values(values)[i] == values[i]@,
        row_values(rows).len() == rows.len(),
        forall|i: int| 0 <= i < rows.len() ==> #[trigger] row_values(rows)[i] == rows[i]@,
{
}

/// What the functions on statements and values give is what was said above of
/// texts, values and rows.
pub proof fn law_rules_as_values(
    sql: &str,
    name: &str,
    has_value: bool,
    action: StatementAction,
    yes: bool,
    answer: Authorization,
    settings: DbSettings,
    plan: Vec<PragmaStatement>,
    i: int,
)
    ensures
        call_ensures(is_schema_change, (sql,), yes) ==> yes == changes_schema(sql@),
        call_ensures(authorize_action, (&action,), answer) ==> answer == action_policy(action),
        call_ensures(authorize_pragma, (name, has_value), answer) ==> answer == pragma_policy(
            name@,
            has_value,
        ),
        call_ensures(pragma_statements, (&settings,), plan) ==> plan@.len() == pragmas_of(
            settings,
        ).len(),
        call_ensures(pragma_statements, (&settings,), plan) && 0 <= i < plan@.len() ==> plan@[i]@
            == pragmas_of(settings)[i],
{
    let views = plan@.map_values(|p: PragmaStatement| p@);
    if call_ensures(pragma_statements, (&settings,), plan) {
        assert(views == pragmas_of(settings));
        if 0 <= i < plan@.len() {
            assert(views[i] == plan@[i]@);
        }
    }
}

/// Values are bound and shown as said above.
pub proof fn law_conversions_as_values(
    param: Json,
    bound_value: Result<SqlValue, Failure>,
    cell: SqlValue,
    shown: Json,
    n: u64,
    double: Option<u64>,
)
    ensures
        call_ensures(json_to_sql, (param,), bound_value) ==> match bound_value {
            Ok(value) => carries(param@, value@),
            Err(failure) => param matches Json::Composite(text) && failure@.len() == 1
                && failure@[0].message == "cannot bind "@ + text@ + " as SQL parameter"@,
        },
        call_ensures(sql_to_json, (&cell,), shown) ==> shown@ == json_form(cell@),
        call_ensures(bind_number, (n, double), bound_value) ==> match bound_value {
            Ok(value) => if n <= 0x7fff_ffff_ffff_ffff {
                value@ == SqlView::Integer(n as i64)
            } else {
                double matches Some(bits) && value@ == SqlView::Real(bits)
            },
            Err(failure) => n > 0x7fff_ffff_ffff_ffff && double is None && failure@.len() == 1
                && failure@[0].message == "number "@ + text::decimal(n as nat)
                + " does not fit i64 or f64"@,
        },
{
    law_bound_values_carry_their_parameter(param@);
}

/// All parameters are bound in their order, and a row shows all its cells.
pub proof fn law_lists_as_values(
    params: Vec<Json>,
    bound_values: Result<Vec<SqlValue>, Failure>,
    format: RowsFormat,
    columns: Vec<String>,
    cells: Vec<SqlValue>,
    row: Row,
    i: int,
)
    ensures
        call_ensures(bind_params, (params,), bound_values) ==> match bound_values {
            Ok(values) => values@.len() == params@.len() && (0 <= i < params@.len() ==> carries(
                params@[i]@,
                values@[i]@,
            )),
            Err(_) => exists|k: int| 0 <= k < params@.len() && (#[trigger] params@[k]) is Composite,
        },
        columns@.len() == cells@.len() && call_ensures(
            shape_row,
            (format, &columns, &cells),
            row,
        ) ==> match row {
            Row::Object(object) => format is Objects && shows_by_name(
                text::texts(columns@),
                sql_values(cells@),
                object@,
            ),
            Row::Array(values) => format is Arrays && values@.len() == cells@.len() && (0 <= i
                < cells@.len() ==> values@[i]@ == json_form(cells@[i]@)),
        },
{
    let all = crate::json::json_values(params@);
    law_all_parameters_are_bound(all);
    if call_ensures(bind_params, (params,), bound_values) {
        if let Ok(values) = bound_values {
            assert(sql_values(values@).len() == all.len());
            if 0 <= i < params@.len() {
                assert(all[i] == params@[i]@);
                assert(sql_values(values@)[i] == values@[i]@);
                law_bound_values_carry_their_parameter(all[i]);
            }
        }
    }
    if columns@.len() == cells@.len() {
        law_rows_show_every_cell(format, text::texts(columns@), sql_values(cells@));
        if let Row::Array(values) = row {
            if call_ensures(shape_row, (format, &columns, &cells), row) {
                assert(row@ == row_of(format, text::texts(columns@), sql_values(cells@)));
                assert(crate::json::json_values(values@).len() == cells@.len());
                if 0 <= i < cells@.len() {
                    assert(crate::json::json_values(values@)[i] == values@[i]@);
                    assert(sql_values(cells@)[i] == cells@[i]@);
                }
            }
        }
    }
}

/// A database is opened where and as it was said, and keeps that.
pub proof fn law_databases_as_values(
    path: String,
    vfs: String,
    settings: DbSettings,
    step: OpenStep,
)
    ensures
        call_ensures(SqliteDb::open, (path,), step) ==> step@ == crate::opening::opening_of(
            (DbView { path: path@, vfs: None, settings: DbSettings::unset() }),
        ),
        call_ensures(SqliteDb::open_with_vfs, (path, vfs), step) ==> step@
            == crate::opening::opening_of(
            (DbView { path: path@, vfs: Some(vfs@), settings: DbSettings::unset() }),
        ),
        call_ensures(SqliteDb::open_with, (path, None, settings), step) ==> step@
            == crate::opening::opening_of((DbView { path: path@, vfs: None, settings })),
        call_ensures(SqliteDb::open_with, (path, Some(vfs), settings), step) ==> step@
            == crate::opening::opening_of((DbView { path: path@, vfs: Some(vfs@), settings })),
{
}

/// A statement is run as given, within the limits of the database; by
/// [`SqliteDb::exec`] with object rows and without a checkpoint.
pub proof fn law_statements_as_values(
    db: SqliteDb,
    sql: String,
    params: Vec<Json>,
    rows_format: RowsFormat,
    mode: CheckpointMode,
    step: Step,
)
    ensures
        call_ensures(SqliteDb::exec_durable, (&db, sql, params, rows_format, mode), step) ==> step@
            == crate::execution::begun(
            sql@,
            crate::json::json_values(params@),
            (ExecOptions {
                rows_format,
                checkpoint_mode: mode,
                max_rows: db@.settings.max_rows,
                query_timeout_ms: db@.settings.query_timeout_ms,
            }),
        ),
        call_ensures(SqliteDb::exec, (&db, sql, params), step) ==> step@ == crate::execution::begun(
            sql@,
            crate::json::json_values(params@),
            (ExecOptions {
                rows_format: RowsFormat::Objects,
                checkpoint_mode: CheckpointMode::Off,
                max_rows: db@.settings.max_rows,
                query_timeout_ms: db@.settings.query_timeout_ms,
            }),
        ),
{
}

/// An error gives its failure, and its text is the whole chain of causes.
pub proof fn law_errors_as_values(error: ExecError, failure: Failure, line: String)
    ensures
        call_ensures(ExecError::into_failure, (error,), failure) ==> match error {
            ExecError::Sql(f) => failure@ == f@,
            ExecError::Checkpoint(f) => failure@ == f@,
            ExecError::Internal(f) => failure@ == f@,
        },
        call_ensures(ExecError::to_string, (&error,), line) ==> match error {
            ExecError::Sql(f) => line@ == crate::failure::chain_text(f@),
            ExecError::Checkpoint(f) => line@ == crate::failure::chain_text(f@),
            ExecError::Internal(f) => line@ == crate::failure::chain_text(f@),
        },
{
}

} // verus!
