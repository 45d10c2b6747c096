//! Runtime configuration: the environment variables that are read once at
//! start-up, and what they mean.
//!
//! A bad value never stops the service: it counts as if the variable were not
//! set, and [`rejected_knobs`] names it so that a warning can be logged.

use vstd::prelude::*;

use crate::logging::JsonEventFormatter;
use crate::text;

verus! {

/// Default level used when `LOG_LEVEL` and `RUST_LOG` are unset.
pub const DEFAULT_LOG_LEVEL: &'static str = "info";

/// Default AWS region if neither `AWS_REGION` nor `REGION` is set.
pub const DEFAULT_REGION: &'static str = "ap-northeast-1";

/// Default directory of the local page cache.
pub const DEFAULT_CACHE_DIR: &'static str = "/tmp/rustyhip-cache";

/// Default deployment environment when `ENVIRONMENT` is unset.
pub const DEFAULT_ENVIRONMENT: &'static str = "development";

/// Default log output format when `LOG_FORMAT` is unset.
pub const DEFAULT_LOG_FORMAT: &'static str = "json";

/// The `service` field of the structured logs.
pub const SERVICE_NAME: &'static str = "rustyhip";

/// AWS region, first choice.
pub const ENV_AWS_REGION: &'static str = "AWS_REGION";

/// AWS region, second choice.
pub const ENV_REGION: &'static str = "REGION";

/// Log filter, first choice.
pub const ENV_RUST_LOG: &'static str = "RUST_LOG";

/// Log level, where `RUST_LOG` does not give a filter.
pub const ENV_LOG_LEVEL: &'static str = "LOG_LEVEL";

/// The S3 bucket that holds the database.
pub const ENV_BUCKET: &'static str = "BUCKET";

/// The logical name of the database within the bucket.
pub const ENV_DB_NAME: &'static str = "DB_NAME";

/// The directory of the local page cache.
pub const ENV_CACHE_DIR: &'static str = "DB_CACHE_DIR";

/// The deployment environment label.
pub const ENV_ENVIRONMENT: &'static str = "ENVIRONMENT";

/// The log output format.
pub const ENV_LOG_FORMAT: &'static str = "LOG_FORMAT";

/// The bearer token that every request must present. Unset or empty: no
/// authentication.
pub const ENV_AUTH_TOKEN: &'static str = "RUSTYHIP_AUTH_TOKEN";

/// Override of the service endpoint.
pub const ENV_AWS_ENDPOINT_URL: &'static str = "AWS_ENDPOINT_URL";

/// Override of the S3 endpoint.
pub const ENV_AWS_ENDPOINT_URL_S3: &'static str = "AWS_ENDPOINT_URL_S3";

/// `PRAGMA synchronous`.
pub const ENV_SYNCHRONOUS: &'static str = "RUSTYHIP_SYNCHRONOUS";

/// `PRAGMA journal_mode`.
pub const ENV_JOURNAL_MODE: &'static str = "RUSTYHIP_JOURNAL_MODE";

/// `PRAGMA cache_size`, in KB.
pub const ENV_PAGE_CACHE_KB: &'static str = "RUSTYHIP_PAGE_CACHE_KB";

/// `PRAGMA mmap_size`, in bytes.
pub const ENV_MMAP_SIZE: &'static str = "RUSTYHIP_MMAP_SIZE";

/// `PRAGMA temp_store`.
pub const ENV_TEMP_STORE: &'static str = "RUSTYHIP_TEMP_STORE";

/// `PRAGMA busy_timeout`, in milliseconds.
pub const ENV_BUSY_TIMEOUT_MS: &'static str = "RUSTYHIP_BUSY_TIMEOUT_MS";

/// Cap on the rows of one result. `0` or unset: no cap.
pub const ENV_MAX_ROWS: &'static str = "RUSTYHIP_MAX_ROWS";

/// Time limit of one statement, in milliseconds. `0` or unset: no limit.
pub const ENV_QUERY_TIMEOUT_MS: &'static str = "RUSTYHIP_QUERY_TIMEOUT_MS";

/// Cap on the bytes of a request body. `0` or unset: no cap.
pub const ENV_MAX_BODY_BYTES: &'static str = "RUSTYHIP_MAX_BODY_BYTES";

/// The checkpoint mode after a write.
pub const ENV_CHECKPOINT_MODE: &'static str = "RUSTYHIP_CHECKPOINT_MODE";

// ---------------------------------------------------------------------------
// The environment
// ---------------------------------------------------------------------------

/// The environment variables whose names and values are valid Unicode.
#[derive(Debug)]
pub struct EnvVars {
    pub vars: Vec<(String, String)>,
}

impl View for EnvVars {
    type V = Seq<(Seq<char>, Seq<char>)>;

    open spec fn view(&self) -> Seq<(Seq<char>, Seq<char>)> {
        self.vars@.map_values(|v: (String, String)| (v.0@, v.1@))
    }
}

/// The value of the first variable called `name`.
pub open spec fn lookup(env: Seq<(Seq<char>, Seq<char>)>, name: Seq<char>) -> Option<Seq<char>>
    decreases env.len(),
{
    if env.len() == 0 {
        None
    } else if env[0].0 == name {
        Some(env[0].1)
    } else {
        lookup(env.drop_first(), name)
    }
}

/// The value of the variable `name`, or `default` where it is not set.
pub open spec fn lookup_or(
    env: Seq<(Seq<char>, Seq<char>)>,
    name: Seq<char>,
    default: Seq<char>,
) -> Seq<char> {
    match lookup(env, name) {
        Some(value) => value,
        None => default,
    }
}

/// What an optional string holds.
pub open spec fn optional_text(value: Option<String>) -> Option<Seq<char>> {
    match value {
        Some(s) => Some(s@),
        None => None,
    }
}

impl EnvVars {
    /// The value of the variable `name`.
    pub fn get(&self, name: &str) -> (value: Option<String>)
        ensures
            optional_text(value) == lookup(self@, name@),
    {
        assert(self@.skip(0) == self@);
        for i in 0..self.vars.len()
            invariant
                lookup(self@, name@) == lookup(self@.skip(i as int), name@),
        {
            assert(self@.skip(i as int)[0] == self@[i as int]);
            assert(self@.skip(i as int).drop_first() == self@.skip(i + 1));
            if text::same(self.vars[i].0.as_str(), name) {
                return Some(self.vars[i].1.clone());
            }
        }
        None
    }

    /// The value of the variable `name`, or `default` where it is not set.
    pub fn get_or(&self, name: &str, default: &str) -> (value: String)
        ensures
            value@ == lookup_or(self@, name@, default@),
    {
        match self.get(name) {
            Some(value) => value,
            None => default.to_owned(),
        }
    }
}

/// AWS region: `AWS_REGION`, then `REGION`, then [`DEFAULT_REGION`].
pub fn region(env: &EnvVars) -> (name: String)
    ensures
        name@ == lookup_or(
            env@,
            ENV_AWS_REGION@,
            lookup_or(env@, ENV_REGION@, DEFAULT_REGION@),
        ),
{
    match env.get(ENV_AWS_REGION) {
        Some(name) => name,
        None => env.get_or(ENV_REGION, DEFAULT_REGION),
    }
}

/// The error for a variable that must be set and is not.
pub open spec fn not_set(name: Seq<char>) -> Seq<char> {
    name + " env var not set"@
}

/// The value of a variable that must be set.
fn required(env: &EnvVars, name: &str) -> (value: Result<String, String>)
    ensures
        match value {
            Ok(v) => lookup(env@, name@) == Some(v@),
            Err(e) => lookup(env@, name@) is None && e@ == not_set(name@),
        },
{
    match env.get(name) {
        Some(value) => Ok(value),
        None => {
            let mut message = name.to_owned();
            message.append(" env var not set");
            Err(message)
        },
    }
}

/// S3 bucket that holds the database. Required.
pub fn bucket(env: &EnvVars) -> (name: Result<String, String>)
    ensures
        match name {
            Ok(v) => lookup(env@, ENV_BUCKET@) == Some(v@),
            Err(e) => lookup(env@, ENV_BUCKET@) is None && e@ == not_set(ENV_BUCKET@),
        },
{
    required(env, ENV_BUCKET)
}

/// The logical database name within the bucket. Required.
pub fn db_name(env: &EnvVars) -> (name: Result<String, String>)
    ensures
        match name {
            Ok(v) => lookup(env@, ENV_DB_NAME@) == Some(v@),
            Err(e) => lookup(env@, ENV_DB_NAME@) is None && e@ == not_set(ENV_DB_NAME@),
        },
{
    required(env, ENV_DB_NAME)
}

/// Directory of the local page cache.
pub fn cache_dir(env: &EnvVars) -> (path: String)
    ensures
        path@ == lookup_or(env@, ENV_CACHE_DIR@, DEFAULT_CACHE_DIR@),
{
    env.get_or(ENV_CACHE_DIR, DEFAULT_CACHE_DIR)
}

/// Deployment environment label attached to every log event.
pub fn environment(env: &EnvVars) -> (label: String)
    ensures
        label@ == lookup_or(env@, ENV_ENVIRONMENT@, DEFAULT_ENVIRONMENT@),
{
    env.get_or(ENV_ENVIRONMENT, DEFAULT_ENVIRONMENT)
}

/// Log output format: `json` or `pretty`.
pub fn log_format(env: &EnvVars) -> (format: String)
    ensures
        format@ == lookup_or(env@, ENV_LOG_FORMAT@, DEFAULT_LOG_FORMAT@),
{
    env.get_or(ENV_LOG_FORMAT, DEFAULT_LOG_FORMAT)
}

/// The log level where `RUST_LOG` gives no filter.
pub fn log_level(env: &EnvVars) -> (level: String)
    ensures
        level@ == lookup_or(env@, ENV_LOG_LEVEL@, DEFAULT_LOG_LEVEL@),
{
    env.get_or(ENV_LOG_LEVEL, DEFAULT_LOG_LEVEL)
}

/// The log filter: `RUST_LOG` where it is set and a filter, else the log level
/// where that is one, else [`DEFAULT_LOG_LEVEL`].
pub open spec fn chosen_filter(
    rust_log: Option<Seq<char>>,
    rust_log_valid: bool,
    level: Seq<char>,
    level_valid: bool,
) -> Seq<char> {
    match rust_log {
        Some(filter) if rust_log_valid => filter,
        _ => if level_valid {
            level
        } else {
            DEFAULT_LOG_LEVEL@
        },
    }
}

/// The log filter to use, given the value of `RUST_LOG`, the log level, and
/// whether each of them can be read as a filter.
pub fn log_filter(
    rust_log: Option<String>,
    rust_log_valid: bool,
    level: String,
    level_valid: bool,
) -> (filter: String)
    ensures
        filter@ == chosen_filter(optional_text(rust_log), rust_log_valid, level@, level_valid),
{
    if rust_log_valid {
        if let Some(filter) = rust_log {
            return filter;
        }
    }
    if level_valid {
        level
    } else {
        DEFAULT_LOG_LEVEL.to_owned()
    }
}

/// The texts between the commas of `s`.
pub open spec fn pieces(s: Seq<char>) -> Seq<Seq<char>>
    decreases s.len(),
{
    if s.len() == 0 {
        seq![Seq::empty()]
    } else {
        let earlier = pieces(s.drop_last());
        if s.last() == ',' {
            earlier.push(Seq::empty())
        } else {
            earlier.drop_last().push(earlier.last().push(s.last()))
        }
    }
}

/// Whether the character is outside ASCII.
pub open spec fn beyond_ascii(c: char) -> bool {
    c as u32 > 127
}

/// Whether the character begins a level, or a span, of a filter directive.
pub open spec fn is_mark(c: char) -> bool {
    c == '=' || c == '['
}

/// Whether the directive begins with white space.
pub open spec fn is_indented(directive: Seq<char>) -> bool {
    directive.len() > 0 && text::white(directive[0])
}

/// Whether the directive has a character outside ASCII.
pub open spec fn has_foreign(directive: Seq<char>) -> bool {
    exists|i: int| 0 <= i < directive.len() && beyond_ascii(#[trigger] directive[i])
}

/// Whether the directive has a level or a span.
pub open spec fn has_mark(directive: Seq<char>) -> bool {
    exists|i: int| 0 <= i < directive.len() && is_mark(#[trigger] directive[i])
}

/// Whether the parser takes parts of the directive from the wrong places: it
/// counts the bytes without the white space before the directive and cuts with
/// that white space, which may fall inside a character.
pub open spec fn misplaced(directive: Seq<char>) -> bool {
    is_indented(directive) && has_foreign(directive) && has_mark(directive)
}

/// Whether none of the directives is misplaced.
pub open spec fn well_placed(directives: Seq<Seq<char>>) -> bool {
    forall|i: int| 0 <= i < directives.len() ==> !misplaced(#[trigger] directives[i])
}

/// Whether the parser for filters can be given the text.
pub open spec fn filter_can_be_read(s: Seq<char>) -> bool {
    well_placed(pieces(s))
}

/// Whether `tracing_subscriber` reads the text as a filter.
pub uninterp spec fn reads_as_filter(s: Seq<char>) -> bool;

/// `tracing_subscriber::EnvFilter::try_new`: whether it accepts the text. It
/// panics on some texts that [`filter_can_be_read`] leaves out. Which texts it
/// accepts is not stated, nor what it costs to compile the patterns in them.
#[verifier::external_body]
fn filter_reads(s: &str) -> (yes: bool)
    requires
        filter_can_be_read(s@),
    ensures
        yes == reads_as_filter(s@),
{
    tracing_subscriber::EnvFilter::try_new(s).is_ok()
}

/// Whether the text is a filter.
pub open spec fn is_filter(s: Seq<char>) -> bool {
    filter_can_be_read(s) && reads_as_filter(s)
}

/// What one more character does to a directive.
proof fn lemma_longer_directive(d: Seq<char>, c: char)
    ensures
        is_indented(d.push(c)) == if d.len() == 0 {
            text::white(c)
        } else {
            is_indented(d)
        },
        has_foreign(d.push(c)) == (has_foreign(d) || beyond_ascii(c)),
        has_mark(d.push(c)) == (has_mark(d) || is_mark(c)),
{
    let longer = d.push(c);
    assert(longer[d.len() as int] == c);
    if has_foreign(d) {
        let i = choose|i: int| 0 <= i < d.len() && beyond_ascii(#[trigger] d[i]);
        assert(beyond_ascii(longer[i]));
    }
    if has_mark(d) {
        let i = choose|i: int| 0 <= i < d.len() && is_mark(#[trigger] d[i]);
        assert(is_mark(longer[i]));
    }
    if has_foreign(longer) && !beyond_ascii(c) {
        let i = choose|i: int| 0 <= i < longer.len() && beyond_ascii(#[trigger] longer[i]);
        assert(beyond_ascii(d[i]));
    }
    if has_mark(longer) && !is_mark(c) {
        let i = choose|i: int| 0 <= i < longer.len() && is_mark(#[trigger] longer[i]);
        assert(is_mark(d[i]));
    }
}

/// What the last directive adds.
proof fn lemma_last_directive(directives: Seq<Seq<char>>)
    requires
        directives.len() > 0,
    ensures
        well_placed(directives) == (well_placed(directives.drop_last()) && !misplaced(
            directives.last(),
        )),
{
    let earlier = directives.drop_last();
    if well_placed(directives) {
        assert forall|i: int| 0 <= i < earlier.len() implies !misplaced(#[trigger] earlier[i]) by {
            assert(earlier[i] == directives[i]);
        }
        assert(!misplaced(directives[directives.len() - 1]));
    }
    if well_placed(earlier) && !misplaced(directives.last()) {
        assert forall|i: int| 0 <= i < directives.len() implies !misplaced(
            #[trigger] directives[i],
        ) by {
            if i < earlier.len() {
                assert(earlier[i] == directives[i]);
            }
        }
    }
}

/// Whether the parser for filters can be given the text.
fn can_be_read(s: &str) -> (yes: bool)
    ensures
        yes == filter_can_be_read(s@),
{
    let chars = text::chars_of(s);
    // The directive that is being looked at, and those before it.
    let mut empty = true;
    let mut indented = false;
    let mut foreign = false;
    let mut marked = false;
    let mut earlier_fine = true;
    assert(pieces(chars@.take(0)) =~= seq![Seq::<char>::empty()]);
    for i in 0..chars.len()
        invariant
            pieces(chars@.take(i as int)).len() > 0,
            empty == (pieces(chars@.take(i as int)).last().len() == 0),
            indented == is_indented(pieces(chars@.take(i as int)).last()),
            foreign == has_foreign(pieces(chars@.take(i as int)).last()),
            marked == has_mark(pieces(chars@.take(i as int)).last()),
            earlier_fine == well_placed(pieces(chars@.take(i as int)).drop_last()),
    {
        let c: char = chars[i];
        let ghost before = pieces(chars@.take(i as int));
        let ghost after = pieces(chars@.take(i + 1));
        assert(chars@.take(i + 1).drop_last() =~= chars@.take(i as int));
        assert(chars@.take(i + 1).last() == c);
        if c == ',' {
            proof {
                lemma_last_directive(before);
                assert(after.drop_last() =~= before);
            }
            earlier_fine = earlier_fine && !(indented && foreign && marked);
            empty = true;
            indented = false;
            foreign = false;
            marked = false;
        } else {
            proof {
                lemma_longer_directive(before.last(), c);
                assert(after.drop_last() =~= before.drop_last());
            }
            if empty {
                indented = text::is_white(c);
                empty = false;
            }
            foreign = foreign || c as u32 > 127;
            marked = marked || c == '=' || c == '[';
        }
    }
    proof {
        assert(chars@.take(chars@.len() as int) =~= s@);
        lemma_last_directive(pieces(s@));
    }
    earlier_fine && !(indented && foreign && marked)
}

/// Whether the text is a filter.
fn test_filter(s: &str) -> (yes: bool)
    ensures
        yes == is_filter(s@),
{
    can_be_read(s) && filter_reads(s)
}

/// The log filter in an environment.
pub open spec fn filter_of(env: Seq<(Seq<char>, Seq<char>)>) -> Seq<char> {
    let rust_log = lookup(env, ENV_RUST_LOG@);
    let level = lookup_or(env, ENV_LOG_LEVEL@, DEFAULT_LOG_LEVEL@);
    chosen_filter(
        rust_log,
        rust_log matches Some(text) && is_filter(text),
        level,
        is_filter(level),
    )
}

/// The log filter: `RUST_LOG`, then `LOG_LEVEL`, then [`DEFAULT_LOG_LEVEL`]; the
/// first that is set and a filter.
pub fn filter_in(env: &EnvVars) -> (filter: String)
    ensures
        filter@ == filter_of(env@),
{
    let rust_log = env.get(ENV_RUST_LOG);
    let rust_log_valid = match &rust_log {
        Some(text) => test_filter(text.as_str()),
        None => false,
    };
    let level = log_level(env);
    let level_valid = test_filter(level.as_str());
    log_filter(rust_log, rust_log_valid, level, level_valid)
}

/// Whether the log format is one of those meant for a human reader, in any
/// letter case; every other format means structured JSON.
pub open spec fn human_format(format: Seq<char>) -> bool {
    let lower = text::ascii_lower(format);
    lower == "pretty"@ || lower == "text"@ || lower == "human"@
}

/// Whether the log output is meant for a human reader.
pub fn is_human_format(format: &str) -> (human: bool)
    ensures
        human == human_format(format@),
{
    let lower = text::to_lower(format);
    text::same(lower.as_str(), "pretty") || text::same(lower.as_str(), "text") || text::same(
        lower.as_str(),
        "human",
    )
}

/// How log events are written.
#[derive(Debug)]
pub enum LogOutput {
    /// For a human reader.
    Text,
    /// As structured JSON.
    Json(JsonEventFormatter),
}

/// What is logged, and how.
#[derive(Debug)]
pub struct LogSetup {
    pub filter: String,
    pub output: LogOutput,
}

/// What a [`LogOutput`] stands for.
pub ghost enum LogOutputView {
    Text,
    Json(crate::logging::SourceView),
}

impl View for LogOutput {
    type V = LogOutputView;

    open spec fn view(&self) -> LogOutputView {
        match self {
            LogOutput::Text => LogOutputView::Text,
            LogOutput::Json(formatter) => LogOutputView::Json(formatter@),
        }
    }
}

/// What a [`LogSetup`] stands for.
pub ghost struct LogSetupView {
    pub filter: Seq<char>,
    pub output: LogOutputView,
}

impl View for LogSetup {
    type V = LogSetupView;

    open spec fn view(&self) -> LogSetupView {
        LogSetupView { filter: self.filter@, output: self.output@ }
    }
}

/// The logging that an environment asks for.
pub open spec fn log_setup(env: Seq<(Seq<char>, Seq<char>)>) -> LogSetupView {
    LogSetupView {
        filter: filter_of(env),
        output: if human_format(lookup_or(env, ENV_LOG_FORMAT@, DEFAULT_LOG_FORMAT@)) {
            LogOutputView::Text
        } else {
            LogOutputView::Json(
                crate::logging::SourceView {
                    service: SERVICE_NAME@,
                    environment: lookup_or(env, ENV_ENVIRONMENT@, DEFAULT_ENVIRONMENT@),
                },
            )
        },
    }
}

/// The logging to start: the one that the environment asks for, or none where
/// logging was `started` before.
pub fn init_logging(started: bool, env: &EnvVars) -> (setup: Option<LogSetup>)
    ensures
        match setup {
            Some(s) => !started && s@ == log_setup(env@),
            None => started,
        },
{
    if started {
        return None;
    }
    let format = log_format(env);
    let output = if is_human_format(format.as_str()) {
        LogOutput::Text
    } else {
        LogOutput::Json(JsonEventFormatter::new(SERVICE_NAME.to_owned(), environment(env)))
    };
    Some(LogSetup { filter: filter_in(env), output })
}

/// The custom S3 endpoint: `AWS_ENDPOINT_URL`, then `AWS_ENDPOINT_URL_S3`.
pub open spec fn endpoint_in(env: Seq<(Seq<char>, Seq<char>)>) -> Option<Seq<char>> {
    match lookup(env, ENV_AWS_ENDPOINT_URL@) {
        Some(url) => Some(url),
        None => lookup(env, ENV_AWS_ENDPOINT_URL_S3@),
    }
}

/// The custom S3 endpoint, where one is configured.
pub fn endpoint_url(env: &EnvVars) -> (url: Option<String>)
    ensures
        optional_text(url) == endpoint_in(env@),
{
    match env.get(ENV_AWS_ENDPOINT_URL) {
        Some(url) => Some(url),
        None => env.get(ENV_AWS_ENDPOINT_URL_S3),
    }
}

/// Whether a custom S3 endpoint is configured. Such services need path-style
/// addressing.
pub fn use_path_style_s3(env: &EnvVars) -> (yes: bool)
    ensures
        yes == (endpoint_in(env@) is Some),
{
    env.get(ENV_AWS_ENDPOINT_URL).is_some() || env.get(ENV_AWS_ENDPOINT_URL_S3).is_some()
}

/// The value of `name` where it is set and not empty.
pub open spec fn lookup_nonempty(
    env: Seq<(Seq<char>, Seq<char>)>,
    name: Seq<char>,
) -> Option<Seq<char>> {
    match lookup(env, name) {
        Some(value) => if value.len() > 0 {
            Some(value)
        } else {
            None
        },
        None => None,
    }
}

/// The value of `name` where it is set and not empty.
fn get_nonempty(env: &EnvVars, name: &str) -> (value: Option<String>)
    ensures
        optional_text(value) == lookup_nonempty(env@, name@),
{
    match env.get(name) {
        Some(value) => if value.as_str().is_empty() {
            None
        } else {
            Some(value)
        },
        None => None,
    }
}

/// Bearer token that every request must present. `None` where the variable is
/// unset or empty: then there is no authentication.
pub fn auth_token(env: &EnvVars) -> (token: Option<String>)
    ensures
        optional_text(token) == lookup_nonempty(env@, ENV_AUTH_TOKEN@),
{
    get_nonempty(env, ENV_AUTH_TOKEN)
}

// ---------------------------------------------------------------------------
// The settings with a fixed set of values
// ---------------------------------------------------------------------------

/// `PRAGMA synchronous` setting.
#[derive(Debug, Clone, Copy, PartialEq, Eq, Structural)]
pub enum Synchronous {
    Off,
    Normal,
    Full,
    Extra,
}

impl Synchronous {
    /// The word for the setting in a `PRAGMA` statement.
    pub open spec fn word(self) -> Seq<char> {
        match self {
            Synchronous::Off => "OFF"@,
            Synchronous::Normal => "NORMAL"@,
            Synchronous::Full => "FULL"@,
            Synchronous::Extra => "EXTRA"@,
        }
    }

    /// The word for the setting in a `PRAGMA` statement.
    pub fn as_pragma(self) -> (word: &'static str)
        ensures
            word@ == self.word(),
    {
        match self {
            Synchronous::Off => "OFF",
            Synchronous::Normal => "NORMAL",
            Synchronous::Full => "FULL",
            Synchronous::Extra => "EXTRA",
        }
    }
}

/// `PRAGMA journal_mode` setting.
#[derive(Debug, Clone, Copy, PartialEq, Eq, Structural)]
pub enum JournalMode {
    Delete,
    Truncate,
    Persist,
    Memory,
    Wal,
    Off,
}

impl JournalMode {
    /// The word for the setting in a `PRAGMA` statement.
    pub open spec fn word(self) -> Seq<char> {
        match self {
            JournalMode::Delete => "DELETE"@,
            JournalMode::Truncate => "TRUNCATE"@,
            JournalMode::Persist => "PERSIST"@,
            JournalMode::Memory => "MEMORY"@,
            JournalMode::Wal => "WAL"@,
            JournalMode::Off => "OFF"@,
        }
    }

    /// The word for the setting in a `PRAGMA` statement.
    pub fn as_pragma(self) -> (word: &'static str)
        ensures
            word@ == self.word(),
    {
        match self {
            JournalMode::Delete => "DELETE",
            JournalMode::Truncate => "TRUNCATE",
            JournalMode::Persist => "PERSIST",
            JournalMode::Memory => "MEMORY",
            JournalMode::Wal => "WAL",
            JournalMode::Off => "OFF",
        }
    }
}

/// `PRAGMA temp_store` setting.
#[derive(Debug, Clone, Copy, PartialEq, Eq, Structural)]
pub enum TempStore {
    Default,
    File,
    Memory,
}

impl TempStore {
    /// The word for the setting in a `PRAGMA` statement.
    pub open spec fn word(self) -> Seq<char> {
        match self {
            TempStore::Default => "DEFAULT"@,
            TempStore::File => "FILE"@,
            TempStore::Memory => "MEMORY"@,
        }
    }

    /// The word for the setting in a `PRAGMA` statement.
    pub fn as_pragma(self) -> (word: &'static str)
        ensures
            word@ == self.word(),
    {
        match self {
            TempStore::Default => "DEFAULT",
            TempStore::File => "FILE",
            TempStore::Memory => "MEMORY",
        }
    }
}

/// Checkpoint mode after a write. `Truncate` is the only one under which a
/// write is durable when a Lambda container goes away.
#[derive(Debug, Clone, Copy, PartialEq, Eq, Structural)]
pub enum CheckpointMode {
    Truncate,
    Restart,
    Full,
    Passive,
    Off,
}

impl Default for CheckpointMode {
    fn default() -> (mode: Self)
        ensures
            mode == CheckpointMode::Truncate,
    {
        CheckpointMode::Truncate
    }
}

impl CheckpointMode {
    /// The argument of `PRAGMA wal_checkpoint`; there is none where no
    /// checkpoint is wanted.
    pub open spec fn argument(self) -> Option<Seq<char>> {
        match self {
            CheckpointMode::Truncate => Some("TRUNCATE"@),
            CheckpointMode::Restart => Some("RESTART"@),
            CheckpointMode::Full => Some("FULL"@),
            CheckpointMode::Passive => Some("PASSIVE"@),
            CheckpointMode::Off => None,
        }
    }

    /// The argument of `PRAGMA wal_checkpoint`, or `None` where the checkpoint
    /// is to be skipped.
    pub fn as_pragma_arg(self) -> (argument: Option<&'static str>)
        ensures
            match argument {
                Some(word) => self.argument() == Some(word@),
                None => self.argument() is None,
            },
    {
        match self {
            CheckpointMode::Truncate => Some("TRUNCATE"),
            CheckpointMode::Restart => Some("RESTART"),
            CheckpointMode::Full => Some("FULL"),
            CheckpointMode::Passive => Some("PASSIVE"),
            CheckpointMode::Off => None,
        }
    }
}

/// The setting that the lower-case word `lower` names.
pub open spec fn synchronous_named(lower: Seq<char>) -> Option<Synchronous> {
    if lower == "off"@ || lower == "0"@ {
        Some(Synchronous::Off)
    } else if lower == "normal"@ || lower == "1"@ {
        Some(Synchronous::Normal)
    } else if lower == "full"@ || lower == "2"@ {
        Some(Synchronous::Full)
    } else if lower == "extra"@ || lower == "3"@ {
        Some(Synchronous::Extra)
    } else {
        None
    }
}

/// The setting that the lower-case word `lower` names.
pub open spec fn journal_mode_named(lower: Seq<char>) -> Option<JournalMode> {
    if lower == "delete"@ {
        Some(JournalMode::Delete)
    } else if lower == "truncate"@ {
        Some(JournalMode::Truncate)
    } else if lower == "persist"@ {
        Some(JournalMode::Persist)
    } else if lower == "memory"@ {
        Some(JournalMode::Memory)
    } else if lower == "wal"@ {
        Some(JournalMode::Wal)
    } else if lower == "off"@ {
        Some(JournalMode::Off)
    } else {
        None
    }
}

/// The setting that the lower-case word `lower` names.
pub open spec fn temp_store_named(lower: Seq<char>) -> Option<TempStore> {
    if lower == "default"@ || lower == "0"@ {
        Some(TempStore::Default)
    } else if lower == "file"@ || lower == "1"@ {
        Some(TempStore::File)
    } else if lower == "memory"@ || lower == "2"@ || lower == "mem"@ {
        Some(TempStore::Memory)
    } else {
        None
    }
}

/// The setting that the lower-case word `lower` names.
pub open spec fn checkpoint_mode_named(lower: Seq<char>) -> Option<CheckpointMode> {
    if lower == "truncate"@ {
        Some(CheckpointMode::Truncate)
    } else if lower == "restart"@ {
        Some(CheckpointMode::Restart)
    } else if lower == "full"@ {
        Some(CheckpointMode::Full)
    } else if lower == "passive"@ {
        Some(CheckpointMode::Passive)
    } else if lower == "off"@ || lower == "skip"@ || lower == "none"@ {
        Some(CheckpointMode::Off)
    } else {
        None
    }
}

/// The error for a word that names no setting of the kind `what`.
pub open spec fn unknown_word(what: Seq<char>, lower: Seq<char>) -> Seq<char> {
    "unknown "@ + what + " '"@ + lower + "'"@
}

/// The error for a word that names no setting of the kind `what`.
fn unknown(what: &str, lower: &str) -> (message: String)
    ensures
        message@ == unknown_word(what@, lower@),
{
    let mut message = "unknown ".to_owned();
    message.append(what);
    message.append(" '");
    message.append(lower);
    message.append("'");
    message
}

/// The `synchronous` setting that `s` names, in any letter case.
pub fn parse_synchronous(s: &str) -> (parsed: Result<Synchronous, String>)
    ensures
        match synchronous_named(text::ascii_lower(s@)) {
            Some(value) => parsed matches Ok(v) && v == value,
            None => parsed matches Err(e) && e@ == unknown_word(
                "synchronous mode"@,
                text::ascii_lower(s@),
            ),
        },
{
    let lower = text::to_lower(s);
    let l = lower.as_str();
    if text::same(l, "off") || text::same(l, "0") {
        Ok(Synchronous::Off)
    } else if text::same(l, "normal") || text::same(l, "1") {
        Ok(Synchronous::Normal)
    } else if text::same(l, "full") || text::same(l, "2") {
        Ok(Synchronous::Full)
    } else if text::same(l, "extra") || text::same(l, "3") {
        Ok(Synchronous::Extra)
    } else {
        Err(unknown("synchronous mode", l))
    }
}

/// The `journal_mode` setting that `s` names, in any letter case.
pub fn parse_journal_mode(s: &str) -> (parsed: Result<JournalMode, String>)
    ensures
        match journal_mode_named(text::ascii_lower(s@)) {
            Some(value) => parsed matches Ok(v) && v == value,
            None => parsed matches Err(e) && e@ == unknown_word(
                "journal mode"@,
                text::ascii_lower(s@),
            ),
        },
{
    let lower = text::to_lower(s);
    let l = lower.as_str();
    if text::same(l, "delete") {
        Ok(JournalMode::Delete)
    } else if text::same(l, "truncate") {
        Ok(JournalMode::Truncate)
    } else if text::same(l, "persist") {
        Ok(JournalMode::Persist)
    } else if text::same(l, "memory") {
        Ok(JournalMode::Memory)
    } else if text::same(l, "wal") {
        Ok(JournalMode::Wal)
    } else if text::same(l, "off") {
        Ok(JournalMode::Off)
    } else {
        Err(unknown("journal mode", l))
    }
}

/// The `temp_store` setting that `s` names, in any letter case.
pub fn parse_temp_store(s: &str) -> (parsed: Result<TempStore, String>)
    ensures
        match temp_store_named(text::ascii_lower(s@)) {
            Some(value) => parsed matches Ok(v) && v == value,
            None => parsed matches Err(e) && e@ == unknown_word(
                "temp_store"@,
                text::ascii_lower(s@),
            ),
        },
{
    let lower = text::to_lower(s);
    let l = lower.as_str();
    if text::same(l, "default") || text::same(l, "0") {
        Ok(TempStore::Default)
    } else if text::same(l, "file") || text::same(l, "1") {
        Ok(TempStore::File)
    } else if text::same(l, "memory") || text::same(l, "2") || text::same(l, "mem") {
        Ok(TempStore::Memory)
    } else {
        Err(unknown("temp_store", l))
    }
}

/// The checkpoint mode that `s` names, in any letter case.
pub fn parse_checkpoint_mode(s: &str) -> (parsed: Result<CheckpointMode, String>)
    ensures
        match checkpoint_mode_named(text::ascii_lower(s@)) {
            Some(value) => parsed matches Ok(v) && v == value,
            None => parsed matches Err(e) && e@ == unknown_word(
                "checkpoint mode"@,
                text::ascii_lower(s@),
            ),
        },
{
    let lower = text::to_lower(s);
    let l = lower.as_str();
    if text::same(l, "truncate") {
        Ok(CheckpointMode::Truncate)
    } else if text::same(l, "restart") {
        Ok(CheckpointMode::Restart)
    } else if text::same(l, "full") {
        Ok(CheckpointMode::Full)
    } else if text::same(l, "passive") {
        Ok(CheckpointMode::Passive)
    } else if text::same(l, "off") || text::same(l, "skip") || text::same(l, "none") {
        Ok(CheckpointMode::Off)
    } else {
        Err(unknown("checkpoint mode", l))
    }
}

// ---------------------------------------------------------------------------
// The knobs
// ---------------------------------------------------------------------------

/// The knobs that are read once at start-up. `None`: the default of SQLite or
/// of the request handling applies.
#[derive(Debug, Clone, Copy)]
pub struct ConfigKnobs {
    pub synchronous: Option<Synchronous>,
    pub journal_mode: Option<JournalMode>,
    pub page_cache_kb: Option<i64>,
    pub mmap_size: Option<i64>,
    pub temp_store: Option<TempStore>,
    pub busy_timeout_ms: Option<u32>,
    pub max_rows: Option<usize>,
    pub query_timeout_ms: Option<u64>,
    pub max_body_bytes: Option<usize>,
    pub checkpoint_mode: CheckpointMode,
}

impl ConfigKnobs {
    /// No knob set: the defaults apply, with the checkpoint mode that makes
    /// writes durable.
    pub open spec fn unset() -> ConfigKnobs {
        ConfigKnobs {
            synchronous: None,
            journal_mode: None,
            page_cache_kb: None,
            mmap_size: None,
            temp_store: None,
            busy_timeout_ms: None,
            max_rows: None,
            query_timeout_ms: None,
            max_body_bytes: None,
            checkpoint_mode: CheckpointMode::Truncate,
        }
    }
}

impl Default for ConfigKnobs {
    fn default() -> (knobs: Self)
        ensures
            knobs == ConfigKnobs::unset(),
    {
        ConfigKnobs {
            synchronous: None,
            journal_mode: None,
            page_cache_kb: None,
            mmap_size: None,
            temp_store: None,
            busy_timeout_ms: None,
            max_rows: None,
            query_timeout_ms: None,
            max_body_bytes: None,
            checkpoint_mode: CheckpointMode::Truncate,
        }
    }
}

/// The text of the knob `name`: the value of its variable without the white
/// space round it, where the variable is set and not empty.
pub open spec fn knob(env: Seq<(Seq<char>, Seq<char>)>, name: Seq<char>) -> Option<Seq<char>> {
    match lookup_nonempty(env, name) {
        Some(value) => Some(text::trimmed(value)),
        None => None,
    }
}

/// The integer that `s` writes, where it fits an `i64`.
pub open spec fn i64_in(s: Seq<char>) -> Option<i64> {
    match text::parsed_integer(s) {
        Some(n) => if i64::MIN <= n <= i64::MAX {
            Some(n as i64)
        } else {
            None
        },
        None => None,
    }
}

/// The natural number that `s` writes, where it is at most `limit`.
pub open spec fn natural_in(s: Seq<char>, limit: u64) -> Option<u64> {
    match text::parsed_natural(s) {
        Some(n) => if n <= limit {
            Some(n as u64)
        } else {
            None
        },
        None => None,
    }
}

/// The `synchronous` setting of the environment.
pub open spec fn synchronous_in(env: Seq<(Seq<char>, Seq<char>)>) -> Option<Synchronous> {
    match knob(env, ENV_SYNCHRONOUS@) {
        Some(s) => synchronous_named(text::ascii_lower(s)),
        None => None,
    }
}

/// The `journal_mode` setting of the environment.
pub open spec fn journal_mode_in(env: Seq<(Seq<char>, Seq<char>)>) -> Option<JournalMode> {
    match knob(env, ENV_JOURNAL_MODE@) {
        Some(s) => journal_mode_named(text::ascii_lower(s)),
        None => None,
    }
}

/// The `temp_store` setting of the environment.
pub open spec fn temp_store_in(env: Seq<(Seq<char>, Seq<char>)>) -> Option<TempStore> {
    match knob(env, ENV_TEMP_STORE@) {
        Some(s) => temp_store_named(text::ascii_lower(s)),
        None => None,
    }
}

/// The checkpoint mode that the environment names.
pub open spec fn checkpoint_mode_in(env: Seq<(Seq<char>, Seq<char>)>) -> Option<CheckpointMode> {
    match knob(env, ENV_CHECKPOINT_MODE@) {
        Some(s) => checkpoint_mode_named(text::ascii_lower(s)),
        None => None,
    }
}

/// The integer that the knob `name` sets.
pub open spec fn integer_knob(env: Seq<(Seq<char>, Seq<char>)>, name: Seq<char>) -> Option<i64> {
    match knob(env, name) {
        Some(s) => i64_in(s),
        None => None,
    }
}

/// The natural number, at most `limit`, that the knob `name` sets.
pub open spec fn natural_knob(
    env: Seq<(Seq<char>, Seq<char>)>,
    name: Seq<char>,
    limit: u64,
) -> Option<u64> {
    match knob(env, name) {
        Some(s) => natural_in(s, limit),
        None => None,
    }
}

/// A limit of zero means no limit.
pub open spec fn unless_zero(n: Option<u64>) -> Option<u64> {
    if n == Some(0u64) {
        None
    } else {
        n
    }
}

/// The same number as a `usize`.
pub open spec fn as_size(n: Option<u64>) -> Option<usize> {
    match n {
        Some(v) => Some(v as usize),
        None => None,
    }
}

/// The knobs that the environment sets.
pub open spec fn configured(env: Seq<(Seq<char>, Seq<char>)>) -> ConfigKnobs {
    ConfigKnobs {
        synchronous: synchronous_in(env),
        journal_mode: journal_mode_in(env),
        page_cache_kb: integer_knob(env, ENV_PAGE_CACHE_KB@),
        mmap_size: integer_knob(env, ENV_MMAP_SIZE@),
        temp_store: temp_store_in(env),
        busy_timeout_ms: match natural_knob(env, ENV_BUSY_TIMEOUT_MS@, u32::MAX as u64) {
            Some(n) => Some(n as u32),
            None => None,
        },
        max_rows: as_size(unless_zero(natural_knob(env, ENV_MAX_ROWS@, usize::MAX as u64))),
        query_timeout_ms: unless_zero(natural_knob(env, ENV_QUERY_TIMEOUT_MS@, u64::MAX)),
        max_body_bytes: as_size(
            unless_zero(natural_knob(env, ENV_MAX_BODY_BYTES@, usize::MAX as u64)),
        ),
        checkpoint_mode: match checkpoint_mode_in(env) {
            Some(mode) => mode,
            None => CheckpointMode::Truncate,
        },
    }
}

/// The text of the knob `name`.
fn knob_text(env: &EnvVars, name: &str) -> (value: Option<String>)
    ensures
        optional_text(value) == knob(env@, name@),
{
    match get_nonempty(env, name) {
        Some(value) => Some(text::trim(value.as_str())),
        None => None,
    }
}

fn synchronous_knob(env: &EnvVars) -> (value: Option<Synchronous>)
    ensures
        value == synchronous_in(env@),
{
    match knob_text(env, ENV_SYNCHRONOUS) {
        Some(s) => match parse_synchronous(s.as_str()) {
            Ok(value) => Some(value),
            Err(_) => None,
        },
        None => None,
    }
}

fn journal_mode_knob(env: &EnvVars) -> (value: Option<JournalMode>)
    ensures
        value == journal_mode_in(env@),
{
    match knob_text(env, ENV_JOURNAL_MODE) {
        Some(s) => match parse_journal_mode(s.as_str()) {
            Ok(value) => Some(value),
            Err(_) => None,
        },
        None => None,
    }
}

fn temp_store_knob(env: &EnvVars) -> (value: Option<TempStore>)
    ensures
        value == temp_store_in(env@),
{
    match knob_text(env, ENV_TEMP_STORE) {
        Some(s) => match parse_temp_store(s.as_str()) {
            Ok(value) => Some(value),
            Err(_) => None,
        },
        None => None,
    }
}

fn checkpoint_mode_knob(env: &EnvVars) -> (value: Option<CheckpointMode>)
    ensures
        value == checkpoint_mode_in(env@),
{
    match knob_text(env, ENV_CHECKPOINT_MODE) {
        Some(s) => match parse_checkpoint_mode(s.as_str()) {
            Ok(value) => Some(value),
            Err(_) => None,
        },
        None => None,
    }
}

fn parse_integer_knob(env: &EnvVars, name: &str) -> (value: Option<i64>)
    ensures
        value == integer_knob(env@, name@),
{
    match knob_text(env, name) {
        Some(s) => text::parse_i64(s.as_str()),
        None => None,
    }
}

fn parse_natural_knob(env: &EnvVars, name: &str, limit: u64) -> (value: Option<u64>)
    ensures
        value == natural_knob(env@, name@, limit),
{
    match knob_text(env, name) {
        Some(s) => text::parse_natural(s.as_str(), limit),
        None => None,
    }
}

/// `n`, where it is not zero.
fn nonzero(n: Option<u64>) -> (limit: Option<u64>)
    ensures
        limit == unless_zero(n),
{
    match n {
        Some(0) => None,
        other => other,
    }
}

/// Reads all knobs from the environment. A bad value counts as an unset
/// variable: a typo in one of them must not take the service down.
pub fn config_knobs(env: &EnvVars) -> (knobs: ConfigKnobs)
    ensures
        knobs == configured(env@),
{
    ConfigKnobs {
        synchronous: synchronous_knob(env),
        journal_mode: journal_mode_knob(env),
        page_cache_kb: parse_integer_knob(env, ENV_PAGE_CACHE_KB),
        mmap_size: parse_integer_knob(env, ENV_MMAP_SIZE),
        temp_store: temp_store_knob(env),
        busy_timeout_ms: match parse_natural_knob(env, ENV_BUSY_TIMEOUT_MS, u32::MAX as u64) {
            Some(n) => Some(n as u32),
            None => None,
        },
        max_rows: match nonzero(parse_natural_knob(env, ENV_MAX_ROWS, usize::MAX as u64)) {
            Some(n) => Some(n as usize),
            None => None,
        },
        query_timeout_ms: nonzero(parse_natural_knob(env, ENV_QUERY_TIMEOUT_MS, u64::MAX)),
        max_body_bytes: match nonzero(
            parse_natural_knob(env, ENV_MAX_BODY_BYTES, usize::MAX as u64),
        ) {
            Some(n) => Some(n as usize),
            None => None,
        },
        checkpoint_mode: match checkpoint_mode_knob(env) {
            Some(mode) => mode,
            None => CheckpointMode::default(),
        },
    }
}

/// Whether the knob `name` has a text that does not parse.
pub open spec fn rejected(env: Seq<(Seq<char>, Seq<char>)>, name: Seq<char>) -> bool {
    &&& knob(env, name) is Some
    &&& {
        ||| name == ENV_SYNCHRONOUS@ && synchronous_in(env) is None
        ||| name == ENV_JOURNAL_MODE@ && journal_mode_in(env) is None
        ||| name == ENV_PAGE_CACHE_KB@ && integer_knob(env, name) is None
        ||| name == ENV_MMAP_SIZE@ && integer_knob(env, name) is None
        ||| name == ENV_TEMP_STORE@ && temp_store_in(env) is None
        ||| name == ENV_BUSY_TIMEOUT_MS@ && natural_knob(env, name, u32::MAX as u64) is None
        ||| name == ENV_MAX_ROWS@ && natural_knob(env, name, usize::MAX as u64) is None
        ||| name == ENV_QUERY_TIMEOUT_MS@ && natural_knob(env, name, u64::MAX) is None
        ||| name == ENV_MAX_BODY_BYTES@ && natural_knob(env, name, usize::MAX as u64) is None
        ||| name == ENV_CHECKPOINT_MODE@ && checkpoint_mode_in(env) is None
    }
}

/// The names of the ten knobs.
pub open spec fn knob_names() -> Seq<Seq<char>> {
    seq![
        ENV_SYNCHRONOUS@,
        ENV_JOURNAL_MODE@,
        ENV_PAGE_CACHE_KB@,
        ENV_MMAP_SIZE@,
        ENV_TEMP_STORE@,
        ENV_BUSY_TIMEOUT_MS@,
        ENV_MAX_ROWS@,
        ENV_QUERY_TIMEOUT_MS@,
        ENV_MAX_BODY_BYTES@,
        ENV_CHECKPOINT_MODE@,
    ]
}

/// Which knob stands where.
proof fn lemma_knob_names()
    ensures
        knob_names().len() == 10,
        knob_names()[0] == ENV_SYNCHRONOUS@,
        knob_names()[1] == ENV_JOURNAL_MODE@,
        knob_names()[2] == ENV_PAGE_CACHE_KB@,
        knob_names()[3] == ENV_MMAP_SIZE@,
        knob_names()[4] == ENV_TEMP_STORE@,
        knob_names()[5] == ENV_BUSY_TIMEOUT_MS@,
        knob_names()[6] == ENV_MAX_ROWS@,
        knob_names()[7] == ENV_QUERY_TIMEOUT_MS@,
        knob_names()[8] == ENV_MAX_BODY_BYTES@,
        knob_names()[9] == ENV_CHECKPOINT_MODE@,
{
}

/// No two knobs have the same name.
proof fn lemma_knob_names_differ()
    ensures
        knob_names().no_duplicates(),
{
    reveal_strlit("RUSTYHIP_SYNCHRONOUS");
    reveal_strlit("RUSTYHIP_JOURNAL_MODE");
    reveal_strlit("RUSTYHIP_PAGE_CACHE_KB");
    reveal_strlit("RUSTYHIP_MMAP_SIZE");
    reveal_strlit("RUSTYHIP_TEMP_STORE");
    reveal_strlit("RUSTYHIP_BUSY_TIMEOUT_MS");
    reveal_strlit("RUSTYHIP_MAX_ROWS");
    reveal_strlit("RUSTYHIP_QUERY_TIMEOUT_MS");
    reveal_strlit("RUSTYHIP_MAX_BODY_BYTES");
    reveal_strlit("RUSTYHIP_CHECKPOINT_MODE");
    // The length and the tenth and twelfth characters tell the names apart.
    let names = knob_names();
    assert forall|i: int, j: int| 0 <= i < j < names.len() implies names[i] != names[j] by {
        assert(names[i].len() != names[j].len() || names[i][9] != names[j][9] || names[i][10]
            != names[j][10] || names[i][11] != names[j][11]);
    }
}

/// The names of the ten knobs.
pub const KNOB_NAMES: [&'static str; 10] = [
    ENV_SYNCHRONOUS,
    ENV_JOURNAL_MODE,
    ENV_PAGE_CACHE_KB,
    ENV_MMAP_SIZE,
    ENV_TEMP_STORE,
    ENV_BUSY_TIMEOUT_MS,
    ENV_MAX_ROWS,
    ENV_QUERY_TIMEOUT_MS,
    ENV_MAX_BODY_BYTES,
    ENV_CHECKPOINT_MODE,
];

/// Whether the knob `name` has a text that does not parse.
fn is_rejected(env: &EnvVars, name: &str) -> (yes: bool)
    ensures
        yes == rejected(env@, name@),
{
    knob_text(env, name).is_some() && ((text::same(name, ENV_SYNCHRONOUS) && synchronous_knob(
        env,
    ).is_none()) || (text::same(name, ENV_JOURNAL_MODE) && journal_mode_knob(env).is_none()) || (
    text::same(name, ENV_PAGE_CACHE_KB) && parse_integer_knob(env, name).is_none()) || (text::same(
        name,
        ENV_MMAP_SIZE,
    ) && parse_integer_knob(env, name).is_none()) || (text::same(name, ENV_TEMP_STORE)
        && temp_store_knob(env).is_none()) || (text::same(name, ENV_BUSY_TIMEOUT_MS)
        && parse_natural_knob(env, name, u32::MAX as u64).is_none()) || (text::same(
        name,
        ENV_MAX_ROWS,
    ) && parse_natural_knob(env, name, usize::MAX as u64).is_none()) || (text::same(
        name,
        ENV_QUERY_TIMEOUT_MS,
    ) && parse_natural_knob(env, name, u64::MAX).is_none()) || (text::same(name, ENV_MAX_BODY_BYTES)
        && parse_natural_knob(env, name, usize::MAX as u64).is_none()) || (text::same(
        name,
        ENV_CHECKPOINT_MODE,
    ) && checkpoint_mode_knob(env).is_none()))
}

/// Why the knob `name` is rejected.
pub open spec fn reason_in(
    env: Seq<(Seq<char>, Seq<char>)>,
    name: Seq<char>,
) -> Option<Seq<char>> {
    if rejected(env, name) {
        let lower = text::ascii_lower(knob(env, name)->0);
        Some(
            if name == ENV_SYNCHRONOUS@ {
                unknown_word("synchronous mode"@, lower)
            } else if name == ENV_JOURNAL_MODE@ {
                unknown_word("journal mode"@, lower)
            } else if name == ENV_TEMP_STORE@ {
                unknown_word("temp_store"@, lower)
            } else if name == ENV_CHECKPOINT_MODE@ {
                unknown_word("checkpoint mode"@, lower)
            } else {
                NOT_IN_RANGE@
            },
        )
    } else {
        None
    }
}

/// Why a number is rejected.
pub const NOT_IN_RANGE: &'static str = "not an integer that the setting can have";

/// Why the knob `name` is rejected; `None` where it is not.
pub fn rejection_reason(env: &EnvVars, name: &str) -> (reason: Option<String>)
    ensures
        optional_text(reason) == reason_in(env@, name@),
{
    if !is_rejected(env, name) {
        return None;
    }
    let lower = match knob_text(env, name) {
        Some(value) => text::to_lower(value.as_str()),
        None => String::new(),
    };
    if text::same(name, ENV_SYNCHRONOUS) {
        Some(unknown("synchronous mode", lower.as_str()))
    } else if text::same(name, ENV_JOURNAL_MODE) {
        Some(unknown("journal mode", lower.as_str()))
    } else if text::same(name, ENV_TEMP_STORE) {
        Some(unknown("temp_store", lower.as_str()))
    } else if text::same(name, ENV_CHECKPOINT_MODE) {
        Some(unknown("checkpoint mode", lower.as_str()))
    } else {
        Some(NOT_IN_RANGE.to_owned())
    }
}

/// The knobs whose values do not parse, in the order of [`KNOB_NAMES`]. Each is
/// worth a warning.
pub fn rejected_knobs(env: &EnvVars) -> (names: Vec<&'static str>)
    ensures
        names@.map_values(|n: &'static str| n@) == knob_names().filter(
            |n: Seq<char>| rejected(env@, n),
        ),
{
    let mut names: Vec<&'static str> = Vec::new();
    let ghost bad = |n: Seq<char>| rejected(env@, n);
    for i in 0..10usize
        invariant
            bad == |n: Seq<char>| rejected(env@, n),
            names@.map_values(|n: &'static str| n@) == knob_names().take(i as int).filter(bad),
    {
        let name: &'static str = KNOB_NAMES[i];
        proof {
            assert(name@ == knob_names()[i as int]);
            assert(knob_names().take(i + 1).drop_last() == knob_names().take(i as int));
            reveal(Seq::filter);
        }
        let ghost before = names@;
        if is_rejected(env, name) {
            names.push(name);
            assert(names@.map_values(|n: &'static str| n@) == before.map_values(
                |n: &'static str| n@,
            ).push(name@));
        }
    }
    assert(knob_names().take(10) == knob_names());
    names
}

// ---------------------------------------------------------------------------
// Laws
// ---------------------------------------------------------------------------

/// A bad value counts as an unset variable, and so does an empty one: where the
/// value of the knob `name` does not parse or is empty, the knobs are the same as
/// in an environment that has every variable but that one.
pub proof fn law_bad_value_counts_as_unset(
    env: Seq<(Seq<char>, Seq<char>)>,
    without: Seq<(Seq<char>, Seq<char>)>,
    name: Seq<char>,
)
    requires
        rejected(env, name) || lookup(env, name) == Some(Seq::<char>::empty()),
        lookup(without, name) is None,
        forall|other: Seq<char>|
            other != name ==> #[trigger] lookup(without, other) == lookup(env, other),
    ensures
        configured(without) == configured(env),
{
    lemma_knob_names_differ();
    lemma_knob_names();
}

/// Only values that parse count: an environment without any of the knobs gives
/// the defaults, with the checkpoint mode that makes writes durable.
pub proof fn law_unset_knobs_give_defaults(env: Seq<(Seq<char>, Seq<char>)>)
    requires
        forall|i: int|
            0 <= i < knob_names().len() ==> lookup(env, #[trigger] knob_names()[i]) is None,
    ensures
        configured(env) == ConfigKnobs::unset(),
{
    lemma_knob_names();
}

/// A bad filter is never used: the log filter is one that can be read, or the
/// default.
pub proof fn law_bad_filters_are_passed_over(env: Seq<(Seq<char>, Seq<char>)>)
    ensures
        is_filter(filter_of(env)) || filter_of(env) == DEFAULT_LOG_LEVEL@,
{
}

/// A limit of zero is no limit: no configured limit is zero.
pub proof fn law_no_limit_is_zero(env: Seq<(Seq<char>, Seq<char>)>)
    ensures
        configured(env).max_rows != Some(0usize),
        configured(env).query_timeout_ms != Some(0u64),
        configured(env).max_body_bytes != Some(0usize),
{
}

/// The word that a `PRAGMA` statement uses for a setting is also read as that
/// setting, and the same holds of the argument of a checkpoint.
pub proof fn law_words_read_back(
    synchronous: Synchronous,
    journal_mode: JournalMode,
    temp_store: TempStore,
    checkpoint_mode: CheckpointMode,
)
    ensures
        synchronous_named(text::ascii_lower(synchronous.word())) == Some(synchronous),
        journal_mode_named(text::ascii_lower(journal_mode.word())) == Some(journal_mode),
        temp_store_named(text::ascii_lower(temp_store.word())) == Some(temp_store),
        checkpoint_mode.argument() matches Some(word) ==> checkpoint_mode_named(
            text::ascii_lower(word),
        ) == Some(checkpoint_mode),
{
    reveal_strlit("OFF");
    reveal_strlit("off");
    reveal_strlit("0");
    reveal_strlit("1");
    reveal_strlit("2");
    reveal_strlit("3");
    reveal_strlit("NORMAL");
    reveal_strlit("normal");
    reveal_strlit("FULL");
    reveal_strlit("full");
    reveal_strlit("EXTRA");
    reveal_strlit("extra");
    reveal_strlit("DELETE");
    reveal_strlit("delete");
    reveal_strlit("TRUNCATE");
    reveal_strlit("truncate");
    reveal_strlit("PERSIST");
    reveal_strlit("persist");
    reveal_strlit("MEMORY");
    reveal_strlit("memory");
    reveal_strlit("WAL");
    reveal_strlit("wal");
    reveal_strlit("DEFAULT");
    reveal_strlit("default");
    reveal_strlit("FILE");
    reveal_strlit("file");
    reveal_strlit("RESTART");
    reveal_strlit("restart");
    reveal_strlit("PASSIVE");
    reveal_strlit("passive");
    assert(text::ascii_lower("OFF"@) =~= "off"@);
    assert(text::ascii_lower("NORMAL"@) =~= "normal"@);
    assert(text::ascii_lower("FULL"@) =~= "full"@);
    assert(text::ascii_lower("EXTRA"@) =~= "extra"@);
    assert(text::ascii_lower("DELETE"@) =~= "delete"@);
    assert(text::ascii_lower("TRUNCATE"@) =~= "truncate"@);
    assert(text::ascii_lower("PERSIST"@) =~= "persist"@);
    assert(text::ascii_lower("MEMORY"@) =~= "memory"@);
    assert(text::ascii_lower("WAL"@) =~= "wal"@);
    assert(text::ascii_lower("DEFAULT"@) =~= "default"@);
    assert(text::ascii_lower("FILE"@) =~= "file"@);
    assert(text::ascii_lower("RESTART"@) =~= "restart"@);
    assert(text::ascii_lower("PASSIVE"@) =~= "passive"@);
    // Words of the same length that name different settings start differently.
    assert("delete"@[0] != "memory"@[0]);
    assert("wal"@[0] != "off"@[0]);
    assert("passive"@[0] != "restart"@[0]);
}

/// The value of a variable is that of the first one with its name; one that no
/// variable has the name of is not set.
pub proof fn law_first_variable_counts(
    env: Seq<(Seq<char>, Seq<char>)>,
    name: Seq<char>,
    value: Seq<char>,
)
    ensures
        lookup(env, name) == Some(value) <==> exists|i: int|
            {
                &&& 0 <= i < env.len()
                &&& #[trigger] env[i] == (name, value)
                &&& forall|j: int| 0 <= j < i ==> (#[trigger] env[j]).0 != name
            },
        lookup(env, name) is None <==> forall|i: int|
            0 <= i < env.len() ==> (#[trigger] env[i]).0 != name,
    decreases env.len(),
{
    if env.len() > 0 {
        let rest = env.drop_first();
        law_first_variable_counts(rest, name, value);
        if env[0].0 == name {
            assert(lookup(env, name) == Some(env[0].1));
            if env[0].1 == value {
                assert(env[0] == (name, value));
            }
        } else {
            if lookup(rest, name) == Some(value) {
                let i = choose|i: int|
                    {
                        &&& 0 <= i < rest.len()
                        &&& #[trigger] rest[i] == (name, value)
                        &&& forall|j: int| 0 <= j < i ==> (#[trigger] rest[j]).0 != name
                    };
                assert(env[i + 1] == (name, value));
                assert forall|j: int| 0 <= j < i + 1 implies (#[trigger] env[j]).0 != name by {
                    if j > 0 {
                        assert(rest[j - 1] == env[j]);
                    }
                }
            }
            if exists|i: int|
                {
                    &&& 0 <= i < env.len()
                    &&& #[trigger] env[i] == (name, value)
                    &&& forall|j: int| 0 <= j < i ==> (#[trigger] env[j]).0 != name
                } {
                let i = choose|i: int|
                    {
                        &&& 0 <= i < env.len()
                        &&& #[trigger] env[i] == (name, value)
                        &&& forall|j: int| 0 <= j < i ==> (#[trigger] env[j]).0 != name
                    };
                assert(rest[i - 1] == (name, value));
                assert forall|j: int| 0 <= j < i - 1 implies (#[trigger] rest[j]).0 != name by {
                    assert(rest[j] == env[j + 1]);
                }
            }
            if lookup(rest, name) is None {
                assert forall|i: int| 0 <= i < env.len() implies (#[trigger] env[i]).0 != name by {
                    if i > 0 {
                        assert(rest[i - 1] == env[i]);
                    }
                }
            }
            if forall|i: int| 0 <= i < env.len() ==> (#[trigger] env[i]).0 != name {
                assert forall|i: int| 0 <= i < rest.len() implies (#[trigger] rest[i]).0 != name by {
                    assert(rest[i] == env[i + 1]);
                }
            }
        }
    }
}

/// A variable that is set has its value, and one that is not the default.
pub proof fn law_defaults_fill_in(
    env: Seq<(Seq<char>, Seq<char>)>,
    name: Seq<char>,
    default: Seq<char>,
    value: Seq<char>,
)
    ensures
        lookup(env, name) == Some(value) ==> lookup_or(env, name, default) == value,
        lookup(env, name) is None ==> lookup_or(env, name, default) == default,
        lookup_nonempty(env, name) == Some(value) <==> lookup(env, name) == Some(value)
            && value.len() > 0,
        knob(env, name) is Some <==> lookup(env, name) is Some && lookup(env, name)
            != Some(Seq::<char>::empty()),
        knob(env, name) is Some && lookup(env, name) == Some(value) ==> knob(env, name) == Some(
            text::trimmed(value),
        ),
{
    if let Some(v) = lookup(env, name) {
        assert(v.len() == 0 ==> v =~= Seq::empty());
    }
}

/// The variables are looked at as they are.
pub proof fn law_view_of_the_environment(env: EnvVars, value: Option<String>)
    ensures
        env@.len() == env.vars@.len(),
        forall|i: int|
            0 <= i < env.vars@.len() ==> (#[trigger] env@[i]).0 == env.vars@[i].0@ && env@[i].1
                == env.vars@[i].1@,
        match value {
            Some(s) => optional_text(value) == Some(s@),
            None => optional_text(value) is None,
        },
{
}

/// Which variable each setting comes from, and what it is where that is not set.
pub proof fn law_where_settings_come_from(env: EnvVars, found: String)
    ensures
        call_ensures(region, (&env,), found) ==> found@ == match lookup(env@, "AWS_REGION"@) {
            Some(name) => name,
            None => match lookup(env@, "REGION"@) {
                Some(name) => name,
                None => "ap-northeast-1"@,
            },
        },
        call_ensures(cache_dir, (&env,), found) ==> found@ == match lookup(env@, "DB_CACHE_DIR"@) {
            Some(path) => path,
            None => "/tmp/rustyhip-cache"@,
        },
        call_ensures(environment, (&env,), found) ==> found@ == match lookup(
            env@,
            "ENVIRONMENT"@,
        ) {
            Some(label) => label,
            None => "development"@,
        },
        call_ensures(log_format, (&env,), found) ==> found@ == match lookup(env@, "LOG_FORMAT"@) {
            Some(format) => format,
            None => "json"@,
        },
        call_ensures(log_level, (&env,), found) ==> found@ == match lookup(env@, "LOG_LEVEL"@) {
            Some(level) => level,
            None => "info"@,
        },
{
}

/// Without a bucket and a name there is no database: the error says which of them
/// is not set.
pub proof fn law_bucket_and_name_are_required(env: EnvVars, found: Result<String, String>)
    ensures
        call_ensures(bucket, (&env,), found) ==> match found {
            Ok(name) => lookup(env@, "BUCKET"@) == Some(name@),
            Err(e) => lookup(env@, "BUCKET"@) is None && e@ == "BUCKET env var not set"@,
        },
        call_ensures(db_name, (&env,), found) ==> match found {
            Ok(name) => lookup(env@, "DB_NAME"@) == Some(name@),
            Err(e) => lookup(env@, "DB_NAME"@) is None && e@ == "DB_NAME env var not set"@,
        },
{
    reveal_strlit("BUCKET");
    reveal_strlit("DB_NAME");
    reveal_strlit(" env var not set");
    reveal_strlit("BUCKET env var not set");
    reveal_strlit("DB_NAME env var not set");
    assert("BUCKET"@ + " env var not set"@ =~= "BUCKET env var not set"@);
    assert("DB_NAME"@ + " env var not set"@ =~= "DB_NAME env var not set"@);
}

/// The token is the value of its variable; an empty one is none.
pub proof fn law_empty_token_is_none(env: EnvVars, token: Option<String>)
    requires
        call_ensures(auth_token, (&env,), token),
    ensures
        match token {
            Some(t) => t@.len() > 0 && lookup(env@, "RUSTYHIP_AUTH_TOKEN"@) == Some(t@),
            None => lookup(env@, "RUSTYHIP_AUTH_TOKEN"@) matches Some(value) ==> value.len() == 0,
        },
{
}

/// A custom endpoint is that of all services, else that of S3; where there is one,
/// the addressing is by path, and else it is not.
pub proof fn law_custom_endpoint(env: EnvVars, by_path: bool)
    ensures
        endpoint_in(env@) == match lookup(env@, "AWS_ENDPOINT_URL"@) {
            Some(url) => Some(url),
            None => lookup(env@, "AWS_ENDPOINT_URL_S3"@),
        },
        call_ensures(use_path_style_s3, (&env,), by_path) ==> by_path == (lookup(
            env@,
            "AWS_ENDPOINT_URL"@,
        ) is Some || lookup(env@, "AWS_ENDPOINT_URL_S3"@) is Some),
{
}

/// The filter is `RUST_LOG` where that is one, else `LOG_LEVEL` where that is one,
/// else `info`.
pub proof fn law_which_filter_is_used(env: Seq<(Seq<char>, Seq<char>)>, filter: Seq<char>)
    ensures
        lookup(env, "RUST_LOG"@) == Some(filter) && is_filter(filter) ==> filter_of(env) == filter,
        !(lookup(env, "RUST_LOG"@) matches Some(text) && is_filter(text)) ==> {
            &&& lookup(env, "LOG_LEVEL"@) == Some(filter) && is_filter(filter) ==> filter_of(env)
                == filter
            &&& !(lookup(env, "LOG_LEVEL"@) matches Some(text) && is_filter(text)) ==> filter_of(
                env,
            ) == "info"@
        },
{
}

/// The same holds of the choice alone.
pub proof fn law_first_valid_filter_is_chosen(
    rust_log: Seq<char>,
    level: Seq<char>,
    rust_log_valid: bool,
    level_valid: bool,
)
    ensures
        rust_log_valid ==> chosen_filter(Some(rust_log), true, level, level_valid) == rust_log,
        level_valid ==> chosen_filter(Some(rust_log), false, level, true) == level,
        level_valid ==> chosen_filter(None, rust_log_valid, level, true) == level,
        chosen_filter(Some(rust_log), false, level, false) == "info"@,
        chosen_filter(None, rust_log_valid, level, false) == "info"@,
{
}

/// The pieces of a text are what stands between its commas.
pub proof fn law_pieces_between_commas(before: Seq<char>, after: Seq<char>)
    ensures
        !before.contains(',') ==> pieces(before) == seq![before],
        pieces(before + seq![','] + after) == pieces(before) + pieces(after),
    decreases before.len() + after.len(),
{
    if !before.contains(',') {
        if before.len() == 0 {
            assert(before =~= Seq::empty());
        } else {
            let shorter = before.drop_last();
            assert forall|i: int| 0 <= i < shorter.len() implies #[trigger] shorter[i] != ',' by {
                assert(before.contains(before[i]));
            }
            assert(before.contains(before[before.len() - 1]));
            law_pieces_between_commas(shorter, Seq::empty());
            assert(shorter.push(before.last()) =~= before);
            assert(pieces(before) =~= seq![before]);
        }
    }
    let whole = before + seq![','] + after;
    if after.len() == 0 {
        assert(whole.drop_last() =~= before);
        assert(pieces(whole) =~= pieces(before) + pieces(after));
    } else {
        let shorter = after.drop_last();
        assert(whole.drop_last() =~= before + seq![','] + shorter);
        law_pieces_between_commas(before, shorter);
        lemma_some_piece(shorter);
        assert(pieces(whole) =~= pieces(before) + pieces(after));
    }
}

/// Every text has a piece.
proof fn lemma_some_piece(s: Seq<char>)
    ensures
        pieces(s).len() > 0,
    decreases s.len(),
{
    if s.len() > 0 {
        lemma_some_piece(s.drop_last());
    }
}

/// The parser is asked about every text but those with a directive that begins with
/// white space, has a level or a span, and has a character outside ASCII.
pub proof fn law_which_texts_are_read(s: Seq<char>)
    ensures
        is_filter(s) ==> reads_as_filter(s),
        is_filter(s) != reads_as_filter(s) ==> exists|k: int, i: int, j: int|
            {
                &&& 0 <= k < pieces(s).len()
                &&& 0 <= i < pieces(s)[k].len()
                &&& 0 <= j < pieces(s)[k].len()
                &&& text::white(pieces(s)[k][0])
                &&& (#[trigger] pieces(s)[k][i]) as u32 > 127
                &&& (#[trigger] pieces(s)[k][j]) == '=' || pieces(s)[k][j] == '['
            },
        forall|k: int, i: int, j: int|
            0 <= k < pieces(s).len() && 0 <= i < pieces(s)[k].len() && 0 <= j < pieces(s)[k].len()
                && text::white(pieces(s)[k][0]) && (#[trigger] pieces(s)[k][i]) as u32 > 127 && ((
            #[trigger] pieces(s)[k][j]) == '=' || pieces(s)[k][j] == '[') ==> !is_filter(s),
{
    if !filter_can_be_read(s) {
        let k = choose|k: int| 0 <= k < pieces(s).len() && misplaced(#[trigger] pieces(s)[k]);
        let d = pieces(s)[k];
        let i = choose|i: int| 0 <= i < d.len() && beyond_ascii(#[trigger] d[i]);
        let j = choose|j: int| 0 <= j < d.len() && is_mark(#[trigger] d[j]);
        assert(pieces(s)[k][i] as u32 > 127);
        assert(pieces(s)[k][j] == '=' || pieces(s)[k][j] == '[');
    }
    assert forall|k: int, i: int, j: int|
        0 <= k < pieces(s).len() && 0 <= i < pieces(s)[k].len() && 0 <= j < pieces(s)[k].len()
            && text::white(pieces(s)[k][0]) && (#[trigger] pieces(s)[k][i]) as u32 > 127 && ((
        #[trigger] pieces(s)[k][j]) == '=' || pieces(s)[k][j] == '[') implies !is_filter(s) by {
        let d = pieces(s)[k];
        assert(beyond_ascii(d[i]));
        assert(is_mark(d[j]));
        assert(misplaced(pieces(s)[k]));
    }
}

/// Logging is started once, with the filter of the environment; as text where the
/// format says so in any letter case, and else as JSON that names the service and
/// its environment.
pub proof fn law_logging_of_an_environment(
    started: bool,
    env: EnvVars,
    setup: Option<LogSetup>,
)
    requires
        call_ensures(init_logging, (started, &env), setup),
    ensures
        setup is None <==> started,
        setup matches Some(s) ==> {
            let named = lookup(env@, "LOG_FORMAT"@);
            let for_people = named matches Some(format) && {
                let lower = text::ascii_lower(format);
                lower == "pretty"@ || lower == "text"@ || lower == "human"@
            };
            &&& s.filter@ == filter_of(env@)
            &&& match s.output {
                LogOutput::Text => for_people,
                LogOutput::Json(formatter) => {
                    &&& !for_people
                    &&& formatter@.service == "rustyhip"@
                    &&& formatter@.environment == match lookup(env@, "ENVIRONMENT"@) {
                        Some(label) => label,
                        None => "development"@,
                    }
                },
            }
        },
{
    reveal_strlit("json");
    reveal_strlit("pretty");
    reveal_strlit("text");
    reveal_strlit("human");
    assert(text::ascii_lower("json"@) =~= "json"@);
    assert("json"@[0] != "text"@[0]);
}

/// The words of a `PRAGMA` statement.
pub proof fn law_words_of_settings(
    synchronous: Synchronous,
    journal_mode: JournalMode,
    temp_store: TempStore,
    checkpoint_mode: CheckpointMode,
)
    ensures
        synchronous.word() == match synchronous {
            Synchronous::Off => "OFF"@,
            Synchronous::Normal => "NORMAL"@,
            Synchronous::Full => "FULL"@,
            Synchronous::Extra => "EXTRA"@,
        },
        journal_mode.word() == match journal_mode {
            JournalMode::Delete => "DELETE"@,
            JournalMode::Truncate => "TRUNCATE"@,
            JournalMode::Persist => "PERSIST"@,
            JournalMode::Memory => "MEMORY"@,
            JournalMode::Wal => "WAL"@,
            JournalMode::Off => "OFF"@,
        },
        temp_store.word() == match temp_store {
            TempStore::Default => "DEFAULT"@,
            TempStore::File => "FILE"@,
            TempStore::Memory => "MEMORY"@,
        },
        checkpoint_mode.argument() == match checkpoint_mode {
            CheckpointMode::Truncate => Some("TRUNCATE"@),
            CheckpointMode::Restart => Some("RESTART"@),
            CheckpointMode::Full => Some("FULL"@),
            CheckpointMode::Passive => Some("PASSIVE"@),
            CheckpointMode::Off => None,
        },
{
}

/// A setting is named by its words, by the numbers that SQLite has for it, and by
/// nothing else.
pub proof fn law_only_these_words_are_read(word: Seq<char>)
    ensures
        match synchronous_named(word) {
            Some(Synchronous::Off) => word == "off"@ || word == "0"@,
            Some(Synchronous::Normal) => word == "normal"@ || word == "1"@,
            Some(Synchronous::Full) => word == "full"@ || word == "2"@,
            Some(Synchronous::Extra) => word == "extra"@ || word == "3"@,
            None => word != "off"@ && word != "0"@ && word != "normal"@ && word != "1"@ && word
                != "full"@ && word != "2"@ && word != "extra"@ && word != "3"@,
        },
        match journal_mode_named(word) {
            Some(JournalMode::Delete) => word == "delete"@,
            Some(JournalMode::Truncate) => word == "truncate"@,
            Some(JournalMode::Persist) => word == "persist"@,
            Some(JournalMode::Memory) => word == "memory"@,
            Some(JournalMode::Wal) => word == "wal"@,
            Some(JournalMode::Off) => word == "off"@,
            None => word != "delete"@ && word != "truncate"@ && word != "persist"@ && word
                != "memory"@ && word != "wal"@ && word != "off"@,
        },
        match temp_store_named(word) {
            Some(TempStore::Default) => word == "default"@ || word == "0"@,
            Some(TempStore::File) => word == "file"@ || word == "1"@,
            Some(TempStore::Memory) => word == "memory"@ || word == "2"@ || word == "mem"@,
            None => word != "default"@ && word != "0"@ && word != "file"@ && word != "1"@ && word
                != "memory"@ && word != "2"@ && word != "mem"@,
        },
        match checkpoint_mode_named(word) {
            Some(CheckpointMode::Truncate) => word == "truncate"@,
            Some(CheckpointMode::Restart) => word == "restart"@,
            Some(CheckpointMode::Full) => word == "full"@,
            Some(CheckpointMode::Passive) => word == "passive"@,
            Some(CheckpointMode::Off) => word == "off"@ || word == "skip"@ || word == "none"@,
            None => word != "truncate"@ && word != "restart"@ && word != "full"@ && word
                != "passive"@ && word != "off"@ && word != "skip"@ && word != "none"@,
        },
{
}

/// A word that names no setting is shown in the error, in lower case.
pub proof fn law_unknown_words_are_shown(word: &str, lower: Seq<char>)
    requires
        lower == text::ascii_lower(word@),
    ensures
        forall|e: String| #[trigger]
            call_ensures(parse_synchronous, (word,), Err(e)) ==> synchronous_named(lower) is None
                && e@ == "unknown synchronous mode '"@ + lower + "'"@,
        forall|e: String| #[trigger]
            call_ensures(parse_journal_mode, (word,), Err(e)) ==> journal_mode_named(lower) is None
                && e@ == "unknown journal mode '"@ + lower + "'"@,
        forall|e: String| #[trigger]
            call_ensures(parse_temp_store, (word,), Err(e)) ==> temp_store_named(lower) is None
                && e@ == "unknown temp_store '"@ + lower + "'"@,
        forall|e: String| #[trigger]
            call_ensures(parse_checkpoint_mode, (word,), Err(e)) ==> checkpoint_mode_named(
                lower,
            ) is None && e@ == "unknown checkpoint mode '"@ + lower + "'"@,
{
    lemma_unknown_words(lower);
}

/// The errors for words that name no setting.
proof fn lemma_unknown_words(lower: Seq<char>)
    ensures
        unknown_word("synchronous mode"@, lower) == "unknown synchronous mode '"@ + lower + "'"@,
        unknown_word("journal mode"@, lower) == "unknown journal mode '"@ + lower + "'"@,
        unknown_word("temp_store"@, lower) == "unknown temp_store '"@ + lower + "'"@,
        unknown_word("checkpoint mode"@, lower) == "unknown checkpoint mode '"@ + lower + "'"@,
{
    reveal_strlit("unknown ");
    reveal_strlit(" '");
    reveal_strlit("synchronous mode");
    reveal_strlit("journal mode");
    reveal_strlit("temp_store");
    reveal_strlit("checkpoint mode");
    reveal_strlit("unknown synchronous mode '");
    reveal_strlit("unknown journal mode '");
    reveal_strlit("unknown temp_store '");
    reveal_strlit("unknown checkpoint mode '");
    assert("unknown "@ + "synchronous mode"@ + " '"@ =~= "unknown synchronous mode '"@);
    assert("unknown "@ + "journal mode"@ + " '"@ =~= "unknown journal mode '"@);
    assert("unknown "@ + "temp_store"@ + " '"@ =~= "unknown temp_store '"@);
    assert("unknown "@ + "checkpoint mode"@ + " '"@ =~= "unknown checkpoint mode '"@);
}

/// Whether the knob `name` writes the number `n`.
pub open spec fn writes(env: Seq<(Seq<char>, Seq<char>)>, name: Seq<char>, n: int) -> bool {
    knob(env, name) matches Some(written) && text::parsed_integer(written) == Some(n)
}

/// Whether the knob `name` writes the number `n` and has no sign that a number
/// without one would not have.
pub open spec fn writes_natural(
    env: Seq<(Seq<char>, Seq<char>)>,
    name: Seq<char>,
    n: nat,
) -> bool {
    knob(env, name) matches Some(written) && text::parsed_natural(written) == Some(n)
}

/// Each knob is set by its own variable, to what that says: a word in any letter
/// case, or a number that the setting can have.
pub proof fn law_knobs_are_what_the_variables_say(
    env: Seq<(Seq<char>, Seq<char>)>,
    i: i64,
    time: u32,
    size: usize,
    limit: u64,
)
    ensures
        configured(env).page_cache_kb == Some(i) <==> writes(
            env,
            "RUSTYHIP_PAGE_CACHE_KB"@,
            i as int,
        ),
        configured(env).mmap_size == Some(i) <==> writes(env, "RUSTYHIP_MMAP_SIZE"@, i as int),
        configured(env).busy_timeout_ms == Some(time) <==> writes_natural(
            env,
            "RUSTYHIP_BUSY_TIMEOUT_MS"@,
            time as nat,
        ),
        configured(env).max_rows == Some(size) <==> size > 0 && writes_natural(
            env,
            "RUSTYHIP_MAX_ROWS"@,
            size as nat,
        ),
        configured(env).query_timeout_ms == Some(limit) <==> limit > 0 && writes_natural(
            env,
            "RUSTYHIP_QUERY_TIMEOUT_MS"@,
            limit as nat,
        ),
        configured(env).max_body_bytes == Some(size) <==> size > 0 && writes_natural(
            env,
            "RUSTYHIP_MAX_BODY_BYTES"@,
            size as nat,
        ),
        configured(env).synchronous == match knob(env, "RUSTYHIP_SYNCHRONOUS"@) {
            Some(word) => synchronous_named(text::ascii_lower(word)),
            None => None,
        },
        configured(env).journal_mode == match knob(env, "RUSTYHIP_JOURNAL_MODE"@) {
            Some(word) => journal_mode_named(text::ascii_lower(word)),
            None => None,
        },
        configured(env).temp_store == match knob(env, "RUSTYHIP_TEMP_STORE"@) {
            Some(word) => temp_store_named(text::ascii_lower(word)),
            None => None,
        },
        configured(env).checkpoint_mode == match knob(env, "RUSTYHIP_CHECKPOINT_MODE"@) {
            Some(word) => match checkpoint_mode_named(text::ascii_lower(word)) {
                Some(mode) => mode,
                None => CheckpointMode::Truncate,
            },
            None => CheckpointMode::Truncate,
        },
{
}

/// The defaults: nothing is set, and writes are made durable.
pub proof fn law_default_knobs()
    ensures
        ConfigKnobs::unset().synchronous is None,
        ConfigKnobs::unset().journal_mode is None,
        ConfigKnobs::unset().page_cache_kb is None,
        ConfigKnobs::unset().mmap_size is None,
        ConfigKnobs::unset().temp_store is None,
        ConfigKnobs::unset().busy_timeout_ms is None,
        ConfigKnobs::unset().max_rows is None,
        ConfigKnobs::unset().query_timeout_ms is None,
        ConfigKnobs::unset().max_body_bytes is None,
        ConfigKnobs::unset().checkpoint_mode is Truncate,
{
}

/// The knobs have these names, in this order.
pub proof fn law_names_of_the_knobs()
    ensures
        knob_names() == seq![
            "RUSTYHIP_SYNCHRONOUS"@,
            "RUSTYHIP_JOURNAL_MODE"@,
            "RUSTYHIP_PAGE_CACHE_KB"@,
            "RUSTYHIP_MMAP_SIZE"@,
            "RUSTYHIP_TEMP_STORE"@,
            "RUSTYHIP_BUSY_TIMEOUT_MS"@,
            "RUSTYHIP_MAX_ROWS"@,
            "RUSTYHIP_QUERY_TIMEOUT_MS"@,
            "RUSTYHIP_MAX_BODY_BYTES"@,
            "RUSTYHIP_CHECKPOINT_MODE"@,
        ],
{
}

/// A knob is rejected when its variable says something that sets nothing: a word
/// that names no setting, or no number that the setting can have. A limit of zero
/// is one that it can have. What is no knob is never rejected.
pub proof fn law_rejected_means_not_understood(env: Seq<(Seq<char>, Seq<char>)>, name: Seq<char>)
    ensures
        rejected(env, "RUSTYHIP_SYNCHRONOUS"@) <==> knob(env, "RUSTYHIP_SYNCHRONOUS"@) is Some
            && configured(env).synchronous is None,
        rejected(env, "RUSTYHIP_JOURNAL_MODE"@) <==> knob(env, "RUSTYHIP_JOURNAL_MODE"@) is Some
            && configured(env).journal_mode is None,
        rejected(env, "RUSTYHIP_TEMP_STORE"@) <==> knob(env, "RUSTYHIP_TEMP_STORE"@) is Some
            && configured(env).temp_store is None,
        rejected(env, "RUSTYHIP_PAGE_CACHE_KB"@) <==> knob(env, "RUSTYHIP_PAGE_CACHE_KB"@) is Some
            && configured(env).page_cache_kb is None,
        rejected(env, "RUSTYHIP_MMAP_SIZE"@) <==> knob(env, "RUSTYHIP_MMAP_SIZE"@) is Some
            && configured(env).mmap_size is None,
        rejected(env, "RUSTYHIP_BUSY_TIMEOUT_MS"@) <==> knob(
            env,
            "RUSTYHIP_BUSY_TIMEOUT_MS"@,
        ) is Some && configured(env).busy_timeout_ms is None,
        rejected(env, "RUSTYHIP_MAX_ROWS"@) <==> knob(env, "RUSTYHIP_MAX_ROWS"@) is Some
            && configured(env).max_rows is None && !writes_natural(env, "RUSTYHIP_MAX_ROWS"@, 0),
        rejected(env, "RUSTYHIP_QUERY_TIMEOUT_MS"@) <==> knob(
            env,
            "RUSTYHIP_QUERY_TIMEOUT_MS"@,
        ) is Some && configured(env).query_timeout_ms is None && !writes_natural(
            env,
            "RUSTYHIP_QUERY_TIMEOUT_MS"@,
            0,
        ),
        rejected(env, "RUSTYHIP_MAX_BODY_BYTES"@) <==> knob(env, "RUSTYHIP_MAX_BODY_BYTES"@) is Some
            && configured(env).max_body_bytes is None && !writes_natural(
            env,
            "RUSTYHIP_MAX_BODY_BYTES"@,
            0,
        ),
        rejected(env, "RUSTYHIP_CHECKPOINT_MODE"@) <==> (knob(
            env,
            "RUSTYHIP_CHECKPOINT_MODE"@,
        ) matches Some(word) && checkpoint_mode_named(text::ascii_lower(word)) is None),
        rejected(env, name) ==> knob_names().contains(name),
{
    lemma_knob_names_differ();
    lemma_knob_names();
    let names = knob_names();
    if rejected(env, name) {
        assert(names[0] == name || names[1] == name || names[2] == name || names[3] == name
            || names[4] == name || names[5] == name || names[6] == name || names[7] == name
            || names[8] == name || names[9] == name);
    }
}

/// A knob has a reason to be rejected where it is rejected and only there: the word
/// that names no setting, in lower case, or that there is no such number.
pub proof fn law_reasons_for_rejection(env: Seq<(Seq<char>, Seq<char>)>, name: Seq<char>)
    ensures
        reason_in(env, name) is Some <==> rejected(env, name),
        reason_in(env, name) matches Some(reason) ==> knob(env, name) is Some && {
            let lower = text::ascii_lower(knob(env, name)->0);
            if name == "RUSTYHIP_SYNCHRONOUS"@ {
                reason == "unknown synchronous mode '"@ + lower + "'"@
            } else if name == "RUSTYHIP_JOURNAL_MODE"@ {
                reason == "unknown journal mode '"@ + lower + "'"@
            } else if name == "RUSTYHIP_TEMP_STORE"@ {
                reason == "unknown temp_store '"@ + lower + "'"@
            } else if name == "RUSTYHIP_CHECKPOINT_MODE"@ {
                reason == "unknown checkpoint mode '"@ + lower + "'"@
            } else {
                reason == "not an integer that the setting can have"@
            }
        },
{
    if let Some(value) = knob(env, name) {
        lemma_unknown_words(text::ascii_lower(value));
    }
}

/// All rejected knobs are named, and no others.
pub proof fn law_all_rejected_knobs_are_named(
    env: EnvVars,
    names: Vec<&'static str>,
    name: Seq<char>,
)
    requires
        call_ensures(rejected_knobs, (&env,), names),
    ensures
        names@.map_values(|n: &'static str| n@).contains(name) <==> rejected(env@, name),
{
    law_rejected_means_not_understood(env@, name);
    broadcast use vstd::seq_lib::group_filter_ensures;

    let bad = |n: Seq<char>| rejected(env@, n);
    let found = knob_names().filter(bad);
    assert(names@.map_values(|n: &'static str| n@) == found);
    if found.contains(name) {
        assert(bad(name));
    }
    if rejected(env@, name) {
        assert(knob_names().contains(name) && bad(name));
    }
}

/// What the functions on the environment give is what was said above of it.
pub proof fn law_settings_as_values(
    env: EnvVars,
    name: &str,
    default: &str,
    value: Option<String>,
    found: String,
    knobs: ConfigKnobs,
)
    ensures
        call_ensures(EnvVars::get, (&env, name), value) ==> match value {
            Some(v) => lookup(env@, name@) == Some(v@),
            None => lookup(env@, name@) is None,
        },
        call_ensures(EnvVars::get_or, (&env, name, default), found) ==> found@ == match lookup(
            env@,
            name@,
        ) {
            Some(v) => v,
            None => default@,
        },
        call_ensures(endpoint_url, (&env,), value) ==> match value {
            Some(v) => endpoint_in(env@) == Some(v@),
            None => endpoint_in(env@) is None,
        },
        call_ensures(filter_in, (&env,), found) ==> found@ == filter_of(env@),
        call_ensures(config_knobs, (&env,), knobs) ==> knobs == configured(env@),
        call_ensures(rejection_reason, (&env, name), value) ==> match value {
            Some(v) => reason_in(env@, name@) == Some(v@),
            None => reason_in(env@, name@) is None,
        },
        call_ensures(ConfigKnobs::default, (), knobs) ==> knobs == ConfigKnobs::unset(),
{
}

/// What the functions on words give is what was said above of them.
pub proof fn law_words_as_values(
    word: &str,
    synchronous: Synchronous,
    journal_mode: JournalMode,
    temp_store: TempStore,
    mode: CheckpointMode,
    shown: &'static str,
    argument: Option<&'static str>,
    yes: bool,
)
    ensures
        call_ensures(parse_synchronous, (word,), Ok(synchronous)) ==> synchronous_named(
            text::ascii_lower(word@),
        ) == Some(synchronous),
        call_ensures(parse_journal_mode, (word,), Ok(journal_mode)) ==> journal_mode_named(
            text::ascii_lower(word@),
        ) == Some(journal_mode),
        call_ensures(parse_temp_store, (word,), Ok(temp_store)) ==> temp_store_named(
            text::ascii_lower(word@),
        ) == Some(temp_store),
        call_ensures(parse_checkpoint_mode, (word,), Ok(mode)) ==> checkpoint_mode_named(
            text::ascii_lower(word@),
        ) == Some(mode),
        call_ensures(Synchronous::as_pragma, (synchronous,), shown) ==> shown@
            == synchronous.word(),
        call_ensures(JournalMode::as_pragma, (journal_mode,), shown) ==> shown@
            == journal_mode.word(),
        call_ensures(TempStore::as_pragma, (temp_store,), shown) ==> shown@ == temp_store.word(),
        call_ensures(CheckpointMode::as_pragma_arg, (mode,), argument) ==> match argument {
            Some(w) => mode.argument() == Some(w@),
            None => mode is Off,
        },
        call_ensures(CheckpointMode::default, (), mode) ==> mode is Truncate,
        call_ensures(is_human_format, (word,), yes) ==> yes == ({
            let lower = text::ascii_lower(word@);
            lower == "pretty"@ || lower == "text"@ || lower == "human"@
        }),
{
}

} // verus!
