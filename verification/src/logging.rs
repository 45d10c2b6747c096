//! One JSON object for every log event.
//!
//! Every event has the members `timestamp` (RFC 3339, UTC), `level`, `event`,
//! `logger`, `service` and `environment`, and beside them the fields that it was
//! logged with. None of these takes the place of a required member: one of the
//! same name stands under `field.` and its name. The value of a field whose name
//! looks sensitive is replaced by `[REDACTED]`. This is a safety net: such values
//! should not be logged at all.

use vstd::prelude::*;

use crate::json::{real_to_json, Json, JsonObject};
use crate::text;

verus! {

// ---------------------------------------------------------------------------
// Sensitive names
// ---------------------------------------------------------------------------

/// A field is sensitive when its name has one of these in it, in any letter case.
pub const SENSITIVE_FIELD_NAMES: [&'static str; 8] = [
    "password",
    "token",
    "secret",
    "ssn",
    "email",
    "credit_card",
    "authorization",
    "api_key",
];

/// What stands in place of a sensitive value.
pub const REDACTED: &'static str = "[REDACTED]";

/// The names of [`SENSITIVE_FIELD_NAMES`].
pub open spec fn sensitive_names() -> Seq<Seq<char>> {
    seq![
        "password"@,
        "token"@,
        "secret"@,
        "ssn"@,
        "email"@,
        "credit_card"@,
        "authorization"@,
        "api_key"@,
    ]
}

/// Whether a field with this name is sensitive.
pub open spec fn is_sensitive(name: Seq<char>) -> bool {
    exists|i: int|
        0 <= i < sensitive_names().len() && text::occurs_in(
            text::ascii_lower(name),
            #[trigger] sensitive_names()[i],
        )
}

/// Whether a field with this name is sensitive.
pub fn is_sensitive_field(name: &str) -> (yes: bool)
    ensures
        yes == is_sensitive(name@),
{
    let lower = text::to_lower(name);
    for i in 0..8usize
        invariant
            lower@ == text::ascii_lower(name@),
            forall|j: int|
                0 <= j < i ==> !text::occurs_in(lower@, #[trigger] sensitive_names()[j]),
    {
        let needle: &'static str = SENSITIVE_FIELD_NAMES[i];
        assert(needle@ == sensitive_names()[i as int]);
        if text::contains(lower.as_str(), needle) {
            return true;
        }
    }
    false
}

// ---------------------------------------------------------------------------
// Durations
// ---------------------------------------------------------------------------

/// `std::time::Instant`, opaque here.
#[verifier::external_type_specification]
#[verifier::external_body]
pub struct ExInstant(std::time::Instant);

/// `Instant::elapsed` of the standard library: the time since the instant. It
/// depends on the clock, so nothing is stated of it.
pub assume_specification[ std::time::Instant::elapsed ](start: &std::time::Instant) -> (passed:
    std::time::Duration)
;

/// `Duration::as_millis` of the standard library: the whole milliseconds of the
/// duration. A duration is opaque here, so how many they are is not stated.
pub assume_specification[ std::time::Duration::as_millis ](
    duration: &std::time::Duration,
) -> (millis: u128)
;

/// `millis`, or the largest `u64` where that is exceeded.
pub open spec fn saturated(millis: u128) -> u64 {
    if millis <= u64::MAX {
        millis as u64
    } else {
        u64::MAX
    }
}

/// `millis`, or the largest `u64` where that is exceeded.
pub fn saturated_ms(millis: u128) -> (ms: u64)
    ensures
        ms == saturated(millis),
{
    if millis <= u64::MAX as u128 {
        millis as u64
    } else {
        u64::MAX
    }
}

/// The milliseconds since `start`: what `Duration::as_millis` gives for what
/// `Instant::elapsed` gives for `start`, saturated. How many they are depends on
/// the clock and is not stated.
pub fn elapsed_ms(start: std::time::Instant) -> (ms: u64)
    ensures
        exists|passed: std::time::Duration, millis: u128|
            {
                &&& #[trigger] call_ensures(std::time::Instant::elapsed, (&start,), passed)
                &&& #[trigger] call_ensures(std::time::Duration::as_millis, (&passed,), millis)
                &&& ms == saturated(millis)
            },
{
    let passed = start.elapsed();
    let millis: u128 = passed.as_millis();
    saturated_ms(millis)
}

// ---------------------------------------------------------------------------
// Levels
// ---------------------------------------------------------------------------

/// The level of an event.
#[derive(Debug, Clone, Copy, PartialEq, Eq, Structural)]
pub enum LogLevel {
    Error,
    Warn,
    Info,
    Debug,
    Trace,
}

impl LogLevel {
    /// The name of the level in a log.
    pub open spec fn name(self) -> Seq<char> {
        match self {
            LogLevel::Error => "ERROR"@,
            LogLevel::Warn => "WARNING"@,
            LogLevel::Info => "INFO"@,
            LogLevel::Debug => "DEBUG"@,
            LogLevel::Trace => "TRACE"@,
        }
    }
}

/// The name of the level in a log.
pub fn level_name(level: LogLevel) -> (name: &'static str)
    ensures
        name@ == level.name(),
{
    match level {
        LogLevel::Error => "ERROR",
        LogLevel::Warn => "WARNING",
        LogLevel::Info => "INFO",
        LogLevel::Debug => "DEBUG",
        LogLevel::Trace => "TRACE",
    }
}

// ---------------------------------------------------------------------------
// Fields
// ---------------------------------------------------------------------------

/// What the fields of a sequence stand for.
pub open spec fn field_views(
    fields: Seq<(String, Json)>,
) -> Seq<(Seq<char>, crate::json::JsonValue)> {
    fields.map_values(|f: (String, Json)| (f.0@, f.1@))
}

/// Collects the fields of an event, in the order in which they come.
#[derive(Debug)]
pub struct JsonVisitor {
    pub fields: Vec<(String, Json)>,
}

impl View for JsonVisitor {
    type V = Seq<(Seq<char>, crate::json::JsonValue)>;

    open spec fn view(&self) -> Seq<(Seq<char>, crate::json::JsonValue)> {
        field_views(self.fields@)
    }
}

/// The JSON form of `n`: the number where it fits an `i64`, else its decimal text.
pub open spec fn i128_value(n: i128) -> crate::json::JsonValue {
    if i64::MIN <= n <= i64::MAX {
        crate::json::JsonValue::Integer(n as int)
    } else {
        crate::json::JsonValue::Text(text::signed_decimal(n as int))
    }
}

/// The JSON form of `n`: the number where it fits a `u64`, else its decimal text.
pub open spec fn u128_value(n: u128) -> crate::json::JsonValue {
    if n <= u64::MAX {
        crate::json::JsonValue::Integer(n as int)
    } else {
        crate::json::JsonValue::Text(text::decimal(n as nat))
    }
}

impl JsonVisitor {
    /// No field yet.
    pub fn new() -> (visitor: JsonVisitor)
        ensures
            visitor@ == Seq::<(Seq<char>, crate::json::JsonValue)>::empty(),
    {
        let visitor = JsonVisitor { fields: Vec::new() };
        assert(visitor@ =~= Seq::<(Seq<char>, crate::json::JsonValue)>::empty());
        visitor
    }

    /// Adds a field.
    fn record(&mut self, name: &str, value: Json)
        ensures
            final(self)@ == old(self)@.push((name@, value@)),
    {
        self.fields.push((name.to_owned(), value));
        assert(self@ =~= old(self)@.push((name@, value@)));
    }

    /// Adds a text.
    pub fn record_str(&mut self, name: &str, value: &str)
        ensures
            final(self)@ == old(self)@.push((name@, crate::json::JsonValue::Text(value@))),
    {
        self.record(name, Json::Text(value.to_owned()));
    }

    /// Adds a boolean.
    pub fn record_bool(&mut self, name: &str, value: bool)
        ensures
            final(self)@ == old(self)@.push((name@, crate::json::JsonValue::Bool(value))),
    {
        self.record(name, Json::Bool(value));
    }

    /// Adds an integer.
    pub fn record_i64(&mut self, name: &str, value: i64)
        ensures
            final(self)@ == old(self)@.push(
                (name@, crate::json::JsonValue::Integer(value as int)),
            ),
    {
        self.record(name, Json::Integer(value));
    }

    /// Adds an integer.
    pub fn record_u64(&mut self, name: &str, value: u64)
        ensures
            final(self)@ == old(self)@.push(
                (name@, crate::json::JsonValue::Integer(value as int)),
            ),
    {
        self.record(name, Json::Unsigned(value));
    }

    /// Adds an integer, or its text where it does not fit an `i64`.
    pub fn record_i128(&mut self, name: &str, value: i128)
        ensures
            final(self)@ == old(self)@.push((name@, i128_value(value))),
    {
        if i64::MIN as i128 <= value && value <= i64::MAX as i128 {
            self.record(name, Json::Integer(value as i64));
        } else {
            let mut shown = String::new();
            text::push_signed(&mut shown, value);
            assert(shown@ =~= text::signed_decimal(value as int));
            self.record(name, Json::Text(shown));
        }
    }

    /// Adds an integer, or its text where it does not fit a `u64`.
    pub fn record_u128(&mut self, name: &str, value: u128)
        ensures
            final(self)@ == old(self)@.push((name@, u128_value(value))),
    {
        if value <= u64::MAX as u128 {
            self.record(name, Json::Unsigned(value as u64));
        } else {
            let mut shown = String::new();
            text::push_decimal(&mut shown, value);
            assert(shown@ =~= text::decimal(value as nat));
            self.record(name, Json::Text(shown));
        }
    }

    /// Adds the real number with this bit pattern, or `null` where JSON has no
    /// form for it.
    pub fn record_f64(&mut self, name: &str, bits: u64)
        ensures
            final(self)@ == old(self)@.push((name@, crate::json::real_value(bits))),
    {
        self.record(name, real_to_json(bits));
    }

    /// Adds an error by its text.
    pub fn record_error(&mut self, name: &str, shown: String)
        ensures
            final(self)@ == old(self)@.push((name@, crate::json::JsonValue::Text(shown@))),
    {
        self.record(name, Json::Text(shown));
    }

    /// Adds any other value by its text.
    pub fn record_debug(&mut self, name: &str, shown: String)
        ensures
            final(self)@ == old(self)@.push((name@, crate::json::JsonValue::Text(shown@))),
    {
        self.record(name, Json::Text(shown));
    }
}

// ---------------------------------------------------------------------------
// Events
// ---------------------------------------------------------------------------

/// The time `nanos` nanoseconds after the start of 1970 in UTC, as the `time`
/// crate writes it by RFC 3339, where it can.
pub uninterp spec fn rfc3339_text(nanos: i128) -> Option<Seq<char>>;

/// `time::OffsetDateTime::format` with `Rfc3339`, of the time that
/// `OffsetDateTime::from_unix_timestamp_nanos` gives for `nanos`. `None` where
/// there is no such time or it cannot be written. How it is written is not
/// stated.
#[verifier::external_body]
fn rfc3339(nanos: i128) -> (written: Option<String>)
    ensures
        crate::settings::optional_text(written) == rfc3339_text(nanos),
{
    match time::OffsetDateTime::from_unix_timestamp_nanos(nanos) {
        Ok(moment) => match moment.format(&time::format_description::well_known::Rfc3339) {
            Ok(written) => Some(written),
            Err(_) => None,
        },
        Err(_) => None,
    }
}

/// Where an event comes from.
#[derive(Debug)]
pub struct JsonEventFormatter {
    service: String,
    environment: String,
}

/// What a [`JsonEventFormatter`] stands for.
pub ghost struct SourceView {
    pub service: Seq<char>,
    pub environment: Seq<char>,
}

impl View for JsonEventFormatter {
    type V = SourceView;

    closed spec fn view(&self) -> SourceView {
        SourceView { service: self.service@, environment: self.environment@ }
    }
}

impl Clone for JsonEventFormatter {
    fn clone(&self) -> (copy: Self)
        ensures
            copy@ == self@,
    {
        JsonEventFormatter { service: self.service.clone(), environment: self.environment.clone() }
    }
}

/// The members that every event has.
pub const REQUIRED_MEMBERS: [&'static str; 6] = [
    "timestamp",
    "level",
    "event",
    "logger",
    "service",
    "environment",
];

/// The `event` of an event without a message.
pub const NO_MESSAGE: &'static str = "(no message)";

/// What stands before the name of a field that is called like a required member.
pub const FIELD_PREFIX: &'static str = "field.";

/// The names of [`REQUIRED_MEMBERS`].
pub open spec fn required_names() -> Seq<Seq<char>> {
    seq!["timestamp"@, "level"@, "event"@, "logger"@, "service"@, "environment"@]
}

/// Whether `name` is that of a required member.
fn is_required(name: &str) -> (yes: bool)
    ensures
        yes == required_names().contains(name@),
{
    for i in 0..6usize
        invariant
            forall|j: int| 0 <= j < i ==> name@ != #[trigger] required_names()[j],
    {
        let required: &'static str = REQUIRED_MEMBERS[i];
        assert(required@ == required_names()[i as int]);
        if text::same(name, required) {
            return true;
        }
    }
    false
}

/// The required members of an event before its message is known.
pub open spec fn header_members(
    source: SourceView,
    timestamp: Option<Seq<char>>,
    level: LogLevel,
    logger: Seq<char>,
) -> Map<Seq<char>, crate::json::JsonValue> {
    Map::<Seq<char>, crate::json::JsonValue>::empty().insert(
        "timestamp"@,
        crate::json::JsonValue::Text(
            match timestamp {
                Some(t) => t,
                None => "unknown"@,
            },
        ),
    ).insert("level"@, crate::json::JsonValue::Text(level.name())).insert(
        "event"@,
        crate::json::JsonValue::Text(NO_MESSAGE@),
    ).insert(
        "logger"@,
        crate::json::JsonValue::Text(logger),
    ).insert("service"@, crate::json::JsonValue::Text(source.service)).insert(
        "environment"@,
        crate::json::JsonValue::Text(source.environment),
    )
}

/// The member that a field becomes: the message becomes `event`, a field called
/// like a required member gets another name, and of a sensitive field only the
/// name stays.
pub open spec fn member_of(
    field: (Seq<char>, crate::json::JsonValue),
) -> (Seq<char>, crate::json::JsonValue) {
    if field.0 == "message"@ {
        ("event"@, field.1)
    } else if required_names().contains(field.0) {
        (FIELD_PREFIX@ + field.0, field.1)
    } else if is_sensitive(field.0) {
        (field.0, crate::json::JsonValue::Text(REDACTED@))
    } else {
        field
    }
}

/// The members with those of the fields; of several with one name the last stays.
pub open spec fn with_fields(
    members: Map<Seq<char>, crate::json::JsonValue>,
    fields: Seq<(Seq<char>, crate::json::JsonValue)>,
) -> Map<Seq<char>, crate::json::JsonValue>
    decreases fields.len(),
{
    if fields.len() == 0 {
        members
    } else {
        with_fields(members, fields.drop_last()).insert(
            member_of(fields.last()).0,
            member_of(fields.last()).1,
        )
    }
}

/// The members of an event.
pub open spec fn event_members(
    source: SourceView,
    timestamp: Option<Seq<char>>,
    level: LogLevel,
    logger: Seq<char>,
    fields: Seq<(Seq<char>, crate::json::JsonValue)>,
) -> Map<Seq<char>, crate::json::JsonValue> {
    with_fields(header_members(source, timestamp, level, logger), fields)
}

impl JsonEventFormatter {
    /// Events of this service in this environment.
    pub fn new(service: String, environment: String) -> (formatter: Self)
        ensures
            formatter@ == (SourceView { service: service@, environment: environment@ }),
    {
        JsonEventFormatter { service, environment }
    }

    /// The object for an event `nanos` nanoseconds after the start of 1970.
    pub fn format_event(
        &self,
        nanos: i128,
        level: LogLevel,
        logger: &str,
        fields: &Vec<(String, Json)>,
    ) -> (event: JsonObject)
        ensures
            event@ == event_members(
                self@,
                rfc3339_text(nanos),
                level,
                logger@,
                field_views(fields@),
            ),
    {
        self.assemble(rfc3339(nanos), level, logger, fields)
    }

    /// The object for an event at the time `timestamp`, which is unknown where it
    /// could not be written.
    pub fn assemble(
        &self,
        timestamp: Option<String>,
        level: LogLevel,
        logger: &str,
        fields: &Vec<(String, Json)>,
    ) -> (event: JsonObject)
        ensures
            event@ == event_members(
                self@,
                crate::settings::optional_text(timestamp),
                level,
                logger@,
                field_views(fields@),
            ),
    {
        let ghost head = header_members(
            self@,
            crate::settings::optional_text(timestamp),
            level,
            logger@,
        );
        let ghost all = field_views(fields@);
        let mut event = JsonObject::new();
        let when = match timestamp {
            Some(t) => t,
            None => "unknown".to_owned(),
        };
        event.insert("timestamp".to_owned(), Json::Text(when));
        event.insert("level".to_owned(), Json::Text(level_name(level).to_owned()));
        event.insert("event".to_owned(), Json::Text(NO_MESSAGE.to_owned()));
        event.insert("logger".to_owned(), Json::Text(logger.to_owned()));
        event.insert("service".to_owned(), Json::Text(self.service.clone()));
        event.insert("environment".to_owned(), Json::Text(self.environment.clone()));
        for i in 0..fields.len()
            invariant
                all == field_views(fields@),
                event@ == with_fields(head, all.take(i as int)),
        {
            assert(all.take(i + 1).drop_last() == all.take(i as int));
            assert(all.take(i + 1).last() == (fields@[i as int].0@, fields@[i as int].1@));
            let name = fields[i].0.as_str();
            let value = fields[i].1.clone();
            if text::same(name, "message") {
                event.insert("event".to_owned(), value);
            } else if is_required(name) {
                let mut other = FIELD_PREFIX.to_owned();
                other.append(name);
                event.insert(other, value);
            } else if is_sensitive_field(name) {
                event.insert(name.to_owned(), Json::Text(REDACTED.to_owned()));
            } else {
                event.insert(name.to_owned(), value);
            }
        }
        assert(all.take(all.len() as int) == all);
        event
    }
}

// ---------------------------------------------------------------------------
// Laws
// ---------------------------------------------------------------------------

/// Whether a name is sensitive does not depend on letter case.
pub proof fn law_sensitivity_ignores_case(name: Seq<char>, other: Seq<char>)
    requires
        text::ascii_lower(name) == text::ascii_lower(other),
    ensures
        is_sensitive(name) == is_sensitive(other),
{
}

/// A name with a sensitive name in it is sensitive.
pub proof fn law_sensitivity_spreads(before: Seq<char>, name: Seq<char>, after: Seq<char>)
    requires
        is_sensitive(name),
    ensures
        is_sensitive(before + name + after),
{
    let lower = text::ascii_lower(name);
    let whole = text::ascii_lower(before + name + after);
    let i = choose|i: int|
        0 <= i < sensitive_names().len() && text::occurs_in(lower, #[trigger] sensitive_names()[i]);
    let needle = sensitive_names()[i];
    let at = choose|at: int| text::occurs_at(lower, needle, at);
    let n = before.len() as int;
    assert(whole.subrange(n + at, n + at + needle.len()) =~= lower.subrange(
        at,
        at + needle.len(),
    ));
    assert(text::occurs_at(whole, needle, n + at));
}

/// Neither the required members nor the message have sensitive names, and no
/// field called like a required member gets one.
proof fn lemma_own_names_are_not_sensitive()
    ensures
        !is_sensitive("message"@),
        forall|name: Seq<char>| #[trigger]
            required_names().contains(name) ==> !is_sensitive(name) && !is_sensitive(
                FIELD_PREFIX@ + name,
            ),
{
    lemma_message_is_not_sensitive();
    assert forall|name: Seq<char>| #[trigger] required_names().contains(
        name,
    ) implies !is_sensitive(name) && !is_sensitive(FIELD_PREFIX@ + name) by {
        lemma_required_name_is_not_sensitive(name);
        lemma_prefixed_name_is_not_sensitive(name);
    }
}

#[verifier::spinoff_prover]
proof fn lemma_message_is_not_sensitive()
    ensures
        !is_sensitive("message"@),
{
    reveal_strlit("message");
    lemma_not_sensitive("message"@);
}

#[verifier::spinoff_prover]
#[verifier::rlimit(40)]
proof fn lemma_required_name_is_not_sensitive(name: Seq<char>)
    requires
        required_names().contains(name),
    ensures
        !is_sensitive(name),
{
    reveal_strlit("timestamp");
    reveal_strlit("level");
    reveal_strlit("event");
    reveal_strlit("logger");
    reveal_strlit("service");
    reveal_strlit("environment");
    lemma_not_sensitive(name);
}

#[verifier::spinoff_prover]
#[verifier::rlimit(40)]
proof fn lemma_prefixed_name_is_not_sensitive(name: Seq<char>)
    requires
        required_names().contains(name),
    ensures
        !is_sensitive(FIELD_PREFIX@ + name),
{
    reveal_strlit("field.");
    reveal_strlit("timestamp");
    reveal_strlit("level");
    reveal_strlit("event");
    reveal_strlit("logger");
    reveal_strlit("service");
    reveal_strlit("environment");
    lemma_not_sensitive(FIELD_PREFIX@ + name);
}

/// Whether the letters `x` and `y` follow each other somewhere in `name`.
spec fn has_pair(name: Seq<char>, x: char, y: char) -> bool {
    exists|at: int| 0 <= at < name.len() - 1 && #[trigger] name[at] == x && name[at + 1] == y
}

/// A lower-case name is not sensitive where it lacks a pair of letters of every
/// sensitive name.
proof fn lemma_not_sensitive(name: Seq<char>)
    requires
        text::ascii_lower(name) =~= name,
        !has_pair(name, 'p', 'a'),
        !has_pair(name, 't', 'o'),
        !has_pair(name, 's', 'e') || !has_pair(name, 'e', 'c'),
        !has_pair(name, 's', 's') || !has_pair(name, 's', 'n'),
        !has_pair(name, 'e', 'm'),
        !has_pair(name, 'c', 'r'),
        !has_pair(name, 'a', 'u'),
        !has_pair(name, 'a', 'p'),
    ensures
        !is_sensitive(name),
{
    reveal_strlit("password");
    reveal_strlit("token");
    reveal_strlit("secret");
    reveal_strlit("ssn");
    reveal_strlit("email");
    reveal_strlit("credit_card");
    reveal_strlit("authorization");
    reveal_strlit("api_key");
    assert forall|i: int|
        0 <= i < sensitive_names().len() implies !text::occurs_in(
        name,
        #[trigger] sensitive_names()[i],
    ) by {
        let needle = sensitive_names()[i];
        if text::occurs_in(name, needle) {
            let at = choose|at: int| text::occurs_at(name, needle, at);
            let found = name.subrange(at, at + needle.len());
            assert(found[0] == name[at]);
            assert(found[1] == name[at + 1]);
            assert(found[2] == name[at + 2]);
            assert(has_pair(name, needle[0], needle[1]));
            assert(has_pair(name, needle[1], needle[2]));
        }
    }
}

/// Every member with a sensitive name says `[REDACTED]`, whatever the event was
/// logged with.
pub proof fn law_sensitive_values_are_redacted(
    source: SourceView,
    timestamp: Option<Seq<char>>,
    level: LogLevel,
    logger: Seq<char>,
    fields: Seq<(Seq<char>, crate::json::JsonValue)>,
    name: Seq<char>,
)
    requires
        event_members(source, timestamp, level, logger, fields).contains_key(name),
        is_sensitive(name),
    ensures
        event_members(source, timestamp, level, logger, fields)[name]
            == crate::json::JsonValue::Text(REDACTED@),
    decreases fields.len(),
{
    lemma_own_names_are_not_sensitive();
    lemma_required_names();
    if fields.len() > 0 && member_of(fields.last()).0 != name {
        law_sensitive_values_are_redacted(
            source,
            timestamp,
            level,
            logger,
            fields.drop_last(),
            name,
        );
    }
}

/// No event gives a sensitive value away: events that differ in the values of
/// sensitive fields alone have the same members.
pub proof fn law_sensitive_values_leave_no_trace(
    source: SourceView,
    timestamp: Option<Seq<char>>,
    level: LogLevel,
    logger: Seq<char>,
    fields: Seq<(Seq<char>, crate::json::JsonValue)>,
    others: Seq<(Seq<char>, crate::json::JsonValue)>,
)
    requires
        fields.len() == others.len(),
        forall|i: int|
            0 <= i < fields.len() ==> (#[trigger] fields[i]).0 == (#[trigger] others[i]).0,
        forall|i: int|
            0 <= i < fields.len() && !is_sensitive((#[trigger] fields[i]).0) ==> fields[i].1
                == others[i].1,
    ensures
        event_members(source, timestamp, level, logger, fields) == event_members(
            source,
            timestamp,
            level,
            logger,
            others,
        ),
    decreases fields.len(),
{
    if fields.len() > 0 {
        let shorter = fields.drop_last();
        assert forall|i: int|
            0 <= i < shorter.len() && !is_sensitive((#[trigger] shorter[i]).0) implies shorter[i].1
            == others.drop_last()[i].1 by {
            assert(shorter[i] == fields[i]);
        }
        law_sensitive_values_leave_no_trace(
            source,
            timestamp,
            level,
            logger,
            shorter,
            others.drop_last(),
        );
        lemma_own_names_are_not_sensitive();
        let last = fields.len() - 1;
        assert(fields[last] == fields.last());
        assert(others[last] == others.last());
    }
}

/// The required members have six different names, none of which a field called
/// otherwise gets.
proof fn lemma_required_names()
    ensures
        required_names().no_duplicates(),
        required_names().contains("timestamp"@),
        required_names().contains("level"@),
        required_names().contains("event"@),
        required_names().contains("logger"@),
        required_names().contains("service"@),
        required_names().contains("environment"@),
        forall|name: Seq<char>| !required_names().contains(#[trigger] (FIELD_PREFIX@ + name)),
{
    reveal_strlit("field.");
    reveal_strlit("timestamp");
    reveal_strlit("level");
    reveal_strlit("event");
    reveal_strlit("logger");
    reveal_strlit("service");
    reveal_strlit("environment");
    let names = required_names();
    assert(names[0] == "timestamp"@);
    assert(names[1] == "level"@);
    assert(names[2] == "event"@);
    assert(names[3] == "logger"@);
    assert(names[4] == "service"@);
    assert(names[5] == "environment"@);
    assert forall|i: int, j: int| 0 <= i < j < names.len() implies names[i] != names[j] by {
        assert(names[i].len() != names[j].len() || names[i][0] != names[j][0]);
    }
    assert forall|name: Seq<char>| !names.contains(#[trigger] (FIELD_PREFIX@ + name)) by {
        assert((FIELD_PREFIX@ + name)[0] == 'f');
    }
}

/// The message that an event was logged with: the last one, where there are several.
pub open spec fn message_of(
    fields: Seq<(Seq<char>, crate::json::JsonValue)>,
) -> Option<crate::json::JsonValue>
    decreases fields.len(),
{
    if fields.len() == 0 {
        None
    } else if fields.last().0 == "message"@ {
        Some(fields.last().1)
    } else {
        message_of(fields.drop_last())
    }
}

/// Every event has all the required members, and they say what they are for,
/// whatever fields it was logged with.
pub proof fn law_required_members(
    source: SourceView,
    timestamp: Option<Seq<char>>,
    level: LogLevel,
    logger: Seq<char>,
    fields: Seq<(Seq<char>, crate::json::JsonValue)>,
)
    ensures
        ({
            let event = event_members(source, timestamp, level, logger, fields);
            &&& event.contains_key("timestamp"@)
            &&& event["timestamp"@] == crate::json::JsonValue::Text(
                match timestamp {
                    Some(t) => t,
                    None => "unknown"@,
                },
            )
            &&& event.contains_key("level"@)
            &&& event["level"@] == crate::json::JsonValue::Text(level.name())
            &&& event.contains_key("event"@)
            &&& event["event"@] == match message_of(fields) {
                Some(message) => message,
                None => crate::json::JsonValue::Text(NO_MESSAGE@),
            }
            &&& event.contains_key("logger"@)
            &&& event["logger"@] == crate::json::JsonValue::Text(logger)
            &&& event.contains_key("service"@)
            &&& event["service"@] == crate::json::JsonValue::Text(source.service)
            &&& event.contains_key("environment"@)
            &&& event["environment"@] == crate::json::JsonValue::Text(source.environment)
        }),
    decreases fields.len(),
{
    lemma_required_names();
    let names = required_names();
    assert(names[0] == "timestamp"@ && names[1] == "level"@ && names[2] == "event"@ && names[3]
        == "logger"@ && names[4] == "service"@ && names[5] == "environment"@);
    if fields.len() > 0 {
        law_required_members(source, timestamp, level, logger, fields.drop_last());
    }
}

/// Every field is in the event, in the form that [`member_of`] gives it, unless a
/// later field becomes a member of the same name.
pub proof fn law_fields_are_kept(
    source: SourceView,
    timestamp: Option<Seq<char>>,
    level: LogLevel,
    logger: Seq<char>,
    fields: Seq<(Seq<char>, crate::json::JsonValue)>,
    i: int,
)
    requires
        0 <= i < fields.len(),
        forall|j: int|
            i < j < fields.len() ==> member_of(#[trigger] fields[j]).0 != member_of(fields[i]).0,
    ensures
        ({
            let event = event_members(source, timestamp, level, logger, fields);
            &&& event.contains_key(member_of(fields[i]).0)
            &&& event[member_of(fields[i]).0] == member_of(fields[i]).1
        }),
    decreases fields.len(),
{
    if i < fields.len() - 1 {
        let earlier = fields.drop_last();
        assert(earlier[i] == fields[i]);
        assert forall|j: int| i < j < earlier.len() implies member_of(#[trigger] earlier[j]).0
            != member_of(earlier[i]).0 by {
            assert(earlier[j] == fields[j]);
        }
        law_fields_are_kept(source, timestamp, level, logger, earlier, i);
        assert(fields[fields.len() - 1] == fields.last());
    }
}

/// A name is sensitive when one of eight words stands in it, in any letter case, and
/// not otherwise.
pub proof fn law_what_is_sensitive(name: Seq<char>)
    ensures
        is_sensitive(name) <==> {
            let lower = text::ascii_lower(name);
            ||| text::occurs_in(lower, "password"@)
            ||| text::occurs_in(lower, "token"@)
            ||| text::occurs_in(lower, "secret"@)
            ||| text::occurs_in(lower, "ssn"@)
            ||| text::occurs_in(lower, "email"@)
            ||| text::occurs_in(lower, "credit_card"@)
            ||| text::occurs_in(lower, "authorization"@)
            ||| text::occurs_in(lower, "api_key"@)
        },
{
    let names = sensitive_names();
    assert(names.len() == 8);
    assert(names[0] == "password"@ && names[1] == "token"@ && names[2] == "secret"@ && names[3]
        == "ssn"@ && names[4] == "email"@ && names[5] == "credit_card"@ && names[6]
        == "authorization"@ && names[7] == "api_key"@);
}

/// A field that is neither the message nor called like a required member keeps its
/// name, and its value too unless the name is sensitive; the message becomes
/// `event`; and a field called like a required member keeps its value and gets
/// `field.` before its name.
pub proof fn law_what_becomes_of_a_field(name: Seq<char>, value: crate::json::JsonValue)
    ensures
        ({
            let member = member_of((name, value));
            let like_required = name == "timestamp"@ || name == "level"@ || name == "event"@ || name
                == "logger"@ || name == "service"@ || name == "environment"@;
            &&& name == "message"@ ==> member == ("event"@, value)
            &&& like_required ==> member == ("field."@ + name, value)
            &&& name != "message"@ && !like_required && is_sensitive(name) ==> member == (
                name,
                crate::json::JsonValue::Text("[REDACTED]"@),
            )
            &&& name != "message"@ && !like_required && !is_sensitive(name) ==> member == (
                name,
                value,
            )
        }),
{
    lemma_required_names();
    let names = required_names();
    assert(names.len() == 6);
    assert(names[0] == "timestamp"@ && names[1] == "level"@ && names[2] == "event"@ && names[3]
        == "logger"@ && names[4] == "service"@ && names[5] == "environment"@);
    reveal_strlit("message");
    reveal_strlit("timestamp");
    reveal_strlit("level");
    reveal_strlit("event");
    reveal_strlit("logger");
    reveal_strlit("service");
    reveal_strlit("environment");
    assert("message"@.len() == 7 && "timestamp"@.len() == 9 && "level"@.len() == 5
        && "event"@.len() == 5 && "logger"@.len() == 6 && "service"@.len() == 7
        && "environment"@.len() == 11);
    assert("message"@[0] != "service"@[0]);
}

/// An event has no other members than the required ones and those that its fields
/// become.
pub proof fn law_members_come_from_fields(
    source: SourceView,
    timestamp: Option<Seq<char>>,
    level: LogLevel,
    logger: Seq<char>,
    fields: Seq<(Seq<char>, crate::json::JsonValue)>,
    name: Seq<char>,
)
    requires
        event_members(source, timestamp, level, logger, fields).contains_key(name),
        name != "timestamp"@ && name != "level"@ && name != "event"@ && name != "logger"@ && name
            != "service"@ && name != "environment"@,
    ensures
        exists|i: int| 0 <= i < fields.len() && member_of(#[trigger] fields[i]).0 == name,
    decreases fields.len(),
{
    if fields.len() > 0 {
        assert(fields[fields.len() - 1] == fields.last());
        if member_of(fields.last()).0 != name {
            let earlier = fields.drop_last();
            law_members_come_from_fields(source, timestamp, level, logger, earlier, name);
            let i = choose|i: int|
                0 <= i < earlier.len() && member_of(#[trigger] earlier[i]).0 == name;
            assert(fields[i] == earlier[i]);
        }
    }
}

/// An event without fields says when and where it comes from, how grave it is, and
/// that there is no message.
pub proof fn law_bare_event(
    source: SourceView,
    timestamp: Option<Seq<char>>,
    level: LogLevel,
    logger: Seq<char>,
)
    ensures
        event_members(source, timestamp, level, logger, Seq::empty()) == Map::<
            Seq<char>,
            crate::json::JsonValue,
        >::empty().insert(
            "timestamp"@,
            crate::json::JsonValue::Text(
                match timestamp {
                    Some(t) => t,
                    None => "unknown"@,
                },
            ),
        ).insert(
            "level"@,
            crate::json::JsonValue::Text(
                match level {
                    LogLevel::Error => "ERROR"@,
                    LogLevel::Warn => "WARNING"@,
                    LogLevel::Info => "INFO"@,
                    LogLevel::Debug => "DEBUG"@,
                    LogLevel::Trace => "TRACE"@,
                },
            ),
        ).insert("event"@, crate::json::JsonValue::Text("(no message)"@)).insert(
            "logger"@,
            crate::json::JsonValue::Text(logger),
        ).insert("service"@, crate::json::JsonValue::Text(source.service)).insert(
            "environment"@,
            crate::json::JsonValue::Text(source.environment),
        ),
{
}

/// A duration is given in full, unless it exceeds what a `u64` can hold.
pub proof fn law_durations_saturate(millis: u128)
    ensures
        saturated(millis) <= millis,
        millis <= 0xffff_ffff_ffff_ffff ==> saturated(millis) == millis,
        millis > 0xffff_ffff_ffff_ffff ==> saturated(millis) == 0xffff_ffff_ffff_ffff,
{
}

/// An integer is logged as the number that it is where JSON numbers reach so far,
/// and else as a text that reads back as that number.
pub proof fn law_integers_are_logged_in_full(signed: i128, unsigned: u128)
    ensures
        -0x8000_0000_0000_0000 <= signed <= 0x7fff_ffff_ffff_ffff ==> i128_value(signed)
            == crate::json::JsonValue::Integer(signed as int),
        !(-0x8000_0000_0000_0000 <= signed <= 0x7fff_ffff_ffff_ffff) ==> (i128_value(
            signed,
        ) matches crate::json::JsonValue::Text(shown) && text::parsed_integer(shown) == Some(
            signed as int,
        )),
        unsigned <= 0xffff_ffff_ffff_ffff ==> u128_value(unsigned)
            == crate::json::JsonValue::Integer(unsigned as int),
        unsigned > 0xffff_ffff_ffff_ffff ==> (u128_value(
            unsigned,
        ) matches crate::json::JsonValue::Text(shown) && text::parsed_natural(shown) == Some(
            unsigned as nat,
        )),
{
    text::law_numbers_read_back(unsigned as nat, signed as int);
}

/// The fields are looked at as they are.
pub proof fn law_view_of_fields(fields: Seq<(String, Json)>, visitor: JsonVisitor)
    ensures
        field_views(fields).len() == fields.len(),
        forall|i: int|
            0 <= i < fields.len() ==> (#[trigger] field_views(fields)[i]).0 == fields[i].0@
                && field_views(fields)[i].1 == fields[i].1@,
        visitor@ == field_views(visitor.fields@),
{
}

/// A field is recorded behind those before it, with its name and its value.
pub proof fn law_fields_are_recorded(
    visitor: &mut JsonVisitor,
    name: &str,
    text: &str,
    shown: String,
    yes: bool,
    signed: i64,
    unsigned: u64,
    long: i128,
    longest: u128,
    made: JsonVisitor,
)
    ensures
        call_ensures(JsonVisitor::new, (), made) ==> made@.len() == 0,
        call_ensures(JsonVisitor::record_str, (visitor, name, text), ()) ==> final(visitor)@ == old(visitor)@.push((name@, crate::json::JsonValue::Text(text@))),
        call_ensures(JsonVisitor::record_bool, (visitor, name, yes), ()) ==> final(visitor)@ == old(visitor)@.push((name@, crate::json::JsonValue::Bool(yes))),
        call_ensures(JsonVisitor::record_i64, (visitor, name, signed), ()) ==> final(visitor)@
            == old(visitor)@.push((name@, crate::json::JsonValue::Integer(signed as int))),
        call_ensures(JsonVisitor::record_u64, (visitor, name, unsigned), ()) ==> final(visitor)@
            == old(visitor)@.push((name@, crate::json::JsonValue::Integer(unsigned as int))),
        call_ensures(JsonVisitor::record_i128, (visitor, name, long), ()) ==> final(visitor)@
            == old(visitor)@.push((name@, i128_value(long))),
        call_ensures(JsonVisitor::record_u128, (visitor, name, longest), ()) ==> final(visitor)@
            == old(visitor)@.push((name@, u128_value(longest))),
        call_ensures(JsonVisitor::record_f64, (visitor, name, unsigned), ()) ==> final(visitor)@
            == old(visitor)@.push((name@, crate::json::real_value(unsigned))),
        call_ensures(JsonVisitor::record_error, (visitor, name, shown), ()) ==> final(visitor)@
            == old(visitor)@.push((name@, crate::json::JsonValue::Text(shown@))),
        call_ensures(JsonVisitor::record_debug, (visitor, name, shown), ()) ==> final(visitor)@
            == old(visitor)@.push((name@, crate::json::JsonValue::Text(shown@))),
{
}

/// A formatter puts its service and its environment into every event, beside the
/// time, the level, the logger and the fields that it is given.
pub proof fn law_formatted_events(
    service: String,
    environment: String,
    formatter: JsonEventFormatter,
    nanos: i128,
    timestamp: Option<String>,
    level: LogLevel,
    logger: &str,
    fields: Vec<(String, Json)>,
    event: JsonObject,
)
    requires
        call_ensures(JsonEventFormatter::new, (service, environment), formatter),
    ensures
        ({
            let source = SourceView { service: service@, environment: environment@ };
            let all = field_views(fields@);
            &&& call_ensures(
                JsonEventFormatter::assemble,
                (&formatter, timestamp, level, logger, &fields),
                event,
            ) ==> event@ == event_members(
                source,
                match timestamp {
                    Some(t) => Some(t@),
                    None => None,
                },
                level,
                logger@,
                all,
            )
            &&& call_ensures(
                JsonEventFormatter::format_event,
                (&formatter, nanos, level, logger, &fields),
                event,
            ) ==> event@ == event_members(source, rfc3339_text(nanos), level, logger@, all)
        }),
{
}

/// What is asked about single names, levels and durations.
pub proof fn law_names_levels_and_durations(
    name: &str,
    yes: bool,
    level: LogLevel,
    shown: &'static str,
    millis: u128,
    ms: u64,
)
    ensures
        call_ensures(is_sensitive_field, (name,), yes) ==> yes == is_sensitive(name@),
        call_ensures(level_name, (level,), shown) ==> shown@ == match level {
            LogLevel::Error => "ERROR"@,
            LogLevel::Warn => "WARNING"@,
            LogLevel::Info => "INFO"@,
            LogLevel::Debug => "DEBUG"@,
            LogLevel::Trace => "TRACE"@,
        },
        call_ensures(saturated_ms, (millis,), ms) ==> ms == if millis <= 0xffff_ffff_ffff_ffff {
            millis
        } else {
            0xffff_ffff_ffff_ffff
        },
{
}

} // verus!
