//! Configuration from environment variables.

use rustyhip::db::DbSettings;
use rustyhip::json::Json;
use rustyhip::logging::LogLevel;
use rustyhip::settings::{
    auth_token, bucket, cache_dir, config_knobs, db_name, endpoint_url, environment, filter_in,
    init_logging, is_human_format, log_filter, log_format, log_level, parse_checkpoint_mode, parse_journal_mode,
    parse_synchronous, parse_temp_store, region, rejected_knobs, rejection_reason,
    use_path_style_s3,
    CheckpointMode, ConfigKnobs, EnvVars, JournalMode, LogOutput, Synchronous, TempStore, KNOB_NAMES,
};

fn env(vars: &[(&str, &str)]) -> EnvVars {
    EnvVars { vars: vars.iter().map(|(n, v)| ((*n).to_owned(), (*v).to_owned())).collect() }
}

#[test]
fn unset_variables_give_the_defaults() {
    let none = env(&[]);
    assert_eq!(region(&none), "ap-northeast-1");
    assert_eq!(cache_dir(&none), "/tmp/rustyhip-cache");
    assert_eq!(environment(&none), "development");
    assert_eq!(log_format(&none), "json");
    assert_eq!(log_level(&none), "info");
    assert_eq!(auth_token(&none), None);
    assert_eq!(endpoint_url(&none), None);
    assert!(!use_path_style_s3(&none));
    assert_eq!(bucket(&none), Err("BUCKET env var not set".to_owned()));
    assert_eq!(db_name(&none), Err("DB_NAME env var not set".to_owned()));
}

#[test]
fn set_variables_are_read() {
    let vars = env(&[
        ("BUCKET", "b"),
        ("DB_NAME", "d"),
        ("DB_CACHE_DIR", "/c"),
        ("ENVIRONMENT", "prod"),
        ("LOG_FORMAT", "Pretty"),
        ("LOG_LEVEL", "debug"),
        ("RUSTYHIP_AUTH_TOKEN", "t"),
        ("BUCKET", "shadowed"),
    ]);
    assert_eq!(bucket(&vars), Ok("b".to_owned()));
    assert_eq!(db_name(&vars), Ok("d".to_owned()));
    assert_eq!(cache_dir(&vars), "/c");
    assert_eq!(environment(&vars), "prod");
    assert_eq!(log_format(&vars), "Pretty");
    assert_eq!(log_level(&vars), "debug");
    assert_eq!(auth_token(&vars), Some("t".to_owned()));
}

#[test]
fn the_aws_region_comes_first() {
    assert_eq!(region(&env(&[("REGION", "r"), ("AWS_REGION", "a")])), "a");
    assert_eq!(region(&env(&[("REGION", "r")])), "r");
}

#[test]
fn an_empty_token_is_no_token() {
    assert_eq!(auth_token(&env(&[("RUSTYHIP_AUTH_TOKEN", "")])), None);
    assert_eq!(auth_token(&env(&[("RUSTYHIP_AUTH_TOKEN", " ")])), Some(" ".to_owned()));
}

#[test]
fn either_endpoint_asks_for_path_style() {
    let both = env(&[("AWS_ENDPOINT_URL_S3", "s"), ("AWS_ENDPOINT_URL", "e")]);
    assert_eq!(endpoint_url(&both), Some("e".to_owned()));
    let s3 = env(&[("AWS_ENDPOINT_URL_S3", "s")]);
    assert_eq!(endpoint_url(&s3), Some("s".to_owned()));
    assert!(use_path_style_s3(&s3));
    assert!(use_path_style_s3(&both));
}

#[test]
fn the_first_valid_filter_is_used() {
    let filter = |rust_log: Option<&str>, rust_log_valid, level_valid| {
        log_filter(
            rust_log.map(str::to_owned),
            rust_log_valid,
            "warn".to_owned(),
            level_valid,
        )
    };
    assert_eq!(filter(Some("debug"), true, true), "debug");
    assert_eq!(filter(Some("debug"), true, false), "debug");
    assert_eq!(filter(Some("=="), false, true), "warn");
    assert_eq!(filter(Some("=="), false, false), "info");
    assert_eq!(filter(None, false, true), "warn");
    assert_eq!(filter(None, true, false), "info");
}

#[test]
fn the_filter_comes_from_the_first_variable_that_is_one() {
    let filter = |vars: &[(&str, &str)]| filter_in(&env(vars));
    assert_eq!(filter(&[]), "info");
    assert_eq!(filter(&[("LOG_LEVEL", "warn")]), "warn");
    assert_eq!(filter(&[("LOG_LEVEL", "warn"), ("RUST_LOG", "a=debug,b")]), "a=debug,b");
    assert_eq!(filter(&[("LOG_LEVEL", "warn"), ("RUST_LOG", "a=loud")]), "warn");
    assert_eq!(filter(&[("LOG_LEVEL", "a=loud"), ("RUST_LOG", "==")]), "info");
    assert_eq!(filter(&[("LOG_LEVEL", "warn"), ("RUST_LOG", "")]), "");
    assert_eq!(filter(&[("RUST_LOG", "[span{field=1}]=debug")]), "[span{field=1}]=debug");
}

#[test]
fn filters_are_read_as_the_parser_reads_them() {
    for text in [
        "", "info", "INFO", "5", "off", "a", "a=info", "a=", "a=loud", "=info", "a::b=trace,warn",
        ",", "a,,b", " a", " info", "a =info", " a=info", "[s]", "[s]=debug", "[s{f}]", "[s{}]",
        "[s{f=(}]=info", "[s{f=a.*}]=info", "]", "é", "é=info", "é=info ", "[é]=info", " é",
        "a, é", "a,é=info",
    ] {
        let reads = tracing_subscriber::EnvFilter::try_new(text).is_ok();
        let expected = if reads { text } else { "error" };
        assert_eq!(
            filter_in(&env(&[("RUST_LOG", text), ("LOG_LEVEL", "error")])),
            expected,
            "{text:?}"
        );
    }
}

#[test]
fn filters_that_the_parser_cannot_be_given_are_passed_over() {
    for text in [" é=info", "a=info, é=info", "\u{3000}a=info", " [aé]", "\u{a0}[a]=info,b"] {
        let vars = env(&[("RUST_LOG", text), ("LOG_LEVEL", text)]);
        assert_eq!(filter_in(&vars), "info", "{text:?}");
    }
}

#[test]
fn logging_starts_once_and_as_the_environment_asks() {
    let vars = env(&[("LOG_FORMAT", "JSON"), ("ENVIRONMENT", "prod"), ("LOG_LEVEL", "debug")]);
    assert!(init_logging(true, &vars).is_none());
    let setup = init_logging(false, &vars).expect("the first call");
    assert_eq!(setup.filter, "debug");
    match setup.output {
        LogOutput::Json(formatter) => {
            let event = formatter.assemble(None, LogLevel::Info, "x", &vec![]);
            assert_eq!(event.get("service"), Some(&Json::Text("rustyhip".to_owned())));
            assert_eq!(event.get("environment"), Some(&Json::Text("prod".to_owned())));
        }
        LogOutput::Text => panic!("structured output was asked for"),
    }
    for format in ["pretty", "Text", "HUMAN"] {
        let setup = init_logging(false, &env(&[("LOG_FORMAT", format)])).expect("the first call");
        assert!(matches!(setup.output, LogOutput::Text), "{format}");
        assert_eq!(setup.filter, "info");
    }
    let setup = init_logging(false, &env(&[])).expect("the first call");
    assert!(matches!(setup.output, LogOutput::Json(_)));
}

#[test]
fn rejected_knobs_have_a_reason() {
    let vars = env(&[
        ("RUSTYHIP_SYNCHRONOUS", " Maybe "),
        ("RUSTYHIP_JOURNAL_MODE", "X"),
        ("RUSTYHIP_TEMP_STORE", "y"),
        ("RUSTYHIP_CHECKPOINT_MODE", "z"),
        ("RUSTYHIP_MAX_ROWS", "-1"),
        ("RUSTYHIP_MMAP_SIZE", "5"),
    ]);
    let reason = |name: &str| rejection_reason(&vars, name);
    assert_eq!(reason("RUSTYHIP_SYNCHRONOUS"), Some("unknown synchronous mode 'maybe'".into()));
    assert_eq!(reason("RUSTYHIP_JOURNAL_MODE"), Some("unknown journal mode 'x'".into()));
    assert_eq!(reason("RUSTYHIP_TEMP_STORE"), Some("unknown temp_store 'y'".into()));
    assert_eq!(reason("RUSTYHIP_CHECKPOINT_MODE"), Some("unknown checkpoint mode 'z'".into()));
    assert_eq!(
        reason("RUSTYHIP_MAX_ROWS"),
        Some("not an integer that the setting can have".into())
    );
    assert_eq!(reason("RUSTYHIP_MMAP_SIZE"), None);
    assert_eq!(reason("RUSTYHIP_MAX_BODY_BYTES"), None);
    assert_eq!(reason("PATH"), None);
}

#[test]
fn human_formats_are_told_apart() {
    assert!(is_human_format("pretty"));
    assert!(is_human_format("TEXT"));
    assert!(is_human_format("Human"));
    assert!(!is_human_format("json"));
    assert!(!is_human_format(""));
    assert!(!is_human_format("pretty "));
}

#[test]
fn words_name_modes() {
    assert_eq!(parse_synchronous("OFF"), Ok(Synchronous::Off));
    assert_eq!(parse_synchronous("0"), Ok(Synchronous::Off));
    assert_eq!(parse_synchronous("Normal"), Ok(Synchronous::Normal));
    assert_eq!(parse_synchronous("1"), Ok(Synchronous::Normal));
    assert_eq!(parse_synchronous("full"), Ok(Synchronous::Full));
    assert_eq!(parse_synchronous("2"), Ok(Synchronous::Full));
    assert_eq!(parse_synchronous("extra"), Ok(Synchronous::Extra));
    assert_eq!(parse_synchronous("3"), Ok(Synchronous::Extra));
    assert_eq!(parse_synchronous("Sometimes"), Err("unknown synchronous mode 'sometimes'".into()));
    assert_eq!(parse_journal_mode("delete"), Ok(JournalMode::Delete));
    assert_eq!(parse_journal_mode("truncate"), Ok(JournalMode::Truncate));
    assert_eq!(parse_journal_mode("persist"), Ok(JournalMode::Persist));
    assert_eq!(parse_journal_mode("memory"), Ok(JournalMode::Memory));
    assert_eq!(parse_journal_mode("WAL"), Ok(JournalMode::Wal));
    assert_eq!(parse_journal_mode("off"), Ok(JournalMode::Off));
    assert_eq!(parse_journal_mode("X"), Err("unknown journal mode 'x'".into()));
    assert_eq!(parse_temp_store("default"), Ok(TempStore::Default));
    assert_eq!(parse_temp_store("0"), Ok(TempStore::Default));
    assert_eq!(parse_temp_store("file"), Ok(TempStore::File));
    assert_eq!(parse_temp_store("1"), Ok(TempStore::File));
    assert_eq!(parse_temp_store("memory"), Ok(TempStore::Memory));
    assert_eq!(parse_temp_store("2"), Ok(TempStore::Memory));
    assert_eq!(parse_temp_store("Mem"), Ok(TempStore::Memory));
    assert_eq!(parse_temp_store("X"), Err("unknown temp_store 'x'".into()));
    assert_eq!(parse_checkpoint_mode("truncate"), Ok(CheckpointMode::Truncate));
    assert_eq!(parse_checkpoint_mode("restart"), Ok(CheckpointMode::Restart));
    assert_eq!(parse_checkpoint_mode("full"), Ok(CheckpointMode::Full));
    assert_eq!(parse_checkpoint_mode("passive"), Ok(CheckpointMode::Passive));
    assert_eq!(parse_checkpoint_mode("OFF"), Ok(CheckpointMode::Off));
    assert_eq!(parse_checkpoint_mode("skip"), Ok(CheckpointMode::Off));
    assert_eq!(parse_checkpoint_mode("none"), Ok(CheckpointMode::Off));
    assert_eq!(parse_checkpoint_mode("X"), Err("unknown checkpoint mode 'x'".into()));
}

#[test]
fn words_of_pragmas_read_back() {
    for mode in [Synchronous::Off, Synchronous::Normal, Synchronous::Full, Synchronous::Extra] {
        assert_eq!(parse_synchronous(mode.as_pragma()), Ok(mode));
    }
    for mode in [
        JournalMode::Delete,
        JournalMode::Truncate,
        JournalMode::Persist,
        JournalMode::Memory,
        JournalMode::Wal,
        JournalMode::Off,
    ] {
        assert_eq!(parse_journal_mode(mode.as_pragma()), Ok(mode));
    }
    for store in [TempStore::Default, TempStore::File, TempStore::Memory] {
        assert_eq!(parse_temp_store(store.as_pragma()), Ok(store));
    }
    assert_eq!(CheckpointMode::Off.as_pragma_arg(), None);
    assert_eq!(CheckpointMode::Truncate.as_pragma_arg(), Some("TRUNCATE"));
    assert_eq!(CheckpointMode::Restart.as_pragma_arg(), Some("RESTART"));
    assert_eq!(CheckpointMode::Full.as_pragma_arg(), Some("FULL"));
    assert_eq!(CheckpointMode::Passive.as_pragma_arg(), Some("PASSIVE"));
    assert_eq!(CheckpointMode::default(), CheckpointMode::Truncate);
}

#[test]
fn knobs_are_read() {
    let vars = env(&[
        ("RUSTYHIP_SYNCHRONOUS", " normal "),
        ("RUSTYHIP_JOURNAL_MODE", "wal"),
        ("RUSTYHIP_PAGE_CACHE_KB", "-4096"),
        ("RUSTYHIP_MMAP_SIZE", "+268435456"),
        ("RUSTYHIP_TEMP_STORE", "memory"),
        ("RUSTYHIP_BUSY_TIMEOUT_MS", "4294967295"),
        ("RUSTYHIP_MAX_ROWS", "1000"),
        ("RUSTYHIP_QUERY_TIMEOUT_MS", "18446744073709551615"),
        ("RUSTYHIP_MAX_BODY_BYTES", "007"),
        ("RUSTYHIP_CHECKPOINT_MODE", "passive"),
    ]);
    let knobs = config_knobs(&vars);
    assert_eq!(knobs.synchronous, Some(Synchronous::Normal));
    assert_eq!(knobs.journal_mode, Some(JournalMode::Wal));
    assert_eq!(knobs.page_cache_kb, Some(-4096));
    assert_eq!(knobs.mmap_size, Some(268_435_456));
    assert_eq!(knobs.temp_store, Some(TempStore::Memory));
    assert_eq!(knobs.busy_timeout_ms, Some(u32::MAX));
    assert_eq!(knobs.max_rows, Some(1000));
    assert_eq!(knobs.query_timeout_ms, Some(u64::MAX));
    assert_eq!(knobs.max_body_bytes, Some(7));
    assert_eq!(knobs.checkpoint_mode, CheckpointMode::Passive);
    assert!(rejected_knobs(&vars).is_empty());
    let settings = DbSettings::from_knobs(&knobs);
    assert_eq!(settings.synchronous, knobs.synchronous);
    assert_eq!(settings.journal_mode, knobs.journal_mode);
    assert_eq!(settings.page_cache_kb, knobs.page_cache_kb);
    assert_eq!(settings.mmap_size, knobs.mmap_size);
    assert_eq!(settings.temp_store, knobs.temp_store);
    assert_eq!(settings.busy_timeout_ms, knobs.busy_timeout_ms);
    assert_eq!(settings.max_rows, knobs.max_rows);
    assert_eq!(settings.query_timeout_ms, knobs.query_timeout_ms);
}

#[test]
fn bad_values_count_as_unset() {
    let vars = env(&[
        ("RUSTYHIP_SYNCHRONOUS", "maybe"),
        ("RUSTYHIP_JOURNAL_MODE", " "),
        ("RUSTYHIP_PAGE_CACHE_KB", "9223372036854775808"),
        ("RUSTYHIP_MMAP_SIZE", "1e6"),
        ("RUSTYHIP_TEMP_STORE", "3"),
        ("RUSTYHIP_BUSY_TIMEOUT_MS", "4294967296"),
        ("RUSTYHIP_MAX_ROWS", "-1"),
        ("RUSTYHIP_QUERY_TIMEOUT_MS", "18446744073709551616"),
        ("RUSTYHIP_MAX_BODY_BYTES", "+"),
        ("RUSTYHIP_CHECKPOINT_MODE", "never"),
    ]);
    let knobs = config_knobs(&vars);
    assert_eq!(knobs.synchronous, None);
    assert_eq!(knobs.journal_mode, None);
    assert_eq!(knobs.page_cache_kb, None);
    assert_eq!(knobs.mmap_size, None);
    assert_eq!(knobs.temp_store, None);
    assert_eq!(knobs.busy_timeout_ms, None);
    assert_eq!(knobs.max_rows, None);
    assert_eq!(knobs.query_timeout_ms, None);
    assert_eq!(knobs.max_body_bytes, None);
    assert_eq!(knobs.checkpoint_mode, CheckpointMode::Truncate);
    assert_eq!(rejected_knobs(&vars), KNOB_NAMES.to_vec());
}

#[test]
fn empty_values_are_not_worth_a_warning() {
    let vars = env(&[("RUSTYHIP_SYNCHRONOUS", ""), ("RUSTYHIP_MAX_ROWS", "")]);
    assert!(rejected_knobs(&vars).is_empty());
    assert_eq!(config_knobs(&vars).max_rows, None);
}

#[test]
fn no_knob_gives_the_default_knobs() {
    let knobs = config_knobs(&env(&[("PATH", "/bin")]));
    let default = ConfigKnobs::default();
    assert_eq!(format!("{knobs:?}"), format!("{default:?}"));
    assert_eq!(default.checkpoint_mode, CheckpointMode::Truncate);
}

#[test]
fn zero_means_no_limit() {
    let vars = env(&[
        ("RUSTYHIP_MAX_ROWS", "0"),
        ("RUSTYHIP_QUERY_TIMEOUT_MS", "0"),
        ("RUSTYHIP_MAX_BODY_BYTES", "00"),
        ("RUSTYHIP_BUSY_TIMEOUT_MS", "0"),
    ]);
    let knobs = config_knobs(&vars);
    assert_eq!(knobs.max_rows, None);
    assert_eq!(knobs.query_timeout_ms, None);
    assert_eq!(knobs.max_body_bytes, None);
    assert_eq!(knobs.busy_timeout_ms, Some(0));
    assert!(rejected_knobs(&vars).is_empty());
}
