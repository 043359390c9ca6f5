use slf4j_bridge::adapter::{classify_call, CallOutcome};
use slf4j_bridge::format::{format_message, u32_to_string};
use slf4j_bridge::level::{Level, SLF4JLogLevel};
use slf4j_bridge::{finish_initialization, set_max_level_from_slf4j_level, LogRecord};

const ALL_HOST_LEVELS: [SLF4JLogLevel; 5] = [
    SLF4JLogLevel::Trace,
    SLF4JLogLevel::Debug,
    SLF4JLogLevel::Info,
    SLF4JLogLevel::Warn,
    SLF4JLogLevel::Error,
];

const ALL_LEVELS: [Level; 5] = [
    Level::Trace,
    Level::Debug,
    Level::Info,
    Level::Warn,
    Level::Error,
];

#[test]
fn encode_decode_round_trip() {
    for host in ALL_HOST_LEVELS {
        assert_eq!(SLF4JLogLevel::from_int(host.to_int()), Ok(host));
    }
}

#[test]
fn decode_encode_round_trip() {
    for wire in [0, 10, 20, 30, 40] {
        let host = SLF4JLogLevel::from_int(wire).unwrap();
        assert_eq!(host.to_int(), wire);
    }
}

#[test]
fn level_mapping_is_a_bijection() {
    for level in ALL_LEVELS {
        assert_eq!(SLF4JLogLevel::of_level(level).to_level(), level);
    }
    for host in ALL_HOST_LEVELS {
        assert_eq!(SLF4JLogLevel::of_level(host.to_level()), host);
    }
}

#[test]
fn wire_encoding_is_exact() {
    assert_eq!(SLF4JLogLevel::Trace.to_int(), 0);
    assert_eq!(SLF4JLogLevel::Debug.to_int(), 10);
    assert_eq!(SLF4JLogLevel::Info.to_int(), 20);
    assert_eq!(SLF4JLogLevel::Warn.to_int(), 30);
    assert_eq!(SLF4JLogLevel::Error.to_int(), 40);
}

#[test]
fn unrecognized_integers_are_rejected() {
    for wire in [-1, 1, 5, 9, 11, 25, 39, 41, 100, i32::MIN, i32::MAX] {
        assert_eq!(SLF4JLogLevel::from_int(wire), Err(()));
    }
}

#[test]
fn unrecognized_integers_fall_back() {
    for wire in [-1, 7, 41, i32::MAX] {
        assert_eq!(
            SLF4JLogLevel::decode_or(wire, SLF4JLogLevel::Warn),
            SLF4JLogLevel::Warn
        );
        assert_eq!(
            SLF4JLogLevel::decode_or(wire, SLF4JLogLevel::Info),
            SLF4JLogLevel::Info
        );
    }
    assert_eq!(
        SLF4JLogLevel::decode_or(40, SLF4JLogLevel::Info),
        SLF4JLogLevel::Error
    );
}

#[test]
fn method_names() {
    assert_eq!(SLF4JLogLevel::Trace.method_name(), "trace");
    assert_eq!(SLF4JLogLevel::Debug.method_name(), "debug");
    assert_eq!(SLF4JLogLevel::Info.method_name(), "info");
    assert_eq!(SLF4JLogLevel::Warn.method_name(), "warn");
    assert_eq!(SLF4JLogLevel::Error.method_name(), "error");
}

#[test]
fn decimal_rendering() {
    assert_eq!(u32_to_string(0), "0");
    assert_eq!(u32_to_string(7), "7");
    assert_eq!(u32_to_string(42), "42");
    assert_eq!(u32_to_string(305), "305");
    assert_eq!(u32_to_string(u32::MAX), "4294967295");
}

fn record(level: Level, file: Option<&str>, line: Option<u32>, message: &str) -> LogRecord {
    LogRecord {
        level,
        file: file.map(|f| f.to_string()),
        line,
        message: message.to_string(),
    }
}

#[test]
fn error_record_with_file_and_line() {
    let r = record(Level::Error, Some("mod.rs"), Some(42), "x");
    assert_eq!(format_message(&r), "mod.rs:42: x");
}

#[test]
fn error_record_with_file_only() {
    let r = record(Level::Error, Some("mod.rs"), None, "x");
    assert_eq!(format_message(&r), "mod.rs: x");
}

#[test]
fn error_record_without_location() {
    let r = record(Level::Error, None, Some(42), "x");
    assert_eq!(format_message(&r), "x");
}

#[test]
fn non_error_records_pass_through() {
    for level in [Level::Trace, Level::Debug, Level::Info, Level::Warn] {
        let r = record(level, Some("mod.rs"), Some(42), "x");
        assert_eq!(format_message(&r), "x");
    }
}

#[test]
fn classify_call_truth_table() {
    assert_eq!(classify_call(true, false), CallOutcome::Delivered);
    assert_eq!(classify_call(true, true), CallOutcome::LostToException);
    assert_eq!(classify_call(false, true), CallOutcome::LostToException);
    assert_eq!(classify_call(false, false), CallOutcome::BoundaryError);
}

#[test]
fn set_max_level_stores_decoded_level() {
    set_max_level_from_slf4j_level(0);
    assert_eq!(log::max_level(), log::LevelFilter::Trace);
    set_max_level_from_slf4j_level(40);
    assert_eq!(log::max_level(), log::LevelFilter::Error);
}

#[test]
fn set_max_level_falls_back_to_warn() {
    set_max_level_from_slf4j_level(99);
    assert_eq!(log::max_level(), log::LevelFilter::Warn);
    set_max_level_from_slf4j_level(-3);
    assert_eq!(log::max_level(), log::LevelFilter::Warn);
}

#[test]
fn initialization_announces_itself() {
    let (level, message) = finish_initialization(true, 20, true, "bridge", "1.2.3");
    assert_eq!(level, Level::Info);
    assert_eq!(message, "Initializing bridge version:1.2.3");
    assert_eq!(log::max_level(), log::LevelFilter::Info);
}

#[test]
fn duplicate_initialization_warns_without_error() {
    let (level, message) = finish_initialization(false, 0, false, "bridge", "1.2.3");
    assert_eq!(level, Level::Warn);
    assert_eq!(message, "Duplicate logger initialization ignored for bridge");
}
