use ffmpeg_log_bridge::severity::{level_index, Level, Severity};

#[test]
fn boundary_codes_map_by_division_and_clamp() {
    let codes = [-1, 0, 7, 8, 63, 64, 10000];
    let levels = [0u8, 0, 0, 1, 7, 7, 7];
    for (c, l) in codes.iter().zip(levels.iter()) {
        assert_eq!(level_index(*c), *l, "code {}", c);
    }
}

#[test]
fn extreme_codes_are_clamped() {
    assert_eq!(level_index(i32::MIN), 0);
    assert_eq!(level_index(i32::MAX), 7);
    assert_eq!(level_index(-8), 0);
}

#[test]
fn each_multiple_of_eight_gives_its_level() {
    let all = [
        Level::Panic,
        Level::Fatal,
        Level::Error,
        Level::Warning,
        Level::Info,
        Level::Verbose,
        Level::Debug,
        Level::Trace,
    ];
    for (i, l) in all.iter().enumerate() {
        let code = (i as i32) * 8;
        assert_eq!(Level::from_code(code), *l);
        assert_eq!(Level::from_code(code + 7), *l);
    }
}

#[test]
fn tags_name_each_level() {
    assert_eq!(Level::Panic.tag(), "PANIC");
    assert_eq!(Level::Fatal.tag(), "FATAL");
    assert_eq!(Level::Error.tag(), "ERROR");
    assert_eq!(Level::Warning.tag(), " WARN");
    assert_eq!(Level::Info.tag(), " INFO");
    assert_eq!(Level::Verbose.tag(), " VERB");
    assert_eq!(Level::Debug.tag(), "DEBUG");
    assert_eq!(Level::Trace.tag(), "TRACE");
}

#[test]
fn levels_map_onto_logger_severities() {
    assert_eq!(Level::Panic.severity(), Severity::Error);
    assert_eq!(Level::Fatal.severity(), Severity::Error);
    assert_eq!(Level::Error.severity(), Severity::Error);
    assert_eq!(Level::Warning.severity(), Severity::Warning);
    assert_eq!(Level::Info.severity(), Severity::Info);
    assert_eq!(Level::Verbose.severity(), Severity::Debug);
    assert_eq!(Level::Debug.severity(), Severity::Debug);
    assert_eq!(Level::Trace.severity(), Severity::Debug);
}
