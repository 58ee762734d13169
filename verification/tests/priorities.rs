use notcat_client::{AndroidLogPriority, LogPriority};

#[test]
fn log_priority_wire_values() {
    assert_eq!(LogPriority::Verbose.to_wire(), 0);
    assert_eq!(LogPriority::Debug.to_wire(), 1);
    assert_eq!(LogPriority::Info.to_wire(), 2);
    assert_eq!(LogPriority::Warn.to_wire(), 3);
    assert_eq!(LogPriority::Error.to_wire(), 4);
}

#[test]
fn log_priority_from_code() {
    assert_eq!(LogPriority::from_code(0), LogPriority::Verbose);
    assert_eq!(LogPriority::from_code(1), LogPriority::Debug);
    assert_eq!(LogPriority::from_code(2), LogPriority::Info);
    assert_eq!(LogPriority::from_code(3), LogPriority::Warn);
    assert_eq!(LogPriority::from_code(4), LogPriority::Error);
}

#[test]
fn unknown_codes_read_as_verbose() {
    for code in [-1, 5, 6, 100, i32::MIN, i32::MAX] {
        assert_eq!(LogPriority::from_code(code), LogPriority::Verbose);
    }
}

#[test]
fn priority_code_round_trip() {
    for p in [
        LogPriority::Verbose,
        LogPriority::Debug,
        LogPriority::Info,
        LogPriority::Warn,
        LogPriority::Error,
    ] {
        assert_eq!(LogPriority::from_code(p.to_wire() as i32), p);
    }
}

#[test]
fn android_levels() {
    assert_eq!(AndroidLogPriority::Unknown.to_level(), 0);
    assert_eq!(AndroidLogPriority::Default.to_level(), 1);
    assert_eq!(AndroidLogPriority::Verbose.to_level(), 2);
    assert_eq!(AndroidLogPriority::Debug.to_level(), 3);
    assert_eq!(AndroidLogPriority::Info.to_level(), 4);
    assert_eq!(AndroidLogPriority::Warn.to_level(), 5);
    assert_eq!(AndroidLogPriority::Error.to_level(), 6);
    assert_eq!(AndroidLogPriority::Fatal.to_level(), 7);
    assert_eq!(AndroidLogPriority::Silent.to_level(), 8);
}
