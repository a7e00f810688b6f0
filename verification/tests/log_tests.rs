use smolvm_tray::log::{hms, stamp, utc_clock, Logger, MAX_BYTES};

#[test]
fn hms_roundtrip() {
    assert_eq!(hms(3661), (1, 1, 1));
    assert_eq!(hms(0), (0, 0, 0));
    assert_eq!(hms(86399), (23, 59, 59));
}

#[test]
fn hms_wraps_at_midnight() {
    assert_eq!(hms(86400), (0, 0, 0));
    assert_eq!(hms(86400 * 365 + 45296), (12, 34, 56));
}

#[test]
fn utc_clock_is_zero_padded() {
    assert_eq!(utc_clock(3661), "01:01:01Z");
    assert_eq!(utc_clock(86399), "23:59:59Z");
    assert_eq!(utc_clock(0), "00:00:00Z");
}

#[test]
fn stamp_pads_millis_to_three_digits() {
    assert_eq!(stamp("12:00:01", 7), "12:00:01.007");
    assert_eq!(stamp("12:00:01", 42), "12:00:01.042");
    assert_eq!(stamp("12:00:01", 999), "12:00:01.999");
}

#[test]
fn line_layout() {
    let log = Logger::new("/tmp/t.log".to_string());
    assert_eq!(log.path(), "/tmp/t.log");
    assert_eq!(log.line("10:00:00.000", "hello"), "10:00:00.000 hello\n");
}

#[test]
fn rotation_threshold_is_256k() {
    assert_eq!(MAX_BYTES, 262144);
    assert!(!Logger::needs_rotation(262143));
    assert!(Logger::needs_rotation(262144));
    assert!(Logger::needs_rotation(1 << 20));
}

#[test]
fn log_folder_is_the_parent() {
    let f = |p: &str, w: bool| Logger::new(p.to_string()).folder(w);
    assert_eq!(f("/home/u/.local/state/smolvm-tray/smolvm-tray.log", false), "/home/u/.local/state/smolvm-tray");
    assert_eq!(f("/smolvm-tray.log", false), "/");
    assert_eq!(f("smolvm-tray.log", false), "");
    assert_eq!(f("a//b/", false), "a");
    assert_eq!(f("/", false), ".");
    assert_eq!(f("", false), ".");
    assert_eq!(f("C:\\Temp\\smolvm-tray.log", true), "C:\\Temp");
    assert_eq!(f("C:\\Temp\\smolvm-tray.log", false), "");
    for p in ["/home/u/x/t.log", "/t.log", "t.log", "a//b/", "/", "rel/dir/t.log"] {
        let std_parent = std::path::Path::new(p).parent().map(|q| q.to_str().unwrap().to_string());
        assert_eq!(f(p, false), std_parent.unwrap_or_else(|| ".".to_string()));
    }
}
