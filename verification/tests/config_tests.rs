use smolvm_tray::config::{
    autostart_on_launch, first_hit, http_probe_enabled, pack_file, resolve_smolvm, str_equal,
    PackSource, SmolvmSource, WINDOWS_DEFAULT_SMOLVM,
};

#[test]
fn windows_default_absolute() {
    assert!(WINDOWS_DEFAULT_SMOLVM.starts_with("D:\\"));
}

#[test]
fn probe_env_defaults() {
    assert!(http_probe_enabled(None));
    assert!(autostart_on_launch(None));
}

#[test]
fn probe_kind_switches_only_on_tcp() {
    assert!(!http_probe_enabled(Some("tcp")));
    assert!(http_probe_enabled(Some("TCP")));
    assert!(http_probe_enabled(Some("http")));
    assert!(http_probe_enabled(Some("")));
}

#[test]
fn autostart_skipped_only_on_one() {
    assert!(!autostart_on_launch(Some("1")));
    assert!(autostart_on_launch(Some("0")));
    assert!(autostart_on_launch(Some("true")));
}

#[test]
fn smolvm_resolution_order() {
    assert_eq!(resolve_smolvm(true, true, true, true, true), SmolvmSource::Env);
    assert_eq!(resolve_smolvm(false, true, true, true, true), SmolvmSource::ExeDir);
    assert_eq!(resolve_smolvm(false, false, true, true, true), SmolvmSource::ExeDirExe);
    assert_eq!(resolve_smolvm(false, false, false, true, true), SmolvmSource::WindowsDefault);
    assert_eq!(resolve_smolvm(false, false, false, false, true), SmolvmSource::PathScan);
    assert_eq!(resolve_smolvm(false, false, false, false, false), SmolvmSource::BareName);
}

#[test]
fn path_scan_takes_first_hit() {
    assert_eq!(first_hit(&vec![false, true, true]), Some(1));
    assert_eq!(first_hit(&vec![false, false]), None);
    assert_eq!(first_hit(&vec![]), None);
}

#[test]
fn pack_resolution_order() {
    assert_eq!(pack_file(true, true), Some(PackSource::Env));
    assert_eq!(pack_file(false, true), Some(PackSource::BesideExe));
    assert_eq!(pack_file(false, false), None);
}

#[test]
fn string_equality() {
    assert!(str_equal("kite", "kite"));
    assert!(!str_equal("kite", "kit"));
    assert!(!str_equal("服务", "服台"));
}

#[test]
fn smol_path_resolves() {
    assert_eq!(resolve_smolvm(false, false, false, false, false), SmolvmSource::BareName);
}
