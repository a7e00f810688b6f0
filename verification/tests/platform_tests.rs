use smolvm_tray::platform::{
    desktop_entry, escape, launch_agent, lock_contents, lock_is_stale, parse_pid, reg_add_args,
    reg_delete_args, reg_query_args, Escape, LOCK_NAME, MUTEX_NAME,
};

#[test]
fn desktop_entry_escapes_quotes() {
    assert_eq!(
        desktop_entry("/opt/my \"tray\"/smolvm-tray"),
        "[Desktop Entry]\nType=Application\nName=smolvm-tray\nComment=smolvm kite VM tray\nExec=\"/opt/my \\\"tray\\\"/smolvm-tray\"\nTerminal=false\nX-GNOME-Autostart-enabled=true\n"
    );
}

#[test]
fn launch_agent_escapes_xml() {
    let p = launch_agent("/Apps/A&B <x>/tray");
    assert!(p.contains("<string>/Apps/A&amp;B &lt;x&gt;/tray</string>"));
    assert!(p.contains("<key>Label</key><string>com.smolvm.tray</string>"));
    assert!(p.starts_with("<?xml version=\"1.0\" encoding=\"UTF-8\"?>\n"));
    assert!(p.ends_with("</dict>\n</plist>\n"));
    assert_eq!(escape("a&<>\"", Escape::Xml), "a&amp;&lt;&gt;\"");
    assert_eq!(escape("a&\"", Escape::Quotes), "a&\\\"");
}

#[test]
fn registry_arguments() {
    let key = "HKCU\\Software\\Microsoft\\Windows\\CurrentVersion\\Run";
    assert_eq!(reg_query_args(), ["query", key, "/v", "smolvm-tray"]);
    assert_eq!(reg_add_args(), ["add", key, "/v", "smolvm-tray", "/t", "REG_SZ", "/d"]);
    assert_eq!(reg_delete_args(), ["delete", key, "/v", "smolvm-tray", "/f"]);
    assert_eq!(MUTEX_NAME, "smolvm-tray-v2");
}

#[test]
fn lockfile_content_roundtrip() {
    assert_eq!(lock_contents(4242), "4242\n");
    assert_eq!(parse_pid(&lock_contents(4242)), Some(4242));
    assert_eq!(LOCK_NAME, "smolvm-tray.lock");
}

#[test]
fn pid_parsing_follows_u32_parse() {
    assert_eq!(parse_pid("99999999\n"), Some(99999999));
    assert_eq!(parse_pid("  +17 "), Some(17));
    assert_eq!(parse_pid("4294967295"), Some(u32::MAX));
    assert_eq!(parse_pid("4294967296"), None);
    assert_eq!(parse_pid("-1"), None);
    assert_eq!(parse_pid("+"), None);
    assert_eq!(parse_pid(""), None);
    assert_eq!(parse_pid("12a"), None);
    for s in ["7", " 0042\n", "+9", "x", "99999999999"] {
        assert_eq!(parse_pid(s), s.trim().parse::<u32>().ok());
    }
}

#[test]
fn stale_lock_decision() {
    assert!(lock_is_stale(None, true));
    assert!(lock_is_stale(Some(99999999), false));
    assert!(!lock_is_stale(Some(1), true));
}
