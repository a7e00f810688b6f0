//! Per-platform texts and decisions: the autostart entries (XDG desktop
//! file, LaunchAgent plist, registry Run value), and the single-instance
//! lockfile. The files, registry and processes are handled by the caller.
use vstd::prelude::*;
use vstd::string::*;
use crate::smolvm::strings_view;
use crate::text::{append_decimal, chars_of, decimal, trim, trim_str};

verus! {

broadcast use vstd::seq_lib::group_seq_properties;

/// Windows named mutex of the single instance.
pub const MUTEX_NAME: &'static str = "smolvm-tray-v2";

/// Registry key that holds the autostart value.
pub const RUN_KEY: &'static str = "HKCU\\Software\\Microsoft\\Windows\\CurrentVersion\\Run";

/// Registry value name of the autostart entry.
pub const RUN_VALUE: &'static str = "smolvm-tray";

/// LaunchAgent plist, relative to the home directory.
pub const PLIST_PATH: &'static str = "Library/LaunchAgents/com.smolvm.tray.plist";

/// LaunchAgent label.
pub const PLIST_LABEL: &'static str = "com.smolvm.tray";

/// File name of the single-instance lock.
pub const LOCK_NAME: &'static str = "smolvm-tray.lock";

/// How characters of the executable path are escaped in an autostart entry.
#[derive(Debug, Clone, Copy, PartialEq, Eq, Structural)]
pub enum Escape {
    /// A desktop-entry `Exec` value: `"` becomes `\"`.
    Quotes,
    /// XML text: `&`, `<`, `>` become entities.
    Xml,
}

/// The escaped form of one character.
pub open spec fn escape_char(c: char, style: Escape) -> Seq<char> {
    match style {
        Escape::Quotes => if c == '"' {
            seq!['\\', '"']
        } else {
            seq![c]
        },
        Escape::Xml => if c == '&' {
            "&amp;"@
        } else if c == '<' {
            "&lt;"@
        } else if c == '>' {
            "&gt;"@
        } else {
            seq![c]
        },
    }
}

/// `s` with every character escaped.
pub open spec fn escaped(s: Seq<char>, style: Escape) -> Seq<char>
    decreases s.len(),
{
    if s.len() == 0 {
        Seq::empty()
    } else {
        escaped(s.drop_last(), style) + escape_char(s.last(), style)
    }
}

/// `s` with every character escaped in `style`.
pub fn escape(s: &str, style: Escape) -> (t: String)
    ensures
        t@ == escaped(s@, style),
{
    let cs = chars_of(s);
    let n = cs.len();
    let mut t = String::new();
    let mut i: usize = 0;
    while i < n
        invariant
            cs@ == s@,
            n == cs.len(),
            i <= n,
            t@ == escaped(s@.subrange(0, i as int), style),
        decreases n - i,
    {
        let c = cs[i];
        let ghost before = t@;
        match style {
            Escape::Quotes => {
                if c == '"' {
                    proof {
                        reveal_strlit("\\\"");
                    }
                    t.append("\\\"");
                } else {
                    t.append(s.substring_char(i, i + 1));
                }
            },
            Escape::Xml => {
                if c == '&' {
                    t.append("&amp;");
                } else if c == '<' {
                    t.append("&lt;");
                } else if c == '>' {
                    t.append("&gt;");
                } else {
                    t.append(s.substring_char(i, i + 1));
                }
            },
        }
        proof {
            let p = s@.subrange(0, i + 1);
            assert(p.drop_last() =~= s@.subrange(0, i as int));
            assert(p.last() == c);
            assert(s@.subrange(i as int, i + 1) =~= seq![c]);
            assert(t@ =~= before + escape_char(c, style));
        }
        i = i + 1;
    }
    assert(s@.subrange(0, n as int) =~= s@);
    t
}

/// The XDG autostart desktop entry that starts `exe`.
pub open spec fn spec_desktop_entry(exe: Seq<char>) -> Seq<char> {
    "[Desktop Entry]\nType=Application\nName=smolvm-tray\nComment=smolvm kite VM tray\nExec=\""@
        + escaped(exe, Escape::Quotes) + "\"\nTerminal=false\nX-GNOME-Autostart-enabled=true\n"@
}

/// The XDG autostart desktop entry that starts `exe`.
pub fn desktop_entry(exe: &str) -> (t: String)
    ensures
        t@ == spec_desktop_entry(exe@),
{
    let mut t = String::from_str(
        "[Desktop Entry]\nType=Application\nName=smolvm-tray\nComment=smolvm kite VM tray\nExec=\"",
    );
    let e = escape(exe, Escape::Quotes);
    t.append(e.as_str());
    t.append("\"\nTerminal=false\nX-GNOME-Autostart-enabled=true\n");
    t
}

/// The LaunchAgent plist that starts `exe` at login.
pub open spec fn spec_launch_agent(exe: Seq<char>) -> Seq<char> {
    "<?xml version=\"1.0\" encoding=\"UTF-8\"?>\n<!DOCTYPE plist PUBLIC \"-//Apple//DTD PLIST 1.0//EN\" \"http://www.apple.com/DTDs/PropertyList-1.0.dtd\">\n<plist version=\"1.0\">\n<dict>\n\t<key>Label</key><string>"@
        + PLIST_LABEL@
        + "</string>\n\t<key>ProgramArguments</key>\n\t<array>\n\t\t<string>"@
        + escaped(exe, Escape::Xml)
        + "</string>\n\t</array>\n\t<key>RunAtLoad</key><true/>\n\t<key>ProcessType</key><string>Interactive</string>\n</dict>\n</plist>\n"@
}

/// The LaunchAgent plist that starts `exe` at login.
pub fn launch_agent(exe: &str) -> (t: String)
    ensures
        t@ == spec_launch_agent(exe@),
{
    let mut t = String::from_str(
        "<?xml version=\"1.0\" encoding=\"UTF-8\"?>\n<!DOCTYPE plist PUBLIC \"-//Apple//DTD PLIST 1.0//EN\" \"http://www.apple.com/DTDs/PropertyList-1.0.dtd\">\n<plist version=\"1.0\">\n<dict>\n\t<key>Label</key><string>",
    );
    t.append(PLIST_LABEL);
    t.append("</string>\n\t<key>ProgramArguments</key>\n\t<array>\n\t\t<string>");
    let e = escape(exe, Escape::Xml);
    t.append(e.as_str());
    t.append(
        "</string>\n\t</array>\n\t<key>RunAtLoad</key><true/>\n\t<key>ProcessType</key><string>Interactive</string>\n</dict>\n</plist>\n",
    );
    t
}

fn owned_all(parts: &Vec<&str>) -> (v: Vec<String>)
    ensures
        strings_view(v@) == parts@.map_values(|s: &str| s@),
{
    let mut v: Vec<String> = Vec::new();
    let mut i: usize = 0;
    while i < parts.len()
        invariant
            i <= parts.len(),
            strings_view(v@) =~= parts@.subrange(0, i as int).map_values(|s: &str| s@),
        decreases parts.len() - i,
    {
        let ghost before = v@;
        v.push(String::from_str(parts[i]));
        assert(strings_view(v@) =~= strings_view(before).push(parts@[i as int]@));
        i = i + 1;
        assert(parts@.subrange(0, i as int).map_values(|s: &str| s@) =~= parts@.subrange(
            0,
            i - 1,
        ).map_values(|s: &str| s@).push(parts@[i - 1]@));
    }
    assert(parts@.subrange(0, parts@.len() as int) =~= parts@);
    v
}

/// `reg query <Run key> /v smolvm-tray`: succeeds when autostart is on.
pub fn reg_query_args() -> (v: Vec<String>)
    ensures
        strings_view(v@) == seq!["query"@, RUN_KEY@, "/v"@, RUN_VALUE@],
{
    let parts = vec!["query", RUN_KEY, "/v", RUN_VALUE];
    let v = owned_all(&parts);
    assert(parts@.map_values(|s: &str| s@) =~= seq!["query"@, RUN_KEY@, "/v"@, RUN_VALUE@]);
    v
}

/// `reg add <Run key> /v smolvm-tray /t REG_SZ /d`, followed by the
/// executable path and `/f`.
pub fn reg_add_args() -> (v: Vec<String>)
    ensures
        strings_view(v@) == seq!["add"@, RUN_KEY@, "/v"@, RUN_VALUE@, "/t"@, "REG_SZ"@, "/d"@],
{
    let parts = vec!["add", RUN_KEY, "/v", RUN_VALUE, "/t", "REG_SZ", "/d"];
    let v = owned_all(&parts);
    assert(parts@.map_values(|s: &str| s@) =~= seq![
        "add"@,
        RUN_KEY@,
        "/v"@,
        RUN_VALUE@,
        "/t"@,
        "REG_SZ"@,
        "/d"@,
    ]);
    v
}

/// `reg delete <Run key> /v smolvm-tray /f`.
pub fn reg_delete_args() -> (v: Vec<String>)
    ensures
        strings_view(v@) == seq!["delete"@, RUN_KEY@, "/v"@, RUN_VALUE@, "/f"@],
{
    let parts = vec!["delete", RUN_KEY, "/v", RUN_VALUE, "/f"];
    let v = owned_all(&parts);
    assert(parts@.map_values(|s: &str| s@) =~= seq!["delete"@, RUN_KEY@, "/v"@, RUN_VALUE@, "/f"@]);
    v
}

/// The content of the lockfile: the holder's process id and a newline.
pub fn lock_contents(pid: u32) -> (t: String)
    ensures
        t@ == decimal(pid as nat) + seq!['\n'],
{
    let mut t = String::new();
    append_decimal(&mut t, pid as u64);
    proof {
        reveal_strlit("\n");
    }
    t.append("\n");
    t
}

/// Whether `c` is an ASCII decimal digit.
pub open spec fn is_digit(c: char) -> bool {
    48 <= (c as u32) && (c as u32) <= 57
}

/// The value of a string of decimal digits.
pub open spec fn digits_value(s: Seq<char>) -> nat
    decreases s.len(),
{
    if s.len() == 0 {
        0
    } else {
        digits_value(s.drop_last()) * 10 + ((s.last() as u32) - 48) as nat
    }
}

/// `s` without one leading `+`.
pub open spec fn unsigned_body(s: Seq<char>) -> Seq<char> {
    if s.len() > 0 && s[0] == '+' {
        s.drop_first()
    } else {
        s
    }
}

/// Every character of `s` is a decimal digit.
pub open spec fn all_digits(s: Seq<char>) -> bool {
    forall|i: int| 0 <= i < s.len() ==> is_digit(#[trigger] s[i])
}

/// What `str::parse::<u32>` gives: an optional `+`, then one or more
/// decimal digits whose value fits in 32 bits.
pub open spec fn spec_parse_u32(s: Seq<char>) -> Option<u32> {
    let body = unsigned_body(s);
    if body.len() > 0 && all_digits(body) && digits_value(body) <= u32::MAX {
        Some(digits_value(body) as u32)
    } else {
        None
    }
}

proof fn lemma_digits_value_grows(s: Seq<char>, k: int)
    requires
        0 <= k <= s.len(),
        forall|i: int| 0 <= i < s.len() ==> is_digit(#[trigger] s[i]),
    ensures
        digits_value(s.subrange(0, k)) <= digits_value(s),
    decreases s.len() - k,
{
    if k < s.len() {
        lemma_digits_value_grows(s, k + 1);
        let p = s.subrange(0, k + 1);
        assert(p.drop_last() =~= s.subrange(0, k));
    } else {
        assert(s.subrange(0, k) =~= s);
    }
}

/// The process id a lockfile holds: the trimmed content parsed as `u32`.
pub fn parse_pid(content: &str) -> (r: Option<u32>)
    ensures
        r == spec_parse_u32(trim(content@)),
{
    let t = trim_str(content);
    let cs = chars_of(t);
    let n = cs.len();
    let start: usize = if n > 0 && cs[0] == '+' {
        1
    } else {
        0
    };
    let ghost body = unsigned_body(t@);
    assert(body =~= t@.subrange(start as int, n as int));
    if start >= n {
        return None;
    }
    let mut acc: u64 = 0;
    let mut i: usize = start;
    while i < n
        invariant
            cs@ == t@,
            t@ == trim(content@),
            n == cs.len(),
            start <= i <= n,
            body == t@.subrange(start as int, n as int),
            body == unsigned_body(t@),
            body.len() > 0,
            acc == digits_value(t@.subrange(start as int, i as int)),
            acc <= u32::MAX,
            forall|k: int| start <= k < i ==> is_digit(#[trigger] cs@[k]),
        decreases n - i,
    {
        let c = cs[i];
        let u = c as u32;
        if u < 48 || u > 57 {
            proof {
                assert(body[i - start] == cs@[i as int]);
                assert(!is_digit(body[i - start]));
                assert(!all_digits(body));
                assert(spec_parse_u32(t@) is None);
            }
            return None;
        }
        let next = acc * 10 + (u - 48) as u64;
        proof {
            let p = t@.subrange(start as int, i + 1);
            assert(p.drop_last() =~= t@.subrange(start as int, i as int));
            assert(p.last() == c);
        }
        if next > u32::MAX as u64 {
            proof {
                let p = t@.subrange(start as int, i + 1);
                assert forall|k: int| 0 <= k < p.len() implies is_digit(#[trigger] p[k]) by {
                    assert(p[k] == cs@[start + k]);
                }
                assert(digits_value(p) == next);
                if all_digits(body) {
                    lemma_digits_value_grows(body, i + 1 - start);
                    assert(body.subrange(0, i + 1 - start) =~= p);
                    assert(digits_value(body) > u32::MAX);
                }
                assert(spec_parse_u32(t@) is None);
            }
            return None;
        }
        acc = next;
        i = i + 1;
    }
    proof {
        assert forall|k: int| 0 <= k < body.len() implies is_digit(#[trigger] body[k]) by {
            assert(body[k] == cs@[start + k]);
        }
        assert(all_digits(body));
        assert(t@.subrange(start as int, n as int) == body);
    }
    Some(acc as u32)
}

/// A lockfile is stale (its holder is gone) when its process id cannot be
/// read, or the process with that id is not alive. `alive` is only
/// consulted when an id was read.
pub fn lock_is_stale(pid: Option<u32>, alive: bool) -> (b: bool)
    ensures
        b == match pid {
            Some(_) => !alive,
            None => true,
        },
{
    match pid {
        Some(_) => !alive,
        None => true,
    }
}

} // verus!
