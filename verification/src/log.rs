//! Append-only log: line layout, timestamps, and the rotation threshold.
//! The file itself is written by the caller.
use vstd::prelude::*;
use vstd::string::*;
use crate::text::{append_padded, chars_of, padded};

verus! {

/// Size at which the log file is rotated to `<log>.old`.
pub const MAX_BYTES: u64 = 256 * 1024;

/// The application log, identified by its file path.
#[derive(Clone)]
pub struct Logger {
    path: String,
}

impl Logger {
    /// The path of the log file.
    pub closed spec fn spec_path(&self) -> Seq<char> {
        self.path@
    }

    /// A logger writing to `path`.
    pub fn new(path: String) -> (l: Logger)
        ensures
            l.spec_path() == path@,
    {
        Logger { path }
    }

    /// The path of the log file.
    pub fn path(&self) -> (p: &String)
        ensures
            p@ == self.spec_path(),
    {
        &self.path
    }

    /// The text that one log line appends: the stamp, a space, the message and a newline.
    pub fn line(&self, stamp: &str, msg: &str) -> (t: String)
        ensures
            t@ == stamp@ + seq![' '] + msg@ + seq!['\n'],
    {
        let mut t = String::from_str(stamp);
        proof {
            reveal_strlit(" ");
            reveal_strlit("\n");
        }
        t.append(" ");
        t.append(msg);
        t.append("\n");
        t
    }

    /// The folder the "open logs" action opens: the parent of the log path,
    /// or `.` when the path has none (see `spec_folder`). `windows` says
    /// whether `\\` separates path components too.
    pub fn folder(&self, windows: bool) -> (f: String)
        ensures
            f@ == spec_folder(self.spec_path(), windows),
    {
        let p = self.path.as_str();
        let cs = chars_of(p);
        let n = cs.len();
        let mut e: usize = n;
        while e > 0 && is_separator(cs[e - 1], windows)
            invariant
                cs@ == p@,
                n == cs.len(),
                e <= n,
                forall|k: int| e <= k < n ==> is_sep(#[trigger] cs@[k], windows),
            decreases e,
        {
            e = e - 1;
        }
        let ghost t = p@.subrange(0, e as int);
        proof {
            lemma_strip_prefix(p@, e as int, windows);
            if e > 0 {
                assert(t.last() == cs@[e - 1]);
            }
            assert(strip_trailing(t, windows) == t);
        }
        if e == 0 {
            proof {
                reveal_strlit(".");
            }
            return String::from_str(".");
        }
        let mut d: usize = e;
        while d > 0 && !is_separator(cs[d - 1], windows)
            invariant
                cs@ == p@,
                n == cs.len(),
                d <= e <= n,
                t == p@.subrange(0, e as int),
                forall|k: int| d <= k < e ==> !is_sep(#[trigger] cs@[k], windows),
            decreases d,
        {
            d = d - 1;
        }
        let ghost dd = p@.subrange(0, d as int);
        proof {
            assert forall|k: int| d <= k < t.len() implies !is_sep(#[trigger] t[k], windows) by {
                assert(t[k] == cs@[k]);
            }
            lemma_drop_prefix(t, d as int, windows);
            assert(t.subrange(0, d as int) =~= dd);
            if d > 0 {
                assert(dd.last() == cs@[d - 1]);
            }
            assert(drop_component(dd, windows) == dd);
        }
        if d == 0 {
            return String::new();
        }
        let mut h: usize = d;
        while h > 0 && is_separator(cs[h - 1], windows)
            invariant
                cs@ == p@,
                n == cs.len(),
                h <= d <= n,
                dd == p@.subrange(0, d as int),
                forall|k: int| h <= k < d ==> is_sep(#[trigger] cs@[k], windows),
            decreases h,
        {
            h = h - 1;
        }
        proof {
            assert forall|k: int| h <= k < dd.len() implies is_sep(#[trigger] dd[k], windows) by {
                assert(dd[k] == cs@[k]);
            }
            lemma_strip_prefix(dd, h as int, windows);
            let hh = dd.subrange(0, h as int);
            assert(hh =~= p@.subrange(0, h as int));
            if h > 0 {
                assert(hh.last() == cs@[h - 1]);
            }
            assert(strip_trailing(hh, windows) == hh);
            assert(dd.subrange(0, 1) =~= p@.subrange(0, 1));
        }
        if h == 0 {
            String::from_str(p.substring_char(0, 1))
        } else {
            String::from_str(p.substring_char(0, h))
        }
    }

    /// Whether a log file of `len` bytes is rotated before the next append.
    pub fn needs_rotation(len: u64) -> (b: bool)
        ensures
            b == (len >= MAX_BYTES),
    {
        len >= MAX_BYTES
    }
}

/// `c` separates path components: `/`, and also `\\` on Windows.
pub open spec fn is_sep(c: char, windows: bool) -> bool {
    c == '/' || (windows && c == '\\')
}

/// Exec form of `is_sep`.
pub fn is_separator(c: char, windows: bool) -> (b: bool)
    ensures
        b == is_sep(c, windows),
{
    c == '/' || (windows && c == '\\')
}

/// `s` without its trailing separators.
pub open spec fn strip_trailing(s: Seq<char>, windows: bool) -> Seq<char>
    decreases s.len(),
{
    if s.len() > 0 && is_sep(s.last(), windows) {
        strip_trailing(s.drop_last(), windows)
    } else {
        s
    }
}

/// `s` without its last component: everything up to and including the last
/// separator (empty when there is none).
pub open spec fn drop_component(s: Seq<char>, windows: bool) -> Seq<char>
    decreases s.len(),
{
    if s.len() > 0 && !is_sep(s.last(), windows) {
        drop_component(s.drop_last(), windows)
    } else {
        s
    }
}

/// The folder of log path `p`, as `Path::parent` gives it, with `.` when the
/// path has no parent (it is empty or a root): trailing separators are
/// ignored, the last component is removed with the separators before it, a
/// leading root separator is kept, and a bare file name gives the empty
/// path. This is the parent that `Path::parent` computes for paths without
/// `.`/`..` components and without a Windows drive prefix.
pub open spec fn spec_folder(p: Seq<char>, windows: bool) -> Seq<char> {
    let t = strip_trailing(p, windows);
    if t.len() == 0 {
        "."@
    } else {
        let d = drop_component(t, windows);
        if d.len() == 0 {
            Seq::empty()
        } else {
            let h = strip_trailing(d, windows);
            if h.len() == 0 {
                d.subrange(0, 1)
            } else {
                h
            }
        }
    }
}

proof fn lemma_strip_prefix(s: Seq<char>, e: int, windows: bool)
    requires
        0 <= e <= s.len(),
        forall|k: int| e <= k < s.len() ==> is_sep(#[trigger] s[k], windows),
    ensures
        strip_trailing(s, windows) == strip_trailing(s.subrange(0, e), windows),
    decreases s.len(),
{
    if e < s.len() {
        assert(s.drop_last() =~= s.subrange(0, s.len() - 1));
        assert(s.drop_last().subrange(0, e) =~= s.subrange(0, e));
        lemma_strip_prefix(s.drop_last(), e, windows);
    } else {
        assert(s.subrange(0, e) =~= s);
    }
}

proof fn lemma_drop_prefix(s: Seq<char>, e: int, windows: bool)
    requires
        0 <= e <= s.len(),
        forall|k: int| e <= k < s.len() ==> !is_sep(#[trigger] s[k], windows),
    ensures
        drop_component(s, windows) == drop_component(s.subrange(0, e), windows),
    decreases s.len(),
{
    if e < s.len() {
        assert(s.drop_last() =~= s.subrange(0, s.len() - 1));
        assert(s.drop_last().subrange(0, e) =~= s.subrange(0, e));
        lemma_drop_prefix(s.drop_last(), e, windows);
    } else {
        assert(s.subrange(0, e) =~= s);
    }
}

/// Hours, minutes and seconds of the UTC day for `utc_secs` seconds since the epoch.
pub fn hms(utc_secs: u64) -> (r: (u32, u32, u32))
    ensures
        r.0 == (utc_secs % 86400) / 3600,
        r.1 == ((utc_secs % 86400) % 3600) / 60,
        r.2 == utc_secs % 60,
        r.0 < 24,
        r.1 < 60,
        r.2 < 60,
        r.0 * 3600 + r.1 * 60 + r.2 == utc_secs % 86400,
{
    let rem = utc_secs % 86400;
    let h = rem / 3600;
    let m = (rem % 3600) / 60;
    let s = rem % 60;
    assert(rem % 60 == utc_secs % 60) by (nonlinear_arith)
        requires
            rem == utc_secs % 86400,
    {
        assert(utc_secs == 86400 * (utc_secs / 86400) + rem);
        assert(86400 * (utc_secs / 86400) == 60 * (1440 * (utc_secs / 86400)));
    }
    assert(h * 3600 + m * 60 + s == rem) by (nonlinear_arith)
        requires
            h == rem / 3600,
            m == (rem % 3600) / 60,
            s == rem % 60,
            rem < 86400,
    {
        assert(rem == 3600 * h + rem % 3600);
        assert(rem % 3600 == 60 * m + (rem % 3600) % 60);
        assert((rem % 3600) % 60 == rem % 60) by {
            assert(rem == 60 * (60 * h + m) + (rem % 3600) % 60);
        }
    }
    (h as u32, m as u32, s as u32)
}

/// The UTC wall clock `HH:MM:SSZ` for `utc_secs` seconds since the epoch.
pub open spec fn spec_utc_clock(utc_secs: u64) -> Seq<char> {
    let rem = utc_secs % 86400;
    padded((rem / 3600) as nat, 2) + seq![':'] + padded(((rem % 3600) / 60) as nat, 2) + seq![':']
        + padded((utc_secs % 60) as nat, 2) + seq!['Z']
}

/// The UTC wall clock `HH:MM:SSZ` for `utc_secs` seconds since the epoch
/// (the stamp used when the local clock cannot be read).
pub fn utc_clock(utc_secs: u64) -> (t: String)
    ensures
        t@ == spec_utc_clock(utc_secs),
{
    let (h, m, s) = hms(utc_secs);
    let mut t = String::new();
    proof {
        reveal_strlit(":");
        reveal_strlit("Z");
    }
    append_padded(&mut t, h as u64, 2);
    t.append(":");
    append_padded(&mut t, m as u64, 2);
    t.append(":");
    append_padded(&mut t, s as u64, 2);
    t.append("Z");
    t
}

/// A log stamp: the wall clock `local`, a dot, and the milliseconds on three digits.
pub fn stamp(local: &str, millis: u32) -> (t: String)
    ensures
        t@ == local@ + seq!['.'] + padded(millis as nat, 3),
{
    let mut t = String::from_str(local);
    proof {
        reveal_strlit(".");
    }
    t.append(".");
    append_padded(&mut t, millis as u64, 3);
    t
}

} // verus!
