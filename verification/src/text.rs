//! Character-level text helpers shared by the command, log and tray code:
//! trimming, case-insensitive search, decimal rendering, string building.
use vstd::prelude::*;
use vstd::string::*;

verus! {

broadcast use vstd::seq_lib::group_seq_properties;

/// The Unicode `White_Space` set, which `char::is_whitespace` (and so
/// `str::trim`, `str::trim_end`) uses.
pub open spec fn is_ws(c: char) -> bool {
    let u = c as u32;
    ||| (9 <= u && u <= 13)
    ||| u == 32
    ||| u == 0x85
    ||| u == 0xa0
    ||| u == 0x1680
    ||| (0x2000 <= u && u <= 0x200a)
    ||| u == 0x2028
    ||| u == 0x2029
    ||| u == 0x202f
    ||| u == 0x205f
    ||| u == 0x3000
}

/// `s` without its trailing white space.
pub open spec fn trim_end(s: Seq<char>) -> Seq<char>
    decreases s.len(),
{
    if s.len() > 0 && is_ws(s.last()) {
        trim_end(s.drop_last())
    } else {
        s
    }
}

/// `s` without its leading white space.
pub open spec fn trim_start(s: Seq<char>) -> Seq<char>
    decreases s.len(),
{
    if s.len() > 0 && is_ws(s[0]) {
        trim_start(s.drop_first())
    } else {
        s
    }
}

/// `s` without leading and trailing white space.
pub open spec fn trim(s: Seq<char>) -> Seq<char> {
    trim_start(trim_end(s))
}

/// The code of `c` after ASCII lower-casing (only `A`..`Z` change).
pub open spec fn lower_code(c: char) -> u32 {
    if 65 <= (c as u32) && (c as u32) <= 90 {
        ((c as u32) + 32) as u32
    } else {
        c as u32
    }
}

/// `hay` holds `needle` (given in lower case) at position `i`, ignoring ASCII case.
pub open spec fn matches_at_ci(hay: Seq<char>, needle: Seq<char>, i: int) -> bool {
    forall|j: int| 0 <= j < needle.len() ==> #[trigger] lower_code(hay[i + j]) == needle[j] as u32
}

/// `hay` contains `needle` (given in lower case), ignoring ASCII case.
pub open spec fn contains_ci(hay: Seq<char>, needle: Seq<char>) -> bool {
    exists|i: int| 0 <= i && i + needle.len() <= hay.len() && #[trigger] matches_at_ci(hay, needle, i)
}

/// `s` ends with `suffix`.
pub open spec fn ends_with(s: Seq<char>, suffix: Seq<char>) -> bool {
    suffix.len() <= s.len() && s.subrange(s.len() - suffix.len(), s.len() as int) == suffix
}

/// `s` starts with `prefix`.
pub open spec fn starts_with<T>(s: Seq<T>, prefix: Seq<T>) -> bool {
    prefix.len() <= s.len() && s.subrange(0, prefix.len() as int) == prefix
}

/// The decimal digit character for `d` (`d < 10`).
pub open spec fn digit(d: nat) -> char {
    ((48 + d) as u32) as char
}

/// The decimal rendering of `n`, without leading zeros.
pub open spec fn decimal(n: nat) -> Seq<char>
    decreases n,
{
    if n < 10 {
        seq![digit(n)]
    } else {
        decimal(n / 10).push(digit(n % 10))
    }
}

/// The decimal rendering of `n`, left-padded with zeros to at least `width` characters.
pub open spec fn padded(n: nat, width: nat) -> Seq<char> {
    let d = decimal(n);
    if d.len() < width {
        Seq::new((width - d.len()) as nat, |i: int| '0') + d
    } else {
        d
    }
}

/// `"true"` or `"false"`, as `{}` prints a `bool`.
pub open spec fn bool_text(b: bool) -> Seq<char> {
    if b {
        seq!['t', 'r', 'u', 'e']
    } else {
        seq!['f', 'a', 'l', 's', 'e']
    }
}

/// The characters of `s`, in order.
pub fn chars_of(s: &str) -> (v: Vec<char>)
    ensures
        v@ == s@,
{
    let n = s.unicode_len();
    let mut v: Vec<char> = Vec::new();
    let mut i: usize = 0;
    while i < n
        invariant
            n == s@.len(),
            i <= n,
            v@ == s@.subrange(0, i as int),
        decreases n - i,
    {
        v.push(s.get_char(i));
        i = i + 1;
    }
    v
}

proof fn lemma_trim_end_prefix(s: Seq<char>, e: int)
    requires
        0 <= e <= s.len(),
        forall|k: int| e <= k < s.len() ==> is_ws(#[trigger] s[k]),
    ensures
        trim_end(s) == trim_end(s.subrange(0, e)),
    decreases s.len(),
{
    if e < s.len() {
        assert(s.drop_last() =~= s.subrange(0, s.len() - 1));
        assert(s.drop_last().subrange(0, e) =~= s.subrange(0, e));
        lemma_trim_end_prefix(s.drop_last(), e);
    } else {
        assert(s.subrange(0, e) =~= s);
    }
}

proof fn lemma_trim_start_suffix(s: Seq<char>, b: int)
    requires
        0 <= b <= s.len(),
        forall|k: int| 0 <= k < b ==> is_ws(#[trigger] s[k]),
    ensures
        trim_start(s) == trim_start(s.subrange(b, s.len() as int)),
    decreases b,
{
    if b > 0 {
        assert(s.drop_first().subrange(b - 1, s.drop_first().len() as int) =~= s.subrange(
            b,
            s.len() as int,
        ));
        lemma_trim_start_suffix(s.drop_first(), b - 1);
    } else {
        assert(s.subrange(0, s.len() as int) =~= s);
    }
}

/// Exec form of `is_ws`.
pub fn is_ws_char(c: char) -> (b: bool)
    ensures
        b == is_ws(c),
{
    let u = c as u32;
    (9 <= u && u <= 13) || u == 32 || u == 0x85 || u == 0xa0 || u == 0x1680 || (0x2000 <= u && u
        <= 0x200a) || u == 0x2028 || u == 0x2029 || u == 0x202f || u == 0x205f || u == 0x3000
}

/// `s` without leading and trailing white space (as `str::trim`).
pub fn trim_str(s: &str) -> (t: &str)
    ensures
        t@ == trim(s@),
{
    let cs = chars_of(s);
    let n = cs.len();
    let mut e: usize = n;
    while e > 0 && is_ws_char(cs[e - 1])
        invariant
            cs@ == s@,
            n == cs.len(),
            e <= n,
            forall|k: int| e <= k < n ==> is_ws(#[trigger] cs@[k]),
        decreases e,
    {
        e = e - 1;
    }
    proof {
        lemma_trim_end_prefix(s@, e as int);
        let p = s@.subrange(0, e as int);
        if e > 0 {
            assert(p.last() == cs@[e - 1]);
        }
        assert(trim_end(p) == p);
    }
    let mut b: usize = 0;
    while b < e && is_ws_char(cs[b])
        invariant
            cs@ == s@,
            n == cs.len(),
            e <= n,
            b <= e,
            forall|k: int| 0 <= k < b ==> is_ws(#[trigger] cs@[k]),
        decreases e - b,
    {
        b = b + 1;
    }
    proof {
        let p = s@.subrange(0, e as int);
        assert forall|k: int| 0 <= k < b implies is_ws(#[trigger] p[k]) by {
            assert(p[k] == cs@[k]);
        }
        lemma_trim_start_suffix(p, b as int);
        let q = p.subrange(b as int, e as int);
        assert(q =~= s@.subrange(b as int, e as int));
        if b < e {
            assert(q[0] == cs@[b as int]);
        }
        assert(trim_start(q) == q);
    }
    s.substring_char(b, e)
}

/// `s` without trailing white space (as `str::trim_end`).
pub fn trim_end_str(s: &str) -> (t: &str)
    ensures
        t@ == trim_end(s@),
{
    let cs = chars_of(s);
    let n = cs.len();
    let mut e: usize = n;
    while e > 0 && is_ws_char(cs[e - 1])
        invariant
            cs@ == s@,
            n == cs.len(),
            e <= n,
            forall|k: int| e <= k < n ==> is_ws(#[trigger] cs@[k]),
        decreases e,
    {
        e = e - 1;
    }
    proof {
        lemma_trim_end_prefix(s@, e as int);
        let p = s@.subrange(0, e as int);
        if e > 0 {
            assert(p.last() == cs@[e - 1]);
        }
        assert(trim_end(p) == p);
    }
    s.substring_char(0, e)
}

/// Whether `hay` contains `needle` ignoring ASCII case; `needle` is given in lower case.
pub fn contains_ignore_case(hay: &str, needle: &str) -> (b: bool)
    ensures
        b == contains_ci(hay@, needle@),
{
    let h = chars_of(hay);
    let nd = chars_of(needle);
    let hn = h.len();
    let nn = nd.len();
    if nn > hn {
        proof {
            assert forall|i: int|
                0 <= i && i + nd@.len() <= h@.len() implies !#[trigger] matches_at_ci(
                hay@,
                needle@,
                i,
            ) by {}
        }
        return false;
    }
    let mut i: usize = 0;
    while i <= hn - nn
        invariant
            h@ == hay@,
            nd@ == needle@,
            hn == h.len(),
            nn == nd.len(),
            nn <= hn,
            i <= hn - nn + 1,
            forall|k: int| 0 <= k < i ==> !#[trigger] matches_at_ci(hay@, needle@, k),
        decreases hn - i,
    {
        let mut j: usize = 0;
        while j < nn && lower_char_code(h[i + j]) == nd[j] as u32
            invariant
                h@ == hay@,
                nd@ == needle@,
                hn == h.len(),
                nn == nd.len(),
                i + nn <= hn,
                j <= nn,
                forall|m: int| 0 <= m < j ==> #[trigger] lower_code(hay@[i + m]) == needle@[m] as u32,
            decreases nn - j,
        {
            j = j + 1;
        }
        if j == nn {
            assert(matches_at_ci(hay@, needle@, i as int));
            return true;
        }
        assert(!matches_at_ci(hay@, needle@, i as int)) by {
            assert(lower_code(hay@[i + j]) != needle@[j as int] as u32);
        }
        i = i + 1;
    }
    proof {
        assert forall|k: int|
            0 <= k && k + needle@.len() <= hay@.len() implies !#[trigger] matches_at_ci(
            hay@,
            needle@,
            k,
        ) by {}
    }
    false
}

/// Exec form of `lower_code`.
pub fn lower_char_code(c: char) -> (l: u32)
    ensures
        l == lower_code(c),
{
    let u = c as u32;
    if 65 <= u && u <= 90 {
        u + 32
    } else {
        u
    }
}

/// Whether `s` ends with `suffix`.
pub fn ends_with_str(s: &str, suffix: &str) -> (b: bool)
    ensures
        b == ends_with(s@, suffix@),
{
    let cs = chars_of(s);
    let sf = chars_of(suffix);
    let n = cs.len();
    let m = sf.len();
    if m > n {
        return false;
    }
    let mut j: usize = 0;
    while j < m
        invariant
            cs@ == s@,
            sf@ == suffix@,
            n == cs.len(),
            m == sf.len(),
            m <= n,
            j <= m,
            forall|k: int| 0 <= k < j ==> cs@[n - m + k] == #[trigger] sf@[k],
        decreases m - j,
    {
        if cs[n - m + j] != sf[j] {
            assert(s@.subrange(n - m, n as int)[j as int] != suffix@[j as int]);
            return false;
        }
        j = j + 1;
    }
    assert(s@.subrange(n - m, n as int) =~= suffix@);
    true
}

/// The one-character string for decimal digit `d`.
pub fn digit_str(d: u64) -> (s: &'static str)
    requires
        d < 10,
    ensures
        s@ == seq![digit(d as nat)],
{
    match d {
        0 => {
            proof {
                reveal_strlit("0");
            }
            "0"
        },
        1 => {
            proof {
                reveal_strlit("1");
            }
            "1"
        },
        2 => {
            proof {
                reveal_strlit("2");
            }
            "2"
        },
        3 => {
            proof {
                reveal_strlit("3");
            }
            "3"
        },
        4 => {
            proof {
                reveal_strlit("4");
            }
            "4"
        },
        5 => {
            proof {
                reveal_strlit("5");
            }
            "5"
        },
        6 => {
            proof {
                reveal_strlit("6");
            }
            "6"
        },
        7 => {
            proof {
                reveal_strlit("7");
            }
            "7"
        },
        8 => {
            proof {
                reveal_strlit("8");
            }
            "8"
        },
        _ => {
            proof {
                reveal_strlit("9");
            }
            "9"
        },
    }
}

/// Appends the decimal rendering of `n` to `dst`.
pub fn append_decimal(dst: &mut String, n: u64)
    ensures
        final(dst)@ == old(dst)@ + decimal(n as nat),
    decreases n,
{
    if n >= 10 {
        append_decimal(dst, n / 10);
        dst.append(digit_str(n % 10));
        assert(decimal(n as nat) == decimal((n / 10) as nat).push(digit((n % 10) as nat)));
    } else {
        dst.append(digit_str(n));
    }
    proof {
        assert(final(dst)@ =~= old(dst)@ + decimal(n as nat));
    }
}

/// Appends `n` in decimal, left-padded with zeros to `width` characters.
pub fn append_padded(dst: &mut String, n: u64, width: usize)
    ensures
        final(dst)@ == old(dst)@ + padded(n as nat, width as nat),
{
    let mut digits = String::new();
    append_decimal(&mut digits, n);
    assert(digits@ =~= decimal(n as nat));
    let k = digits.as_str().unicode_len();
    let ghost start = dst@;
    if k < width {
        let mut i: usize = 0;
        while i < width - k
            invariant
                k < width,
                i <= width - k,
                dst@ == start + Seq::new(i as nat, |t: int| '0'),
            decreases width - k - i,
        {
            proof {
                reveal_strlit("0");
            }
            dst.append("0");
            i = i + 1;
            assert(dst@ =~= start + Seq::new(i as nat, |t: int| '0'));
        }
    }
    dst.append(digits.as_str());
    proof {
        assert(dst@ =~= old(dst)@ + padded(n as nat, width as nat));
    }
}

} // verus!
