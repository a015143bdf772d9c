//! Reading the package name out of a project manifest, and the file name of
//! the shared object that the build makes for that package.
use vstd::prelude::*;
use crate::host_error::Error;

verus! {

/// Unicode white space, as `char::is_whitespace` has it.
pub open spec fn is_ws(c: char) -> bool {
    c == '\t' || c == '\n' || c == '\u{0B}' || c == '\u{0C}' || c == '\r' || c == ' ' || c == '\u{85}'
        || c == '\u{A0}' || c == '\u{1680}' || ('\u{2000}' <= c && c <= '\u{200A}') || c == '\u{2028}'
        || c == '\u{2029}' || c == '\u{202F}' || c == '\u{205F}' || c == '\u{3000}'
}

pub open spec fn trim_start(s: Seq<char>) -> Seq<char>
    decreases s.len(),
{
    if s.len() > 0 && is_ws(s[0]) {
        trim_start(s.drop_first())
    } else {
        s
    }
}

pub open spec fn trim_end(s: Seq<char>) -> Seq<char>
    decreases s.len(),
{
    if s.len() > 0 && is_ws(s.last()) {
        trim_end(s.drop_last())
    } else {
        s
    }
}

/// `s` without white space at either end.
pub open spec fn trim(s: Seq<char>) -> Seq<char> {
    trim_end(trim_start(s))
}

pub open spec fn strip_start_char(s: Seq<char>, c: char) -> Seq<char>
    decreases s.len(),
{
    if s.len() > 0 && s[0] == c {
        strip_start_char(s.drop_first(), c)
    } else {
        s
    }
}

pub open spec fn strip_end_char(s: Seq<char>, c: char) -> Seq<char>
    decreases s.len(),
{
    if s.len() > 0 && s.last() == c {
        strip_end_char(s.drop_last(), c)
    } else {
        s
    }
}

/// `s` without any `c` at either end.
pub open spec fn trim_char(s: Seq<char>, c: char) -> Seq<char> {
    strip_end_char(strip_start_char(s, c), c)
}

/// The position of the first `c` in `s` at or after `i`, or the length of `s`.
pub open spec fn next_of(s: Seq<char>, c: char, i: int) -> int
    decreases s.len() - i,
{
    if i >= s.len() {
        s.len() as int
    } else if s[i] == c {
        i
    } else {
        next_of(s, c, i + 1)
    }
}

pub open spec fn has_prefix(s: Seq<char>, p: Seq<char>) -> bool {
    p.len() <= s.len() && s.subrange(0, p.len() as int) == p
}

/// The value of a `key = value` line: what lies between its first `=` and the
/// next one, without white space and quotes at the ends.
pub open spec fn value_of(t: Seq<char>) -> Seq<char> {
    let i = next_of(t, '=', 0);
    let rest = t.subrange(i + 1, t.len() as int);
    let v = rest.subrange(0, next_of(rest, '=', 0));
    trim_char(trim_char(trim(v), '"'), '\'')
}

/// Where the line that begins at `start` ends: its newline, or the end of `s`.
pub open spec fn line_end(s: Seq<char>, start: int) -> int {
    let e = next_of(s, '\n', start);
    if e < start {
        start
    } else {
        e
    }
}

/// The package name found in the lines of `s` from position `start` on, where
/// `in_package` says whether those lines are in the `[package]` table.
pub open spec fn package_name_from(s: Seq<char>, start: int, in_package: bool) -> Option<Seq<char>>
    decreases s.len() - start,
{
    if start < 0 || start >= s.len() {
        None
    } else {
        let e = line_end(s, start);
        let t = trim(s.subrange(start, e));
        if t == "[package]"@ {
            if e < s.len() {
                package_name_from(s, e + 1, true)
            } else {
                None
            }
        } else if t.len() > 0 && t[0] == '[' {
            if e < s.len() {
                package_name_from(s, e + 1, false)
            } else {
                None
            }
        } else if in_package && has_prefix(t, "name"@) && next_of(t, '=', 0) < t.len() {
            Some(value_of(t))
        } else if e < s.len() {
            package_name_from(s, e + 1, in_package)
        } else {
            None
        }
    }
}

proof fn lemma_next_of_bounds(s: Seq<char>, c: char, i: int)
    requires
        0 <= i,
    ensures
        i <= s.len() ==> i <= next_of(s, c, i) <= s.len(),
        i > s.len() ==> next_of(s, c, i) == s.len(),
    decreases s.len() - i,
{
    if i < s.len() && s[i] != c {
        lemma_next_of_bounds(s, c, i + 1);
    }
}


/// Whether `c` is white space.
pub fn is_whitespace(c: char) -> (r: bool)
    ensures
        r == is_ws(c),
{
    c == '\t' || c == '\n' || c == '\u{0B}' || c == '\u{0C}' || c == '\r' || c == ' ' || c == '\u{85}'
        || c == '\u{A0}' || c == '\u{1680}' || ('\u{2000}' <= c && c <= '\u{200A}') || c == '\u{2028}'
        || c == '\u{2029}' || c == '\u{202F}' || c == '\u{205F}' || c == '\u{3000}'
}

/// The bounds within `[a, b)` of the text of `s` there, trimmed.
fn trim_range(s: &str, a: usize, b: usize) -> (r: (usize, usize))
    requires
        a <= b <= s@.len(),
    ensures
        a <= r.0 <= r.1 <= b,
        s@.subrange(r.0 as int, r.1 as int) == trim(s@.subrange(a as int, b as int)),
{
    let mut x = a;
    while x < b && is_whitespace(s.get_char(x))
        invariant
            a <= x <= b <= s@.len(),
            trim_start(s@.subrange(a as int, b as int)) == trim_start(s@.subrange(x as int, b as int)),
        decreases b - x,
    {
        assert(s@.subrange(x as int, b as int).drop_first() =~= s@.subrange(x + 1, b as int));
        x = x + 1;
    }
    assert(trim_start(s@.subrange(x as int, b as int)) == s@.subrange(x as int, b as int));
    let mut y = b;
    while y > x && is_whitespace(s.get_char(y - 1))
        invariant
            a <= x <= y <= b <= s@.len(),
            trim(s@.subrange(a as int, b as int)) == trim_end(s@.subrange(x as int, y as int)),
        decreases y - x,
    {
        assert(s@.subrange(x as int, y as int).drop_last() =~= s@.subrange(x as int, y - 1));
        y = y - 1;
    }
    (x, y)
}

/// The bounds within `[a, b)` after any `c` at either end is dropped.
fn trim_char_range(s: &str, a: usize, b: usize, c: char) -> (r: (usize, usize))
    requires
        a <= b <= s@.len(),
    ensures
        a <= r.0 <= r.1 <= b,
        s@.subrange(r.0 as int, r.1 as int) == trim_char(s@.subrange(a as int, b as int), c),
{
    let mut x = a;
    while x < b && s.get_char(x) == c
        invariant
            a <= x <= b <= s@.len(),
            strip_start_char(s@.subrange(a as int, b as int), c) == strip_start_char(s@.subrange(x as int, b as int), c),
        decreases b - x,
    {
        assert(s@.subrange(x as int, b as int).drop_first() =~= s@.subrange(x + 1, b as int));
        x = x + 1;
    }
    let mut y = b;
    while y > x && s.get_char(y - 1) == c
        invariant
            a <= x <= y <= b <= s@.len(),
            trim_char(s@.subrange(a as int, b as int), c) == strip_end_char(s@.subrange(x as int, y as int), c),
        decreases y - x,
    {
        assert(s@.subrange(x as int, y as int).drop_last() =~= s@.subrange(x as int, y - 1));
        y = y - 1;
    }
    (x, y)
}

/// The first position of `c` in `[i, b)`, or `b`.
fn next_char(s: &str, c: char, i: usize, b: usize) -> (r: usize)
    requires
        i <= b <= s@.len(),
    ensures
        r as int == next_of(s@.subrange(0, b as int), c, i as int),
        i <= r <= b,
{
    let ghost t = s@.subrange(0, b as int);
    let mut k = i;
    while k < b && s.get_char(k) != c
        invariant
            i <= k <= b <= s@.len(),
            t == s@.subrange(0, b as int),
            next_of(t, c, i as int) == next_of(t, c, k as int),
        decreases b - k,
    {
        k = k + 1;
    }
    k
}

/// Whether `[a, b)` holds exactly the text `lit`.
fn range_is(s: &str, a: usize, b: usize, lit: &str) -> (r: bool)
    requires
        a <= b <= s@.len(),
    ensures
        r == (s@.subrange(a as int, b as int) == lit@),
{
    let n = lit.unicode_len();
    if b - a != n {
        return false;
    }
    let mut k: usize = 0;
    while k < n
        invariant
            n == lit@.len(),
            a + n == b <= s@.len(),
            k <= n,
            forall|j: int| 0 <= j < k ==> s@[a + j] == lit@[j],
        decreases n - k,
    {
        if s.get_char(a + k) != lit.get_char(k) {
            assert(s@.subrange(a as int, b as int)[k as int] != lit@[k as int]);
            return false;
        }
        k = k + 1;
    }
    assert(s@.subrange(a as int, b as int) =~= lit@);
    true
}

/// The name under `[package]` in the manifest text `manifest`.
pub fn extract_package_name(manifest: &str) -> (r: Result<String, Error>)
    ensures
        match r {
            Ok(name) => package_name_from(manifest@, 0, false) == Some(name@),
            Err(e) => package_name_from(manifest@, 0, false) is None && e is LibLoad,
        },
{
    let n = manifest.unicode_len();
    let s = manifest;
    let mut start: usize = 0;
    let mut in_package = false;
    while start < n
        invariant
            s@ == manifest@,
            n == s@.len(),
            start <= n,
            package_name_from(s@, 0, false) == package_name_from(s@, start as int, in_package),
        decreases n - start,
    {
        let e = next_char(s, '\n', start, n);
        assert(s@.subrange(0, n as int) =~= s@);
        proof {
            lemma_next_of_bounds(s@, '\n', start as int);
        }
        assert(e == line_end(s@, start as int));
        let (a, b) = trim_range(s, start, e);
        let ghost t = trim(s@.subrange(start as int, e as int));
        assert(s@.subrange(a as int, b as int) == t);
        let is_package = range_is(s, a, b, "[package]");
        let is_table = a < b && s.get_char(a) == '[';
        let named = b - a >= 4 && range_is(s, a, a + 4, "name");
        let eq = next_char(s, '=', a, b);
        proof {
            reveal_strlit("name");
            assert(s@.subrange(0, b as int).subrange(a as int, b as int) =~= t);
            lemma_next_of_shift(s@.subrange(0, b as int), '=', a as int, a as int);
            if b - a >= 4 {
                assert(t.subrange(0, 4) =~= s@.subrange(a as int, a + 4));
            }
            assert(named == has_prefix(t, "name"@));
            assert((eq < b) == (next_of(t, '=', 0) < t.len()));
            assert(is_table == (t.len() > 0 && t[0] == '['));
        }
        if is_package {
            in_package = true;
        } else if is_table {
            in_package = false;
        } else if in_package && named && eq < b {
            let i = eq;
            let j = next_char(s, '=', i + 1, b);
            proof {
                let rest = t.subrange(next_of(t, '=', 0) + 1, t.len() as int);
                assert(next_of(t, '=', 0) == i - a);
                assert(rest =~= s@.subrange(i + 1, b as int));
                lemma_next_of_shift(s@.subrange(0, b as int), '=', i + 1, i + 1);
                assert(s@.subrange(0, b as int).subrange(i + 1, b as int) =~= rest);
                assert(rest.subrange(0, next_of(rest, '=', 0)) =~= s@.subrange(i + 1, j as int));
            }
            let (c, d) = trim_range(s, i + 1, j);
            let (c2, d2) = trim_char_range(s, c, d, '"');
            let (c3, d3) = trim_char_range(s, c2, d2, '\'');
            let name = String::from_str(s.substring_char(c3, d3));
            assert(name@ == value_of(t));
            assert(package_name_from(s@, start as int, in_package) == Some(value_of(t)));
            return Ok(name);
        }
        start = if e < n {
            e + 1
        } else {
            n
        };
    }
    Err(Error::LibLoad(String::from_str("Could not find package name in Cargo.toml")))
}

/// Looking for `c` from `k` in `s` is looking from 0 in what follows `base`,
/// shifted by `base`.
proof fn lemma_next_of_shift(s: Seq<char>, c: char, base: int, k: int)
    requires
        0 <= base <= k <= s.len(),
    ensures
        next_of(s, c, k) - base == next_of(s.subrange(base, s.len() as int), c, k - base),
    decreases s.len() - k,
{
    if k < s.len() && s[k] != c {
        lemma_next_of_shift(s, c, base, k + 1);
    }
}

/// The file name of the shared object built for `package`: dashes become
/// underscores, between `prefix` and `.` followed by `extension`.
pub fn library_file_name(package: &str, prefix: &str, extension: &str) -> (r: String)
    ensures
        r@ == prefix@ + package@.map_values(|c: char| if c == '-' { '_' } else { c }) + seq!['.'] + extension@,
{
    let mut out = String::from_str(prefix);
    let n = package.unicode_len();
    let mut i: usize = 0;
    while i < n
        invariant
            n == package@.len(),
            i <= n,
            out@ == prefix@ + package@.subrange(0, i as int).map_values(|c: char| if c == '-' { '_' } else { c }),
        decreases n - i,
    {
        proof {
            reveal_strlit("_");
        }
        let ghost pre = out@;
        let ch = package.get_char(i);
        if ch == '-' {
            out.append("_");
            assert("_"@ =~= seq!['_']);
            assert(out@ =~= pre.push('_'));
        } else {
            let one = package.substring_char(i, i + 1);
            out.append(one);
            assert(one@ =~= seq![ch]);
            assert(out@ =~= pre.push(ch));
        }
        assert(package@.subrange(0, i + 1).map_values(|c: char| if c == '-' { '_' } else { c }) =~= package@.subrange(
            0,
            i as int,
        ).map_values(|c: char| if c == '-' { '_' } else { c }).push(if ch == '-' { '_' } else { ch }));
        i = i + 1;
    }
    assert(package@.subrange(0, n as int) =~= package@);
    proof {
        reveal_strlit(".");
    }
    out.append(".");
    out.append(extension);
    out
}

} // verus!
