//! Type tags of stored values: a base name, optionally followed by `#v` and a
//! schema version.
use vstd::prelude::*;
use crate::errors::{ContextError, ContextErrorView};
use crate::text::{decimal, decimal_string, parse_u32, parse_u32_str, lemma_decimal_digits, lemma_parse_decimal, is_digit};

verus! {

/// The separator between a base name and a version.
pub open spec fn marker() -> Seq<char> {
    seq!['#', 'v']
}

pub open spec fn marker_at(s: Seq<char>, i: int) -> bool {
    0 <= i && i + 1 < s.len() && s[i] == '#' && s[i + 1] == 'v'
}

/// The last position below `n` where the separator starts, or -1.
pub open spec fn last_marker(s: Seq<char>, n: int) -> int
    decreases n,
{
    if n <= 0 {
        -1
    } else if marker_at(s, n - 1) {
        n - 1
    } else {
        last_marker(s, n - 1)
    }
}

/// The tag written for a value of base name `base` at schema version `v`.
pub open spec fn versioned_tag(base: Seq<char>, v: u32) -> Seq<char> {
    base + marker() + decimal(v as nat)
}

/// Splits a tag at its last separator, where what follows reads as a version.
pub open spec fn split_versioned(s: Seq<char>) -> Option<(Seq<char>, u32)> {
    let i = last_marker(s, s.len() as int);
    if i < 0 {
        None
    } else {
        match parse_u32(s.subrange(i + 2, s.len() as int)) {
            Some(v) => Some((s.subrange(0, i), v)),
            None => None,
        }
    }
}

/// Whether a value stored under `key` with tag `stored` may be read as base
/// name `expected` at version `version`, and if not, why.
pub open spec fn versioned_check(key: Seq<char>, stored: Seq<char>, expected: Seq<char>, version: u32) -> Result<(), ContextErrorView> {
    match split_versioned(stored) {
        Some((base, v)) => if base != expected {
            Err(ContextErrorView::TypeMismatch { key, expected, found: base })
        } else if v != version {
            Err(ContextErrorView::SchemaVersionMismatch { key, expected: version, found: v })
        } else {
            Ok(())
        },
        None => if stored == expected {
            Err(ContextErrorView::SchemaVersionMismatch { key, expected: version, found: 0 })
        } else {
            Err(ContextErrorView::TypeMismatch { key, expected, found: stored })
        },
    }
}

proof fn lemma_last_marker_is(s: Seq<char>, n: int, k: int)
    requires
        0 <= k < n <= s.len(),
        marker_at(s, k),
        forall|j: int| k < j < n ==> !marker_at(s, j),
    ensures
        last_marker(s, n) == k,
    decreases n,
{
    if n - 1 != k {
        lemma_last_marker_is(s, n - 1, k);
    }
}

/// A versioned tag splits back into its base name and version.
pub proof fn lemma_split_versioned_tag(base: Seq<char>, v: u32)
    ensures
        split_versioned(versioned_tag(base, v)) == Some((base, v)),
{
    let t = versioned_tag(base, v);
    let d = decimal(v as nat);
    let k = base.len() as int;
    lemma_decimal_digits(v as nat);
    lemma_parse_decimal(v);
    assert(t[k] == '#' && t[k + 1] == 'v');
    assert forall|j: int| k < j < t.len() implies !marker_at(t, j) by {
        if j > k + 1 {
            assert(t[j] == d[j - k - 2]);
            assert(is_digit(d[j - k - 2]));
        }
    }
    lemma_last_marker_is(t, t.len() as int, k);
    assert(t.subrange(k + 2, t.len() as int) =~= d);
    assert(t.subrange(0, k) =~= base);
}

/// The tag for base name `tag` at version `version`.
pub fn versioned_tag_string(tag: &str, version: u32) -> (r: String)
    ensures
        r@ == versioned_tag(tag@, version),
{
    proof {
        reveal_strlit("#v");
    }
    let mut t = String::from_str(tag);
    t.append("#v");
    let d = decimal_string(version);
    t.append(d.as_str());
    t
}

/// Splits `s` at its last `#v` into a base name and a version, where the rest
/// reads as a `u32`.
pub fn split_versioned_type_name(s: &str) -> (r: Option<(String, u32)>)
    ensures
        match r {
            Some((b, v)) => split_versioned(s@) == Some((b@, v)),
            None => split_versioned(s@) is None,
        },
{
    let n = s.unicode_len();
    let mut k: usize = n;
    let mut found = false;
    while k > 0 && !found
        invariant
            n == s@.len(),
            k <= n,
            last_marker(s@, n as int) == last_marker(s@, k as int),
            found ==> k >= 1 && marker_at(s@, k - 1),
        decreases k + (if found { 0int } else { 1int }),
    {
        if k < n && s.get_char(k - 1) == '#' && s.get_char(k) == 'v' {
            found = true;
        } else {
            k = k - 1;
        }
    }
    if !found {
        return None;
    }
    let i = k - 1;
    assert(last_marker(s@, n as int) == i);
    let rest = s.substring_char(k + 1, n);
    match parse_u32_str(rest) {
        Some(v) => {
            let base = s.substring_char(0, i);
            Some((String::from_str(base), v))
        },
        None => None,
    }
}

/// Checks a stored tag against the base name and version asked for.
pub fn validate_versioned_type(key: &str, stored: &str, expected: &str, version: u32) -> (r: Result<(), ContextError>)
    ensures
        match r {
            Ok(()) => versioned_check(key@, stored@, expected@, version) == Ok::<(), ContextErrorView>(()),
            Err(e) => versioned_check(key@, stored@, expected@, version) == Err::<(), ContextErrorView>(e@),
        },
{
    let exp = String::from_str(expected);
    match split_versioned_type_name(stored) {
        Some((base, v)) => {
            if !(base == exp) {
                return Err(ContextError::TypeMismatch { key: String::from_str(key), expected: exp, found: base });
            }
            if v != version {
                return Err(ContextError::SchemaVersionMismatch { key: String::from_str(key), expected: version, found: v });
            }
            Ok(())
        },
        None => {
            let st = String::from_str(stored);
            if st == exp {
                return Err(ContextError::SchemaVersionMismatch { key: String::from_str(key), expected: version, found: 0 });
            }
            Err(ContextError::TypeMismatch { key: String::from_str(key), expected: exp, found: st })
        },
    }
}

} // verus!
