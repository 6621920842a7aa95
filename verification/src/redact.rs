//! Connection-descriptor redaction.
//!
//! A connection descriptor may embed a credential between the ':' after
//! the scheme separator and the '@' before the host. Before the
//! descriptor is written to any observability sink, that segment is
//! masked; a descriptor without such a segment passes through unchanged.

use vstd::prelude::*;
use vstd::string::StrSliceExecFns;
use vstd::string::StringExecFns;

verus! {

/// The first position at or after `from` holding `c`; -1 when none.
pub open spec fn find_char(s: Seq<char>, c: char, from: int) -> int
    decreases s.len() - from,
{
    if from < 0 || from >= s.len() {
        -1
    } else if s[from] == c {
        from
    } else {
        find_char(s, c, from + 1)
    }
}

/// The first position at or after `from` where "://" begins; -1 when none.
pub open spec fn find_scheme_sep(s: Seq<char>, from: int) -> int
    decreases s.len() - from,
{
    if from < 0 || from + 3 > s.len() {
        -1
    } else if s[from] == ':' && s[from + 1] == '/' && s[from + 2] == '/' {
        from
    } else {
        find_scheme_sep(s, from + 1)
    }
}

/// The descriptor with its credential segment masked: everything between
/// the first ':' after the scheme separator and the first '@' after the
/// separator becomes "****". Without both marks in that order the
/// descriptor is unchanged.
pub open spec fn redacted(s: Seq<char>) -> Seq<char> {
    let p = find_scheme_sep(s, 0);
    if p < 0 {
        s
    } else {
        let u = find_char(s, ':', p + 3);
        let a = find_char(s, '@', p + 3);
        if 0 <= u && u < a {
            s.subrange(0, u + 1) + "****"@ + s.subrange(a, s.len() as int)
        } else {
            s
        }
    }
}

/// The first position at or after `from` holding `c`.
fn find_char_at(s: &str, n: usize, c: char, from: usize) -> (r: Option<usize>)
    requires
        n == s@.len(),
        from <= n,
    ensures
        match r {
            Some(i) => from <= i < n && find_char(s@, c, from as int) == i as int && s@[i as int]
                == c,
            None => find_char(s@, c, from as int) == -1,
        },
{
    let mut i: usize = from;
    while i < n
        invariant
            n == s@.len(),
            from <= i <= n,
            find_char(s@, c, from as int) == find_char(s@, c, i as int),
        decreases n - i,
    {
        if s.get_char(i) == c {
            return Some(i);
        }
        i += 1;
    }
    None
}

/// The first position at or after `from` where "://" begins.
fn find_scheme_sep_at(s: &str, n: usize, from: usize) -> (r: Option<usize>)
    requires
        n == s@.len(),
        from <= n,
    ensures
        match r {
            Some(i) => from <= i && i as int + 3 <= n as int && find_scheme_sep(
                s@,
                from as int,
            ) == i as int,
            None => find_scheme_sep(s@, from as int) == -1,
        },
{
    let mut i: usize = from;
    while i < n
        invariant
            n == s@.len(),
            from <= i <= n,
            find_scheme_sep(s@, from as int) == find_scheme_sep(s@, i as int),
        decreases n - i,
    {
        if n - i >= 3 {
            if s.get_char(i) == ':' && s.get_char(i + 1) == '/' && s.get_char(i + 2) == '/' {
                return Some(i);
            }
        }
        i += 1;
    }
    None
}

/// The connection descriptor with any embedded credential masked, fit for
/// a log line or any other observability sink.
pub fn redact_descriptor(s: &str) -> (r: String)
    ensures
        r@ == redacted(s@),
{
    let n = s.unicode_len();
    match find_scheme_sep_at(s, n, 0) {
        None => s.to_owned(),
        Some(p) => {
            let colon = find_char_at(s, n, ':', p + 3);
            let at = find_char_at(s, n, '@', p + 3);
            match (colon, at) {
                (Some(u), Some(a)) => {
                    if u < a {
                        let head = s.substring_char(0, u + 1);
                        let tail = s.substring_char(a, n);
                        String::from_str(head).concat("****").concat(tail)
                    } else {
                        s.to_owned()
                    }
                },
                _ => s.to_owned(),
            }
        },
    }
}

} // verus!
