use vstd::prelude::*;
use vstd::string::*;

use crate::text::{decimal, decimal_text};

verus! {

/// The index of the first `'\n'` in `s`, or its length when there is none.
pub open spec fn line_end(s: Seq<char>) -> int
    decreases s.len(),
{
    if s.len() == 0 {
        0
    } else if s[0] == '\n' {
        0
    } else {
        1 + line_end(s.drop_first())
    }
}

/// The first line of `s` as `str::lines` yields it: the text up to the first
/// `'\n'`, without a `'\r'` just before that `'\n'`; none for an empty text.
pub open spec fn first_line_spec(s: Seq<char>) -> Option<Seq<char>> {
    if s.len() == 0 {
        None
    } else {
        let k = line_end(s);
        if k < s.len() && k > 0 && s[k - 1] == '\r' {
            Some(s.take(k - 1))
        } else {
            Some(s.take(k))
        }
    }
}

/// The status line reported for a header fetch whose output is `s`.
pub open spec fn status_line_spec(s: Seq<char>) -> Seq<char> {
    match first_line_spec(s) {
        Some(line) => line,
        None => "NO RESPONSE"@,
    }
}

/// `pat` occurs in `s` as a run of consecutive characters.
pub open spec fn contains_spec(s: Seq<char>, pat: Seq<char>) -> bool {
    exists|i: int| 0 <= i && i + pat.len() <= s.len() && #[trigger] s.subrange(i, i + pat.len()) == pat
}

/// A status line counts as healthy when it holds the text `200 OK`.
pub open spec fn http_ok_spec(line: Seq<char>) -> bool {
    contains_spec(line, "200 OK"@)
}

/// The whole seconds of a wait of `timeout_ms`, rounded down.
pub open spec fn timeout_secs_spec(timeout_ms: u64) -> nat {
    (timeout_ms / 1000) as nat
}

/// What a header check found: the status line and whether it is healthy.
#[derive(Debug)]
pub struct HttpReport {
    pub status_line: String,
    pub ok: bool,
}

proof fn lemma_line_end(s: Seq<char>, k: int)
    requires
        0 <= k <= s.len(),
        forall|j: int| 0 <= j < k ==> s[j] != '\n',
        k == s.len() || s[k] == '\n',
    ensures
        line_end(s) == k,
    decreases s.len(),
{
    if s.len() > 0 && s[0] != '\n' {
        assert(k > 0);
        assert forall|j: int| 0 <= j < k - 1 implies s.drop_first()[j] != '\n' by {
            assert(s.drop_first()[j] == s[j + 1]);
        }
        if k < s.len() {
            assert(s.drop_first()[k - 1] == s[k]);
        }
        lemma_line_end(s.drop_first(), k - 1);
    }
}

/// The first line of `text`, or `None` when `text` is empty.
pub fn first_line(text: &str) -> (r: Option<String>)
    ensures
        r matches Some(line) ==> first_line_spec(text@) == Some(line@),
        r is None <==> first_line_spec(text@) is None,
{
    let n = text.unicode_len();
    if n == 0 {
        return None;
    }
    let mut k: usize = 0;
    while k < n && text.get_char(k) != '\n'
        invariant
            n == text@.len(),
            k <= n,
            forall|j: int| 0 <= j < k ==> text@[j] != '\n',
        decreases n - k,
    {
        k = k + 1;
    }
    proof {
        lemma_line_end(text@, k as int);
    }
    let end = if k < n && k > 0 && text.get_char(k - 1) == '\r' {
        k - 1
    } else {
        k
    };
    let line = text.substring_char(0, end);
    assert(line@ =~= text@.take(end as int));
    Some(String::from_str(line))
}

/// Tells whether `pat` occurs in `s`.
pub fn contains_text(s: &str, pat: &str) -> (r: bool)
    ensures
        r == contains_spec(s@, pat@),
{
    let n = s.unicode_len();
    let m = pat.unicode_len();
    if m > n {
        return false;
    }
    let mut i: usize = 0;
    while i <= n - m
        invariant
            n == s@.len(),
            m == pat@.len(),
            m <= n,
            i <= n - m + 1,
            forall|a: int| 0 <= a < i ==> #[trigger] s@.subrange(a, a + m) != pat@,
        decreases n - m + 1 - i,
    {
        let mut j: usize = 0;
        while j < m && s.get_char(i + j) == pat.get_char(j)
            invariant
                n == s@.len(),
                m == pat@.len(),
                i + m <= n,
                j <= m,
                forall|b: int| 0 <= b < j ==> s@[i + b] == pat@[b],
            decreases m - j,
        {
            j = j + 1;
        }
        if j == m {
            assert(s@.subrange(i as int, i + m) =~= pat@);
            return true;
        }
        assert(s@.subrange(i as int, i + m)[j as int] != pat@[j as int]);
        i = i + 1;
    }
    false
}

/// The status line of a header fetch whose output is `stdout`: its first line,
/// or `NO RESPONSE` when it printed nothing.
pub fn status_line(stdout: &str) -> (r: String)
    ensures
        r@ == status_line_spec(stdout@),
{
    match first_line(stdout) {
        Some(line) => line,
        None => String::from_str("NO RESPONSE"),
    }
}

/// Judges a header fetch by its output: healthy exactly when the first line
/// holds `200 OK`. This is a plain text match, not a parsed status code.
pub fn http_report(stdout: &str) -> (r: HttpReport)
    ensures
        r.status_line@ == status_line_spec(stdout@),
        r.ok == http_ok_spec(status_line_spec(stdout@)),
{
    let line = status_line(stdout);
    let ok = contains_text(line.as_str(), "200 OK");
    HttpReport { status_line: line, ok }
}

/// The arguments of the header-only fetch of `url`: `-I --max-time <secs> <url>`,
/// where the wait is cut down to whole seconds.
pub fn curl_args(url: &str, timeout_ms: u64) -> (r: Vec<String>)
    ensures
        r@.len() == 4,
        r@[0]@ == "-I"@,
        r@[1]@ == "--max-time"@,
        r@[2]@ == decimal(timeout_secs_spec(timeout_ms)),
        r@[3]@ == url@,
{
    let mut r: Vec<String> = Vec::new();
    r.push(String::from_str("-I"));
    r.push(String::from_str("--max-time"));
    r.push(decimal_text(timeout_ms / 1000));
    r.push(String::from_str(url));
    r
}

} // verus!
