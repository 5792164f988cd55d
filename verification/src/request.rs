//! Minimal parsing of a raw callback request.
//!
//! A request is a bounded buffer decoded to text. Only two things are ever
//! read from it: whether its first line names the callback path `/cb`, and
//! the value of the one header (`Full-Url`, matched case-insensitively)
//! through which the browser-side script hands back the complete URL.

use vstd::prelude::*;

verus! {

/// ASCII lowercasing of a single character; everything outside `A`..`Z`
/// is left as it is.
pub open spec fn lower(c: char) -> char {
    if 'A' <= c && c <= 'Z' {
        (((c as u8) + 32) as char)
    } else {
        c
    }
}

/// The whitespace stripped from both ends of a header value.
pub open spec fn is_ws(c: char) -> bool {
    c == ' ' || c == '\t' || c == '\r' || c == '\n'
}

/// Length of the first line of `s`: the number of characters before the
/// first `'\n'`, or all of `s` when it holds none.
pub open spec fn first_line_len(s: Seq<char>) -> nat
    decreases s.len(),
{
    if s.len() == 0 {
        0
    } else if s[0] == '\n' {
        0
    } else {
        1 + first_line_len(s.drop_first())
    }
}

proof fn lemma_first_line_len_le(s: Seq<char>)
    ensures
        first_line_len(s) <= s.len(),
    decreases s.len(),
{
    if s.len() != 0 && s[0] != '\n' {
        lemma_first_line_len_le(s.drop_first());
    }
}

/// A scan that saw no `'\n'` before position `n` and one (or the end) at
/// `n` has found exactly the first line.
proof fn lemma_first_line_len_is(s: Seq<char>, n: int)
    requires
        0 <= n <= s.len(),
        forall|j: int| 0 <= j < n ==> s[j] != '\n',
        n == s.len() || s[n] == '\n',
    ensures
        first_line_len(s) == n,
    decreases n,
{
    if s.len() == 0 {
    } else if n == 0 {
    } else {
        let t = s.drop_first();
        assert(forall|j: int| 0 <= j < n - 1 ==> t[j] == s[j + 1] && t[j] != '\n');
        lemma_first_line_len_is(t, n - 1);
    }
}

pub open spec fn trim_start(s: Seq<char>) -> Seq<char>
    decreases s.len(),
{
    if s.len() > 0 && is_ws(s[0]) {
        trim_start(s.drop_first())
    } else {
        s
    }
}

pub open spec fn trim_end(s: Seq<char>) -> Seq<char>
    decreases s.len(),
{
    if s.len() > 0 && is_ws(s[s.len() - 1]) {
        trim_end(s.drop_last())
    } else {
        s
    }
}

/// A header value with its surrounding whitespace removed.
pub open spec fn trim(s: Seq<char>) -> Seq<char> {
    trim_end(trim_start(s))
}

proof fn lemma_trim_start_skip(s: Seq<char>, a: int)
    requires
        0 <= a <= s.len(),
        forall|j: int| 0 <= j < a ==> is_ws(s[j]),
        a == s.len() || !is_ws(s[a]),
    ensures
        trim_start(s) == s.skip(a),
    decreases a,
{
    if a == 0 {
        assert(s.skip(0) =~= s);
    } else {
        let t = s.drop_first();
        assert(forall|j: int| 0 <= j < a - 1 ==> t[j] == s[j + 1]);
        assert(a - 1 == t.len() || !is_ws(t[a - 1]));
        lemma_trim_start_skip(t, a - 1);
        assert(t.skip(a - 1) =~= s.skip(a));
    }
}

proof fn lemma_trim_end_take(s: Seq<char>, b: int)
    requires
        0 <= b <= s.len(),
        forall|j: int| b <= j < s.len() ==> is_ws(s[j]),
        b == 0 || !is_ws(s[b - 1]),
    ensures
        trim_end(s) == s.take(b),
    decreases s.len() - b,
{
    if b == s.len() {
        assert(s.take(b) =~= s);
    } else {
        let t = s.drop_last();
        assert(forall|j: int| b <= j < t.len() ==> t[j] == s[j]);
        lemma_trim_end_take(t, b);
        assert(t.take(b) =~= s.take(b));
    }
}

/// A two-sided whitespace scan that stopped at `a` and `b` has found the
/// trimmed value: `trim(s)` is exactly `s.subrange(a, b)`.
proof fn lemma_trim_subrange(s: Seq<char>, a: int, b: int)
    requires
        0 <= a <= b <= s.len(),
        forall|j: int| 0 <= j < a ==> is_ws(s[j]),
        forall|j: int| b <= j < s.len() ==> is_ws(s[j]),
        a == b ==> b == s.len(),
        a < b ==> !is_ws(s[a]) && !is_ws(s[b - 1]),
    ensures
        trim(s) == s.subrange(a, b),
{
    lemma_trim_start_skip(s, a);
    let t = s.skip(a);
    assert(forall|j: int| 0 <= j < t.len() ==> t[j] == s[j + a]);
    lemma_trim_end_take(t, b - a);
    assert(t.take(b - a) =~= s.subrange(a, b));
}

/// The name of the header that carries the captured URL, lowercased, with
/// its terminating colon.
pub open spec fn header_name() -> Seq<char> {
    "full-url:"@
}

/// `p` is a prefix of `s` up to ASCII case of `s`.
pub open spec fn lower_eq_prefix(s: Seq<char>, p: Seq<char>) -> bool {
    p.len() <= s.len() && forall|j: int| 0 <= j < p.len() ==> lower(s[j]) == p[j]
}

/// The line opens with the URL-carrying header's name, in any casing.
pub open spec fn matches_header_name(line: Seq<char>) -> bool {
    lower_eq_prefix(line, header_name())
}

/// The value carried by a matching header line: what follows the
/// nine-character name, trimmed.
pub open spec fn header_value(line: Seq<char>) -> Seq<char> {
    trim(line.skip(9))
}

/// What header extraction yields on a whole request: the value of the
/// first line that opens with the header name, or nothing when no line
/// does.
pub open spec fn extract_spec(s: Seq<char>) -> Option<Seq<char>>
    decreases s.len(),
    via extract_spec_dec
{
    if s.len() == 0 {
        None
    } else {
        let n = first_line_len(s) as int;
        if matches_header_name(s.take(n)) {
            Some(header_value(s.take(n)))
        } else if n == s.len() {
            None
        } else {
            extract_spec(s.skip(n + 1))
        }
    }
}

#[via_fn]
proof fn extract_spec_dec(s: Seq<char>) {
    lemma_first_line_len_le(s);
}

/// `p` is a literal prefix of `s`.
pub open spec fn has_prefix(s: Seq<char>, p: Seq<char>) -> bool {
    p.len() <= s.len() && forall|j: int| 0 <= j < p.len() ==> s[j] == p[j]
}

/// The request opens the callback phase: its first line starts with
/// `GET /cb` or `POST /cb`.
pub open spec fn is_cb_request(s: Seq<char>) -> bool {
    has_prefix(s, "GET /cb"@) || has_prefix(s, "POST /cb"@)
}

fn is_ws_char(c: char) -> (r: bool)
    ensures
        r == is_ws(c),
{
    c == ' ' || c == '\t' || c == '\r' || c == '\n'
}

fn lower_char(c: char) -> (r: char)
    ensures
        r == lower(c),
{
    if 'A' <= c && c <= 'Z' {
        ((c as u8) + 32) as char
    } else {
        c
    }
}

fn str_has_prefix(s: &str, p: &str) -> (r: bool)
    ensures
        r == has_prefix(s@, p@),
{
    let plen = p.unicode_len();
    let slen = s.unicode_len();
    if plen > slen {
        return false;
    }
    let mut j: usize = 0;
    while j < plen
        invariant
            0 <= j <= plen,
            plen == p@.len(),
            plen <= s@.len(),
            forall|i: int| 0 <= i < j ==> s@[i] == p@[i],
        decreases plen - j,
    {
        if s.get_char(j) != p.get_char(j) {
            return false;
        }
        j = j + 1;
    }
    true
}

/// Whether a raw request belongs to the callback phase of the flow.
pub fn is_callback_request(request: &str) -> (r: bool)
    ensures
        r == is_cb_request(request@),
{
    str_has_prefix(request, "GET /cb") || str_has_prefix(request, "POST /cb")
}

fn matches_header_prefix(s: &str) -> (r: bool)
    requires
        s@.len() >= 9,
    ensures
        r == lower_eq_prefix(s@, header_name()),
{
    let name = "full-url:";
    proof {
        reveal_strlit("full-url:");
    }
    let mut j: usize = 0;
    while j < 9
        invariant
            0 <= j <= 9,
            s@.len() >= 9,
            name@ == header_name(),
            name@.len() == 9,
            forall|i: int| 0 <= i < j ==> lower(s@[i]) == header_name()[i],
        decreases 9 - j,
    {
        if lower_char(s.get_char(j)) != name.get_char(j) {
            return false;
        }
        j = j + 1;
    }
    true
}

/// Scans a raw request line by line for the URL-carrying header and
/// returns its trimmed value; tolerant of any malformed input, which
/// simply yields nothing.
pub fn extract_full_url_header(request: &str) -> (r: Option<String>)
    ensures
        r is Some <==> extract_spec(request@) is Some,
        r matches Some(v) ==> extract_spec(request@) == Some(v@),
    decreases request@.len(),
{
    let len = request.unicode_len();
    if len == 0 {
        return None;
    }
    let ghost s = request@;
    let mut end: usize = 0;
    while end < len && request.get_char(end) != '\n'
        invariant
            0 <= end <= len,
            len == s.len(),
            s == request@,
            forall|j: int| 0 <= j < end ==> s[j] != '\n',
        decreases len - end,
    {
        end = end + 1;
    }
    proof {
        lemma_first_line_len_is(s, end as int);
    }
    let ghost line = s.take(end as int);
    let matched = end >= 9 && matches_header_prefix(request);
    proof {
        reveal_strlit("full-url:");
        if end >= 9 {
            assert forall|j: int| 0 <= j < 9 implies line[j] == s[j] by {}
            if lower_eq_prefix(s, header_name()) {
                assert forall|j: int| 0 <= j < 9 implies lower(line[j]) == header_name()[j] by {
                    assert(lower(s[j]) == header_name()[j]);
                }
            }
            if lower_eq_prefix(line, header_name()) {
                assert forall|j: int| 0 <= j < 9 implies lower(s[j]) == header_name()[j] by {
                    assert(lower(line[j]) == header_name()[j]);
                }
            }
            assert(matched == matches_header_name(line));
        } else {
            assert(!matches_header_name(line));
        }
    }
    if matched {
        let mut a: usize = 9;
        let mut b: usize = end;
        while a < b && is_ws_char(request.get_char(a))
            invariant
                9 <= a <= b,
                b == end,
                end <= len == s.len(),
                s == request@,
                forall|j: int| 9 <= j < a ==> is_ws(s[j]),
            decreases b - a,
        {
            a = a + 1;
        }
        while b > a && is_ws_char(request.get_char(b - 1))
            invariant
                9 <= a <= b <= end,
                end <= len == s.len(),
                s == request@,
                a < b ==> !is_ws(s[a as int]),
                forall|j: int| b <= j < end ==> is_ws(s[j]),
            decreases b,
        {
            b = b - 1;
        }
        let val = request.substring_char(a, b).to_owned();
        proof {
            let v = line.skip(9);
            assert(forall|j: int| 0 <= j < v.len() ==> v[j] == s[j + 9]);
            lemma_trim_subrange(v, a as int - 9, b as int - 9);
            assert(v.subrange(a as int - 9, b as int - 9) =~= s.subrange(a as int, b as int));
            assert(extract_spec(s) == Some(header_value(line)));
        }
        Some(val)
    } else if end == len {
        None
    } else {
        let rest = request.substring_char(end + 1, len);
        proof {
            assert(rest@ =~= s.skip(end + 1));
        }
        extract_full_url_header(rest)
    }
}

/// Header matching is case-insensitive: a request whose first line opens
/// with any casing of the header name yields that line's trimmed
/// remainder, the same value whatever the casing.
pub proof fn lemma_header_case_insensitive(name: Seq<char>, rest: Seq<char>, tail: Seq<char>)
    requires
        name.len() == 9,
        forall|j: int| 0 <= j < 9 ==> lower(name[j]) == header_name()[j],
        forall|j: int| 0 <= j < rest.len() ==> rest[j] != '\n',
    ensures
        extract_spec(name + rest + seq!['\n'] + tail) == Some(trim(rest)),
{
    reveal_strlit("full-url:");
    let s = name + rest + seq!['\n'] + tail;
    let n = name.len() + rest.len();
    assert(forall|j: int| 0 <= j < 9 ==> s[j] == name[j]);
    assert forall|j: int| 0 <= j < n implies s[j] != '\n' by {
        if j < 9 {
            assert(lower(s[j]) == header_name()[j]);
            assert(header_name()[j] != '\n');
        } else {
            assert(s[j] == rest[j - 9]);
        }
    }
    assert(s[n as int] == '\n');
    lemma_first_line_len_is(s, n as int);
    let line = s.take(n as int);
    assert(line =~= name + rest);
    assert(matches_header_name(line));
    assert(line.skip(9) =~= rest);
    assert(extract_spec(s) == Some(header_value(line)));
}

} // verus!
