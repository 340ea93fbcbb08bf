//! Normalization of the public-IP probe's answer.
//!
//! The prober fetches a plain-text body from an IP-echo service.  The body
//! is taken as the current public IP once surrounding whitespace is
//! trimmed; a failed fetch or an empty body counts as a failed probe.  The
//! prober never retries: retrying is the reconciliation loop's business.

use vstd::prelude::*;

verus! {

/// The whitespace an IP-echo body may carry around the address.
pub open spec fn spec_is_ws(c: char) -> bool {
    c == ' ' || c == '\n' || c == '\r' || c == '\t'
}

/// The sequence without its leading whitespace.
pub open spec fn spec_trim_front(s: Seq<char>) -> Seq<char>
    decreases s.len(),
{
    if s.len() > 0 && spec_is_ws(s[0]) {
        spec_trim_front(s.drop_first())
    } else {
        s
    }
}

/// The sequence without its trailing whitespace.
pub open spec fn spec_trim_back(s: Seq<char>) -> Seq<char>
    decreases s.len(),
{
    if s.len() > 0 && spec_is_ws(s[s.len() - 1]) {
        spec_trim_back(s.drop_last())
    } else {
        s
    }
}

/// The sequence without its surrounding whitespace.
pub open spec fn spec_trim(s: Seq<char>) -> Seq<char> {
    spec_trim_back(spec_trim_front(s))
}

/// Whether a character is whitespace.
fn is_ws_char(c: char) -> (r: bool)
    ensures
        r == spec_is_ws(c),
{
    c == ' ' || c == '\n' || c == '\r' || c == '\t'
}

/// Dropping the leading whitespace is skipping up to the first
/// non-whitespace position.
proof fn lemma_trim_front_skip(s: Seq<char>, i: int)
    requires
        0 <= i <= s.len(),
        forall|j: int| 0 <= j < i ==> spec_is_ws(s[j]),
        i == s.len() || !spec_is_ws(s[i]),
    ensures
        spec_trim_front(s) == s.skip(i),
    decreases i,
{
    if i == 0 {
        assert(s.skip(0) =~= s);
    } else {
        assert(spec_is_ws(s[0]));
        lemma_trim_front_skip(s.drop_first(), i - 1);
        assert(s.drop_first().skip(i - 1) =~= s.skip(i));
    }
}

/// Dropping the trailing whitespace is taking up to the last
/// non-whitespace position.
proof fn lemma_trim_back_take(s: Seq<char>, e: int)
    requires
        0 <= e <= s.len(),
        forall|j: int| e <= j < s.len() ==> spec_is_ws(s[j]),
        e == 0 || !spec_is_ws(s[e - 1]),
    ensures
        spec_trim_back(s) == s.take(e),
    decreases s.len() - e,
{
    if e == s.len() {
        assert(s.take(e) =~= s);
    } else {
        assert(spec_is_ws(s[s.len() - 1]));
        lemma_trim_back_take(s.drop_last(), e);
        assert(s.drop_last().take(e) =~= s.take(e));
    }
}

/// The body with surrounding whitespace removed.
pub fn trim_ws(s: &str) -> (r: String)
    ensures
        r@ == spec_trim(s@),
{
    let len = s.unicode_len();
    let mut start: usize = 0;
    while start < len && is_ws_char(s.get_char(start))
        invariant
            len == s@.len(),
            start <= len,
            forall|j: int| 0 <= j < start ==> spec_is_ws(s@[j]),
        decreases len - start,
    {
        start += 1;
    }
    let mut end: usize = len;
    while end > start && is_ws_char(s.get_char(end - 1))
        invariant
            len == s@.len(),
            start <= end <= len,
            forall|j: int| end <= j < len ==> spec_is_ws(s@[j]),
        decreases end,
    {
        end -= 1;
    }
    let sub = s.substring_char(start, end);
    proof {
        lemma_trim_front_skip(s@, start as int);
        let t = s@.skip(start as int);
        assert forall|j: int| (end - start) <= j < t.len() implies spec_is_ws(t[j]) by {
            assert(t[j] == s@[j + start]);
        }
        lemma_trim_back_take(t, end - start);
        assert(t.take(end - start) =~= s@.subrange(start as int, end as int));
    }
    sub.to_owned()
}

/// Normalizes a probe outcome: the response body stands for the current
/// public IP once trimmed of surrounding whitespace; a failed fetch or a
/// body that is empty after trimming counts as no result.
pub fn interpret_probe(body: Option<String>) -> (r: Option<String>)
    ensures
        match body {
            Some(b) => (if spec_trim(b@).len() == 0 {
                r is None
            } else {
                r matches Some(ip) && ip@ == spec_trim(b@)
            }),
            None => r is None,
        },
{
    match body {
        Some(b) => {
            let t = trim_ws(b.as_str());
            if t.as_str().unicode_len() == 0 {
                None
            } else {
                Some(t)
            }
        },
        None => None,
    }
}

} // verus!
