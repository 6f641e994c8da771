//! Query sanitization: trims surrounding whitespace and drops every
//! character that is neither ASCII alphanumeric nor a space.

use vstd::prelude::*;
use vstd::string::StrSliceExecFns;

use crate::text::check_query_char;
use crate::text::check_ws;
use crate::text::is_query_char;
use crate::text::is_ws_char;
use crate::text::push_char;

verus! {

/// `s` without its leading whitespace.
pub open spec fn trim_front(s: Seq<char>) -> Seq<char>
    decreases s.len(),
{
    if s.len() > 0 && is_ws_char(s[0]) {
        trim_front(s.drop_first())
    } else {
        s
    }
}

/// `s` without its trailing whitespace.
pub open spec fn trim_back(s: Seq<char>) -> Seq<char>
    decreases s.len(),
{
    if s.len() > 0 && is_ws_char(s.last()) {
        trim_back(s.drop_last())
    } else {
        s
    }
}

/// The characters of `s` that sanitization retains, in order.
pub open spec fn retained(s: Seq<char>) -> Seq<char>
    decreases s.len(),
{
    if s.len() == 0 {
        Seq::empty()
    } else {
        let rest = retained(s.drop_last());
        if is_query_char(s.last()) {
            rest.push(s.last())
        } else {
            rest
        }
    }
}

/// A sanitized query: the raw query without surrounding whitespace, then
/// with only ASCII alphanumeric characters and spaces retained.
pub open spec fn sanitized(s: Seq<char>) -> Seq<char> {
    retained(trim_back(trim_front(s)))
}

/// Sanitizes a raw query string.
pub fn sanitize_query(raw: &str) -> (r: String)
    ensures
        r@ == sanitized(raw@),
{
    let n = raw.unicode_len();
    proof {
        assert(raw@.skip(0) =~= raw@);
    }
    let mut start: usize = 0;
    while start < n && check_ws(raw.get_char(start))
        invariant
            start <= n,
            n == raw@.len(),
            trim_front(raw@) == trim_front(raw@.skip(start as int)),
        decreases n - start,
    {
        proof {
            assert(raw@.skip(start as int).drop_first() =~= raw@.skip(start + 1));
        }
        start += 1;
    }
    proof {
        assert(trim_front(raw@.skip(start as int)) == raw@.skip(start as int));
        assert(raw@.skip(start as int) =~= raw@.subrange(start as int, n as int));
    }
    let mut end: usize = n;
    while end > start && check_ws(raw.get_char(end - 1))
        invariant
            start <= end <= n,
            n == raw@.len(),
            trim_front(raw@) == raw@.skip(start as int),
            trim_back(raw@.skip(start as int)) == trim_back(raw@.subrange(start as int, end as int)),
        decreases end,
    {
        proof {
            assert(raw@.subrange(start as int, end as int).drop_last() =~= raw@.subrange(
                start as int,
                end - 1,
            ));
            assert(raw@.subrange(start as int, end as int).last() == raw@[end - 1]);
        }
        end -= 1;
    }
    let ghost trimmed = raw@.subrange(start as int, end as int);
    proof {
        assert(trim_back(trimmed) == trimmed);
        assert(sanitized(raw@) == retained(trimmed));
    }
    let mut out = String::new();
    let mut i: usize = start;
    while i < end
        invariant
            start <= i <= end <= n,
            n == raw@.len(),
            trimmed == raw@.subrange(start as int, end as int),
            out@ == retained(raw@.subrange(start as int, i as int)),
        decreases end - i,
    {
        let c = raw.get_char(i);
        proof {
            assert(raw@.subrange(start as int, i + 1).drop_last() =~= raw@.subrange(
                start as int,
                i as int,
            ));
            assert(raw@.subrange(start as int, i + 1).last() == raw@[i as int]);
        }
        if check_query_char(c) {
            push_char(&mut out, c);
        }
        i += 1;
    }
    out
}

} // verus!
