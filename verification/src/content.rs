//! Content normalization: turns a chapter's rendered plain text into the
//! ordered sequence of paragraph candidates, one per retained line.

use vstd::prelude::*;
use vstd::string::StrSliceExecFns;
use vstd::string::StringExecFns;

use crate::text::push_char;

verus! {

/// The lines of `s` in the sense of `str::lines`, before the trailing
/// carriage return of a line is removed: `s` is split at every newline,
/// and a final newline does not open an empty last line.
pub open spec fn split_lines(s: Seq<char>) -> Seq<Seq<char>>
    decreases s.len(),
{
    if s.len() == 0 {
        Seq::empty()
    } else {
        let p = s.drop_last();
        let rest = split_lines(p);
        if s.last() == '\n' {
            if p.len() == 0 || p.last() == '\n' {
                rest.push(Seq::empty())
            } else {
                rest
            }
        } else {
            if p.len() == 0 || p.last() == '\n' {
                rest.push(seq![s.last()])
            } else {
                rest.update(rest.len() - 1, rest.last().push(s.last()))
            }
        }
    }
}

/// A line without its trailing carriage return, if it has one.
pub open spec fn chomp_cr(l: Seq<char>) -> Seq<char> {
    if l.len() > 0 && l.last() == '\r' {
        l.drop_last()
    } else {
        l
    }
}

/// A line is kept as a paragraph candidate when it is non-empty and does
/// not open with `[`, the mark of footnote matter that leaks through
/// rendering.
pub open spec fn keep_line(l: Seq<char>) -> bool {
    l.len() > 0 && l[0] != '['
}

/// The kept lines among `lines`, each without its trailing carriage
/// return, in order.
pub open spec fn kept_of(lines: Seq<Seq<char>>) -> Seq<Seq<char>>
    decreases lines.len(),
{
    if lines.len() == 0 {
        Seq::empty()
    } else {
        let l = chomp_cr(lines.last());
        let rest = kept_of(lines.drop_last());
        if keep_line(l) {
            rest.push(l)
        } else {
            rest
        }
    }
}

/// The paragraph candidates of a chapter's rendered content.
pub open spec fn kept_lines(s: Seq<char>) -> Seq<Seq<char>> {
    kept_of(split_lines(s))
}

/// Splits rendered content into its raw lines.
fn split_raw_lines(s: &str) -> (r: Vec<String>)
    ensures
        r.deep_view() == split_lines(s@),
{
    let n = s.unicode_len();
    let mut done: Vec<String> = Vec::new();
    let mut cur = String::new();
    let mut i: usize = 0;
    while i < n
        invariant
            i <= n,
            n == s@.len(),
            cur@.len() == 0 ==> s@.take(i as int).len() == 0 || s@.take(i as int).last() == '\n',
            cur@.len() > 0 ==> s@.take(i as int).len() > 0 && s@.take(i as int).last() != '\n',
            cur@.len() == 0 ==> split_lines(s@.take(i as int)) == done.deep_view(),
            cur@.len() > 0 ==> split_lines(s@.take(i as int)) == done.deep_view().push(cur@),
        decreases n - i,
    {
        let c = s.get_char(i);
        proof {
            assert(s@.take(i + 1).drop_last() =~= s@.take(i as int));
            assert(s@.take(i + 1).last() == s@[i as int]);
        }
        if c == '\n' {
            let ghost prev_done = done.deep_view();
            let ghost prev_cur = cur@;
            done.push(cur);
            cur = String::new();
            proof {
                assert(done.deep_view() =~= prev_done.push(prev_cur));
                if prev_cur.len() == 0 {
                    assert(prev_cur =~= Seq::<char>::empty());
                }
            }
        } else {
            let ghost prev_done = done.deep_view();
            let ghost prev_cur = cur@;
            push_char(&mut cur, c);
            proof {
                if prev_cur.len() == 0 {
                    assert(cur@ =~= seq![c]);
                } else {
                    assert(prev_done.push(prev_cur).update(
                        prev_done.push(prev_cur).len() - 1,
                        prev_cur.push(c),
                    ) =~= prev_done.push(prev_cur.push(c)));
                }
            }
        }
        i += 1;
    }
    proof {
        assert(s@.take(n as int) =~= s@);
    }
    if !cur.as_str().is_empty() {
        let ghost prev_done = done.deep_view();
        let ghost prev_cur = cur@;
        done.push(cur);
        proof {
            assert(done.deep_view() =~= prev_done.push(prev_cur));
        }
    }
    done
}

/// Removes the trailing carriage return of one raw line, if present.
fn chomp_line(l: String) -> (r: String)
    ensures
        r@ == chomp_cr(l@),
{
    let n = l.as_str().unicode_len();
    if n > 0 && l.as_str().get_char(n - 1) == '\r' {
        let r = String::from_str(l.as_str().substring_char(0, n - 1));
        proof {
            assert(l@.subrange(0, n - 1) =~= l@.drop_last());
        }
        r
    } else {
        l
    }
}

/// The ordered paragraph candidates of one chapter's rendered content:
/// one entry per line of `content` that is non-empty and does not begin
/// with `[`, with a trailing carriage return removed.
pub fn content_lines(content: &str) -> (r: Vec<String>)
    ensures
        r.deep_view() == kept_lines(content@),
{
    let raw = split_raw_lines(content);
    let mut out: Vec<String> = Vec::new();
    let mut j: usize = 0;
    let m = raw.len();
    while j < m
        invariant
            j <= m,
            m == raw.deep_view().len(),
            raw.deep_view() == split_lines(content@),
            out.deep_view() == kept_of(raw.deep_view().take(j as int)),
        decreases m - j,
    {
        proof {
            assert(raw.deep_view().take(j + 1).drop_last() =~= raw.deep_view().take(j as int));
            assert(raw.deep_view().take(j + 1).last() == raw.deep_view()[j as int]);
            assert(raw[j as int]@ == raw.deep_view()[j as int]);
        }
        let line = chomp_line(raw[j].clone());
        let keep = {
            let ls = line.as_str();
            let ln = ls.unicode_len();
            ln > 0 && ls.get_char(0) != '['
        };
        if keep {
            let ghost prev_out = out.deep_view();
            out.push(line);
            proof {
                assert(out.deep_view() =~= prev_out.push(chomp_cr(raw.deep_view()[j as int])));
            }
        }
        j += 1;
    }
    proof {
        assert(raw.deep_view().take(m as int) =~= raw.deep_view());
    }
    out
}

} // verus!
