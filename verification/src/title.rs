//! Chapter title normalization: maps a raw spine label to its canonical
//! display title.

use vstd::prelude::*;
use vstd::string::StrSliceExecFns;
use vstd::string::StringExecFns;

use crate::text::check_digit;
use crate::text::eq_ignore_case;
use crate::text::is_digit_char;
use crate::text::matches_ci;
use crate::text::push_char;
use crate::text::starts_with_ci;
use crate::text::starts_with_ignore_case;

verus! {

/// The ASCII digits of `s`, in their original order.
pub open spec fn digits_of(s: Seq<char>) -> Seq<char>
    decreases s.len(),
{
    if s.len() == 0 {
        Seq::empty()
    } else {
        let rest = digits_of(s.drop_last());
        if is_digit_char(s.last()) {
            rest.push(s.last())
        } else {
            rest
        }
    }
}

/// The canonical display title for a raw chapter label: "prologue" and
/// "epilogue" are capitalized, a label starting with "chapter" becomes
/// `Chapter ` followed by every ASCII digit of the label (possibly none),
/// and any other label is kept as it is. All label matching ignores ASCII
/// case.
pub open spec fn normalized_title(s: Seq<char>) -> Seq<char> {
    if matches_ci(s, "prologue"@) {
        "Prologue"@
    } else if matches_ci(s, "epilogue"@) {
        "Epilogue"@
    } else if starts_with_ci(s, "chapter"@) {
        "Chapter "@ + digits_of(s)
    } else {
        s
    }
}

/// Canonical display title of a raw chapter label.
pub fn pretty_chapter(raw_chapter: &str) -> (r: String)
    ensures
        r@ == normalized_title(raw_chapter@),
{
    if eq_ignore_case(raw_chapter, "prologue") {
        String::from_str("Prologue")
    } else if eq_ignore_case(raw_chapter, "epilogue") {
        String::from_str("Epilogue")
    } else if starts_with_ignore_case(raw_chapter, "chapter") {
        let mut out = String::from_str("Chapter ");
        let n = raw_chapter.unicode_len();
        let mut i: usize = 0;
        while i < n
            invariant
                i <= n,
                n == raw_chapter@.len(),
                out@ == "Chapter "@ + digits_of(raw_chapter@.take(i as int)),
            decreases n - i,
        {
            let c = raw_chapter.get_char(i);
            proof {
                assert(raw_chapter@.take(i + 1).drop_last() =~= raw_chapter@.take(i as int));
                assert(raw_chapter@.take(i + 1).last() == raw_chapter@[i as int]);
            }
            if check_digit(c) {
                push_char(&mut out, c);
                proof {
                    assert(("Chapter "@ + digits_of(raw_chapter@.take(i as int))).push(c) =~= "Chapter "@
                        + digits_of(raw_chapter@.take(i + 1)));
                }
            }
            i += 1;
        }
        proof {
            assert(raw_chapter@.take(n as int) =~= raw_chapter@);
        }
        out
    } else {
        String::from_str(raw_chapter)
    }
}

} // verus!
