//! Trimming: a string without the white space at its ends.

use crate::outside::is_white_space;
use vstd::prelude::*;
use vstd::std_specs::iter::IteratorSpec;

verus! {

/// Whether `c` has the Unicode `White_Space` property: the controls from
/// tab to carriage return, the space, next line, the no-break space, the
/// ogham space mark, the spaces from en quad to hair space, the line and
/// paragraph separators, the narrow no-break space, the medium mathematical
/// space and the ideographic space.
pub open spec fn white_space(c: char) -> bool {
    let code = c as u32;
    ||| 0x0009 <= code <= 0x000D
    ||| code == 0x0020
    ||| code == 0x0085
    ||| code == 0x00A0
    ||| code == 0x1680
    ||| 0x2000 <= code <= 0x200A
    ||| code == 0x2028
    ||| code == 0x2029
    ||| code == 0x202F
    ||| code == 0x205F
    ||| code == 0x3000
}

/// How many characters of white space `s` starts with.
pub open spec fn leading_white_space(s: Seq<char>) -> nat
    decreases s.len(),
{
    if s.len() > 0 && white_space(s.first()) {
        1 + leading_white_space(s.drop_first())
    } else {
        0
    }
}

/// How many characters of white space `s` ends with.
pub open spec fn trailing_white_space(s: Seq<char>) -> nat
    decreases s.len(),
{
    if s.len() > 0 && white_space(s.last()) {
        1 + trailing_white_space(s.drop_last())
    } else {
        0
    }
}

/// `s` without the white space at its two ends.
pub open spec fn trimmed(s: Seq<char>) -> Seq<char> {
    let rest = s.skip(leading_white_space(s) as int);
    rest.take(rest.len() - trailing_white_space(rest))
}

/// The first `k` characters of `s` are its whole leading white space when
/// they are white space and the next one, if any, is not.
pub proof fn lemma_leading_white_space(s: Seq<char>, k: int)
    requires
        0 <= k <= s.len(),
        forall|j: int| 0 <= j < k ==> white_space(#[trigger] s[j]),
        k < s.len() ==> !white_space(s[k]),
    ensures
        leading_white_space(s) == k,
    decreases k,
{
    if k > 0 {
        let rest = s.drop_first();
        assert forall|j: int| 0 <= j < k - 1 implies white_space(#[trigger] rest[j]) by {
            assert(rest[j] == s[j + 1]);
        }
        lemma_leading_white_space(rest, k - 1);
    }
}

/// The last `k` characters of `s` are its whole trailing white space when
/// they are white space and the one before them, if any, is not.
pub proof fn lemma_trailing_white_space(s: Seq<char>, k: int)
    requires
        0 <= k <= s.len(),
        forall|j: int| s.len() - k <= j < s.len() ==> white_space(#[trigger] s[j]),
        k < s.len() ==> !white_space(s[s.len() - k - 1]),
    ensures
        trailing_white_space(s) == k,
    decreases k,
{
    if k > 0 {
        let rest = s.drop_last();
        assert forall|j: int| rest.len() - (k - 1) <= j < rest.len() implies white_space(
            #[trigger] rest[j],
        ) by {
            assert(rest[j] == s[j]);
        }
        lemma_trailing_white_space(rest, k - 1);
    }
}

/// A string of nothing but white space is trimmed away, and only such a
/// string is.
pub proof fn lemma_trimmed_away(s: Seq<char>)
    ensures
        trimmed(s).len() == 0 <==> forall|j: int| 0 <= j < s.len() ==> white_space(#[trigger] s[j]),
{
    lemma_leading_bounds(s);
    let start = leading_white_space(s) as int;
    let rest = s.skip(start);
    lemma_trailing_bounds(rest);
    if start == s.len() {
    } else {
        assert(rest[0] == s[start]);
        if trailing_white_space(rest) == rest.len() {
            assert(rest.len() - rest.len() <= 0 < rest.len());
        }
    }
}

/// The leading white space is white space, and what follows it is none.
pub proof fn lemma_leading_bounds(s: Seq<char>)
    ensures
        leading_white_space(s) <= s.len(),
        forall|j: int| 0 <= j < leading_white_space(s) ==> white_space(#[trigger] s[j]),
        leading_white_space(s) < s.len() ==> !white_space(s[leading_white_space(s) as int]),
    decreases s.len(),
{
    if s.len() > 0 && white_space(s.first()) {
        let rest = s.drop_first();
        lemma_leading_bounds(rest);
        assert forall|j: int| 0 <= j < leading_white_space(s) implies white_space(
            #[trigger] s[j],
        ) by {
            if j > 0 {
                assert(s[j] == rest[j - 1]);
            }
        }
        if leading_white_space(s) < s.len() {
            assert(s[leading_white_space(s) as int] == rest[leading_white_space(rest) as int]);
        }
    }
}

/// The trailing white space is white space, and what stands before it is
/// none.
pub proof fn lemma_trailing_bounds(s: Seq<char>)
    ensures
        trailing_white_space(s) <= s.len(),
        forall|j: int|
            s.len() - trailing_white_space(s) <= j < s.len() ==> white_space(#[trigger] s[j]),
        trailing_white_space(s) < s.len() ==> !white_space(
            s[s.len() - trailing_white_space(s) - 1],
        ),
    decreases s.len(),
{
    if s.len() > 0 && white_space(s.last()) {
        let rest = s.drop_last();
        lemma_trailing_bounds(rest);
        assert forall|j: int|
            s.len() - trailing_white_space(s) <= j < s.len() implies white_space(
            #[trigger] s[j],
        ) by {
            if j < s.len() - 1 {
                assert(s[j] == rest[j]);
            }
        }
        if trailing_white_space(s) < s.len() {
            assert(s[s.len() - trailing_white_space(s) - 1] == rest[rest.len()
                - trailing_white_space(rest) - 1]);
        }
    }
}

/// Removes the white space at both ends of `s`.
pub fn trim(s: &str) -> (r: &str)
    ensures
        r@ == trimmed(s@),
{
    broadcast use vstd::string::group_string_axioms;

    let n: usize = s.unicode_len();
    // The characters before `start` are white space; `end` is one past the
    // last character seen so far that is none.
    let mut start: usize = 0;
    let mut end: usize = 0;
    let mut i: usize = 0;
    let mut chars = s.chars();
    loop
        invariant
            n == s@.len(),
            i <= n,
            chars.remaining() == s@.skip(i as int),
            start <= i,
            forall|j: int| 0 <= j < start ==> white_space(#[trigger] s@[j]),
            end == 0 ==> start == i,
            end > 0 ==> start < end <= i && !white_space(s@[start as int]) && !white_space(
                s@[end - 1],
            ),
            forall|j: int| end <= j < i && end > 0 ==> white_space(#[trigger] s@[j]),
        ensures
            i == n,
        decreases n - i,
    {
        match chars.next() {
            None => {
                break;
            },
            Some(c) => {
                assert(c == s@[i as int]);
                if !is_white_space(c) {
                    end = i + 1;
                } else if end == 0 {
                    start = i + 1;
                }
                i = i + 1;
            },
        }
    }
    if end == 0 {
        end = start;
    }
    proof {
        lemma_leading_white_space(s@, start as int);
        let rest = s@.skip(start as int);
        assert forall|j: int| rest.len() - (n - end) <= j < rest.len() implies white_space(
            #[trigger] rest[j],
        ) by {
            assert(rest[j] == s@[j + start]);
        }
        if n - end < rest.len() {
            assert(rest[rest.len() - (n - end) - 1] == s@[end - 1]);
        }
        lemma_trailing_white_space(rest, n - end);
        assert(rest.take(rest.len() - (n - end)) =~= s@.subrange(start as int, end as int));
    }
    s.substring_char(start, end)
}

} // verus!
