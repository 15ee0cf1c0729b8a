//! Text helpers: blank and trimmed input, comparison of strings, and the
//! decimal form of a number.

use vstd::prelude::*;
use vstd::std_specs::iter::IteratorSpec;
use vstd::string::StringSliceAdditionalSpecFns;
use vstd::utf8::encode_utf8_decode_utf8;

verus! {

/// Whether `char::is_whitespace` holds of `c`: the character has the Unicode
/// property `White_Space`.
pub uninterp spec fn white_space(c: char) -> bool;

/// Trusted: `char::is_whitespace` depends on the character alone; its
/// answer is named `white_space`.
pub assume_specification[ char::is_whitespace ](c: char) -> (white: bool)
    ensures
        white == white_space(c),
;

/// Every character of `s` is whitespace. The empty text is blank.
pub open spec fn blank(s: Seq<char>) -> bool {
    forall|i: int| 0 <= i < s.len() ==> white_space(#[trigger] s[i])
}

/// `s` without its leading whitespace.
pub open spec fn skip_leading(s: Seq<char>) -> Seq<char>
    decreases s.len(),
{
    if s.len() > 0 && white_space(s.first()) {
        skip_leading(s.drop_first())
    } else {
        s
    }
}

/// `s` without its trailing whitespace.
pub open spec fn skip_trailing(s: Seq<char>) -> Seq<char>
    decreases s.len(),
{
    if s.len() > 0 && white_space(s.last()) {
        skip_trailing(s.drop_last())
    } else {
        s
    }
}

/// `s` with leading and trailing whitespace removed.
pub open spec fn trimmed(s: Seq<char>) -> Seq<char> {
    skip_trailing(skip_leading(s))
}

/// `start..end` is the part of `s` that trimming keeps: only whitespace
/// lies outside it, and unless it is empty it begins and ends with a
/// character that is not whitespace.
pub open spec fn is_trim_range(s: Seq<char>, start: int, end: int) -> bool {
    &&& 0 <= start <= end <= s.len()
    &&& forall|i: int| 0 <= i < start ==> white_space(#[trigger] s[i])
    &&& forall|i: int| end <= i < s.len() ==> white_space(#[trigger] s[i])
    &&& start < end ==> !white_space(s[start]) && !white_space(s[end - 1])
}

proof fn lemma_skip_leading(s: Seq<char>, k: int)
    requires
        0 <= k <= s.len(),
        forall|i: int| 0 <= i < k ==> white_space(#[trigger] s[i]),
        k < s.len() ==> !white_space(s[k]),
    ensures
        skip_leading(s) == s.skip(k),
    decreases k,
{
    if k == 0 {
        assert(s.skip(0) =~= s);
    } else {
        let rest = s.drop_first();
        assert forall|i: int| 0 <= i < k - 1 implies white_space(#[trigger] rest[i]) by {
            assert(rest[i] == s[i + 1]);
        }
        lemma_skip_leading(rest, k - 1);
        assert(rest.skip(k - 1) =~= s.skip(k));
    }
}

proof fn lemma_skip_trailing(s: Seq<char>, k: int)
    requires
        0 <= k <= s.len(),
        forall|i: int| k <= i < s.len() ==> white_space(#[trigger] s[i]),
        0 < k ==> !white_space(s[k - 1]),
    ensures
        skip_trailing(s) == s.take(k),
    decreases s.len() - k,
{
    if k == s.len() {
        assert(s.take(k) =~= s);
    } else {
        let rest = s.drop_last();
        assert forall|i: int| k <= i < rest.len() implies white_space(#[trigger] rest[i]) by {
            assert(rest[i] == s[i]);
        }
        lemma_skip_trailing(rest, k);
        assert(rest.take(k) =~= s.take(k));
    }
}

/// A trim range cuts out exactly the trimmed text, and is empty exactly for
/// blank text.
pub proof fn lemma_trim_range(s: Seq<char>, start: int, end: int)
    requires
        is_trim_range(s, start, end),
    ensures
        trimmed(s) == s.subrange(start, end),
        blank(s) <==> start == end,
{
    if start == end {
        lemma_skip_leading(s, s.len() as int);
        assert(s.skip(s.len() as int) =~= Seq::<char>::empty());
        assert(skip_trailing(Seq::<char>::empty()) == Seq::<char>::empty());
        assert(s.subrange(start, end) =~= Seq::<char>::empty());
    } else {
        lemma_skip_leading(s, start);
        let tail = s.skip(start);
        assert forall|i: int| end - start <= i < tail.len() implies white_space(
            #[trigger] tail[i],
        ) by {
            assert(tail[i] == s[i + start]);
        }
        assert(tail[end - start - 1] == s[end - 1]);
        lemma_skip_trailing(tail, end - start);
        assert(tail.take(end - start) =~= s.subrange(start, end));
        assert(!white_space(s[start]));
    }
}

/// Trimming leaves nothing exactly of blank text; what it leaves of other
/// text begins and ends with a character that is not whitespace, and
/// trimming that again changes nothing.
pub proof fn lemma_trimmed(s: Seq<char>)
    ensures
        blank(s) <==> trimmed(s).len() == 0,
        trimmed(s).len() <= s.len(),
        !blank(s) ==> !white_space(trimmed(s).first()) && !white_space(trimmed(s).last()),
        trimmed(trimmed(s)) == trimmed(s),
{
    lemma_trim_range_exists(s);
    let (start, end) = trim_range_of(s);
    lemma_trim_range(s, start, end);
    let t = s.subrange(start, end);
    if start < end {
        assert(t.first() == s[start]);
        assert(t.last() == s[end - 1]);
        assert(is_trim_range(t, 0, t.len() as int));
        lemma_trim_range(t, 0, t.len() as int);
        assert(t.subrange(0, t.len() as int) =~= t);
    } else {
        assert(is_trim_range(t, 0, 0));
        lemma_trim_range(t, 0, 0);
        assert(t.subrange(0, 0) =~= t);
    }
}

/// Some trim range of `s`; every text has one.
spec fn trim_range_of(s: Seq<char>) -> (int, int) {
    choose|range: (int, int)| is_trim_range(s, range.0, range.1)
}

proof fn lemma_trim_range_exists(s: Seq<char>)
    ensures
        is_trim_range(s, trim_range_of(s).0, trim_range_of(s).1),
    decreases s.len(),
{
    if s.len() == 0 {
        assert(is_trim_range(s, (0int, 0int).0, (0int, 0int).1));
    } else if white_space(s.last()) {
        let rest = s.drop_last();
        lemma_trim_range_exists(rest);
        let (a, b) = trim_range_of(rest);
        assert forall|i: int| 0 <= i < a implies white_space(#[trigger] s[i]) by {
            assert(s[i] == rest[i]);
        }
        assert forall|i: int| b <= i < s.len() implies white_space(#[trigger] s[i]) by {
            if i < rest.len() {
                assert(s[i] == rest[i]);
            }
        }
        if a < b {
            assert(s[a] == rest[a]);
            assert(s[b - 1] == rest[b - 1]);
        }
        assert(is_trim_range(s, (a, b).0, (a, b).1));
    } else {
        let end = s.len() as int;
        let start = first_visible(s, 0);
        lemma_first_visible(s, 0);
        assert(is_trim_range(s, (start, end).0, (start, end).1));
    }
}

/// The index of the first character at or after `from` that is not
/// whitespace, or the length of `s` where there is none.
spec fn first_visible(s: Seq<char>, from: int) -> int
    decreases s.len() - from,
{
    if 0 <= from < s.len() && white_space(s[from]) {
        first_visible(s, from + 1)
    } else {
        from
    }
}

proof fn lemma_first_visible(s: Seq<char>, from: int)
    requires
        0 <= from <= s.len(),
    ensures
        from <= first_visible(s, from) <= s.len(),
        forall|i: int| from <= i < first_visible(s, from) ==> white_space(#[trigger] s[i]),
        first_visible(s, from) < s.len() ==> !white_space(s[first_visible(s, from)]),
    decreases s.len() - from,
{
    if from < s.len() && white_space(s[from]) {
        lemma_first_visible(s, from + 1);
    }
}

/// Finds the part of `s` that trimming keeps, as character positions.
fn trim_range(s: &str) -> (range: (usize, usize))
    ensures
        is_trim_range(s@, range.0 as int, range.1 as int),
{
    let n = s.unicode_len();
    let mut rest = s.chars();
    let mut i: usize = 0;
    let mut start: usize = 0;
    let mut end: usize = 0;
    loop
        invariant
            n == s@.len(),
            i <= n,
            rest.remaining() == s@.skip(i as int),
            start <= end <= i,
            end == 0 ==> start == 0,
            end > 0 ==> start < end,
            forall|j: int| 0 <= j < start ==> white_space(#[trigger] s@[j]),
            forall|j: int| end <= j < i ==> white_space(#[trigger] s@[j]),
            start < end ==> !white_space(s@[start as int]) && !white_space(s@[end - 1]),
        ensures
            i == n,
            start <= end <= i,
            forall|j: int| 0 <= j < start ==> white_space(#[trigger] s@[j]),
            forall|j: int| end <= j < i ==> white_space(#[trigger] s@[j]),
            start < end ==> !white_space(s@[start as int]) && !white_space(s@[end - 1]),
        decreases n - i,
    {
        let ghost before = rest.remaining();
        match rest.next() {
            Some(c) => {
                assert(before.len() > 0);
                assert(c == s@[i as int]);
                if !c.is_whitespace() {
                    if end == 0 {
                        start = i;
                    }
                    end = i + 1;
                }
                i = i + 1;
                assert(before.drop_first() =~= s@.skip(i as int));
            },
            None => {
                assert(before.len() == 0);
                break ;
            },
        }
    }
    (start, end)
}

/// `text` with leading and trailing whitespace removed, as `str::trim`
/// gives it.
pub fn trim(text: &str) -> (kept: &str)
    ensures
        kept@ == trimmed(text@),
{
    let (start, end) = trim_range(text);
    proof {
        lemma_trim_range(text@, start as int, end as int);
    }
    text.substring_char(start, end)
}

/// Whether `text` is empty or holds whitespace only.
pub fn is_blank(text: &str) -> (empty: bool)
    ensures
        empty == blank(text@),
{
    let (start, end) = trim_range(text);
    proof {
        lemma_trim_range(text@, start as int, end as int);
    }
    start == end
}

/// Whether two strings hold the same text.
pub fn same_text(a: &str, b: &str) -> (same: bool)
    ensures
        same == (a@ == b@),
{
    let x = a.as_bytes();
    let y = b.as_bytes();
    proof {
        encode_utf8_decode_utf8(a@);
        encode_utf8_decode_utf8(b@);
    }
    if x.len() != y.len() {
        return false;
    }
    let mut i: usize = 0;
    while i < x.len()
        invariant
            x@ == a.spec_bytes(),
            y@ == b.spec_bytes(),
            x.len() == y.len(),
            i <= x.len(),
            forall|j: int| 0 <= j < i ==> x@[j] == y@[j],
        decreases x.len() - i,
    {
        if x[i] != y[i] {
            return false;
        }
        i = i + 1;
    }
    assert(x@ =~= y@);
    true
}

/// The character that writes the digit `d`.
pub open spec fn digit_char(d: nat) -> char {
    if d == 0 {
        '0'
    } else if d == 1 {
        '1'
    } else if d == 2 {
        '2'
    } else if d == 3 {
        '3'
    } else if d == 4 {
        '4'
    } else if d == 5 {
        '5'
    } else if d == 6 {
        '6'
    } else if d == 7 {
        '7'
    } else if d == 8 {
        '8'
    } else {
        '9'
    }
}

/// `n` written in base ten, without leading zeros.
pub open spec fn decimal_digits(n: nat) -> Seq<char>
    decreases n,
{
    if n < 10 {
        seq![digit_char(n)]
    } else {
        decimal_digits(n / 10).push(digit_char(n % 10))
    }
}

fn digit(d: usize) -> (text: &'static str)
    requires
        d < 10,
    ensures
        text@ == seq![digit_char(d as nat)],
{
    proof {
        reveal_strlit("0");
        reveal_strlit("1");
        reveal_strlit("2");
        reveal_strlit("3");
        reveal_strlit("4");
        reveal_strlit("5");
        reveal_strlit("6");
        reveal_strlit("7");
        reveal_strlit("8");
        reveal_strlit("9");
    }
    let text = if d == 0 {
        "0"
    } else if d == 1 {
        "1"
    } else if d == 2 {
        "2"
    } else if d == 3 {
        "3"
    } else if d == 4 {
        "4"
    } else if d == 5 {
        "5"
    } else if d == 6 {
        "6"
    } else if d == 7 {
        "7"
    } else if d == 8 {
        "8"
    } else {
        "9"
    };
    assert(text@ =~= seq![digit_char(d as nat)]);
    text
}

/// `n` written in base ten.
pub fn decimal(n: usize) -> (text: String)
    ensures
        text@ == decimal_digits(n as nat),
    decreases n,
{
    if n < 10 {
        digit(n).to_owned()
    } else {
        let mut text = decimal(n / 10);
        text.append(digit(n % 10));
        assert(text@ =~= decimal_digits(n as nat));
        text
    }
}

} // verus!
