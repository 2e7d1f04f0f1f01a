//! Small pieces of text: numbers written in decimal, and the leading segment
//! of a comma-separated name.

use vstd::prelude::*;
use vstd::string::*;

verus! {

/// The character that writes a single decimal digit.
pub open spec fn digit(d: int) -> char {
    if d == 0 {
        '0'
    } else if d == 1 {
        '1'
    } else if d == 2 {
        '2'
    } else if d == 3 {
        '3'
    } else if d == 4 {
        '4'
    } else if d == 5 {
        '5'
    } else if d == 6 {
        '6'
    } else if d == 7 {
        '7'
    } else if d == 8 {
        '8'
    } else {
        '9'
    }
}

/// A natural number written in decimal, without sign or leading zeros.
pub open spec fn decimal(n: nat) -> Seq<char>
    decreases n,
{
    if n < 10 {
        seq![digit(n as int)]
    } else {
        decimal(n / 10).push(digit((n % 10) as int))
    }
}

/// A number below one hundred written with exactly two digits.
pub open spec fn two_digits(n: nat) -> Seq<char> {
    seq![digit((n / 10) as int), digit((n % 10) as int)]
}

/// How many characters stand before the first comma of `s`; its whole length
/// where it holds no comma.
pub open spec fn segment_len(s: Seq<char>) -> nat
    decreases s.len(),
{
    if s.len() == 0 || s.first() == ',' {
        0
    } else {
        1 + segment_len(s.drop_first())
    }
}

/// The first of the segments that commas divide `s` into.
pub open spec fn first_segment(s: Seq<char>) -> Seq<char> {
    s.take(segment_len(s) as int)
}

/// One decimal digit as text.
fn digit_text(d: u32) -> (text: &'static str)
    requires
        d < 10,
    ensures
        text@ == seq![digit(d as int)],
{
    proof {
        reveal_strlit("0");
        reveal_strlit("1");
        reveal_strlit("2");
        reveal_strlit("3");
        reveal_strlit("4");
        reveal_strlit("5");
        reveal_strlit("6");
        reveal_strlit("7");
        reveal_strlit("8");
        reveal_strlit("9");
    }
    let text = if d == 0 {
        "0"
    } else if d == 1 {
        "1"
    } else if d == 2 {
        "2"
    } else if d == 3 {
        "3"
    } else if d == 4 {
        "4"
    } else if d == 5 {
        "5"
    } else if d == 6 {
        "6"
    } else if d == 7 {
        "7"
    } else if d == 8 {
        "8"
    } else {
        "9"
    };
    assert(text@ =~= seq![digit(d as int)]);
    text
}

/// Writes `n` in decimal.
pub fn decimal_string(n: u32) -> (text: String)
    ensures
        text@ == decimal(n as nat),
    decreases n,
{
    if n < 10 {
        String::from_str(digit_text(n))
    } else {
        let mut text = decimal_string(n / 10);
        text.append(digit_text(n % 10));
        assert(text@ =~= decimal(n as nat));
        text
    }
}

/// A prefix of `s` that holds no comma and ends at a comma or at the end of
/// `s` is the first segment of `s`.
pub proof fn lemma_segment_len(s: Seq<char>, n: int)
    requires
        0 <= n <= s.len(),
        forall|i: int| 0 <= i < n ==> s[i] != ',',
        n == s.len() || s[n] == ',',
    ensures
        segment_len(s) == n,
    decreases n,
{
    if n > 0 {
        let rest = s.drop_first();
        assert forall|i: int| 0 <= i < n - 1 implies rest[i] != ',' by {
            assert(rest[i] == s[i + 1]);
        }
        lemma_segment_len(rest, n - 1);
    }
}

/// The first segment is a prefix of the name, holds no comma, and is followed
/// by a comma wherever it is not the whole name.
pub proof fn lemma_first_segment(s: Seq<char>)
    ensures
        segment_len(s) <= s.len(),
        !first_segment(s).contains(','),
        segment_len(s) < s.len() ==> s[segment_len(s) as int] == ',',
    decreases s.len(),
{
    if s.len() == 0 || s.first() == ',' {
        assert(first_segment(s) =~= Seq::<char>::empty());
    } else {
        let rest = s.drop_first();
        lemma_first_segment(rest);
        let seg = first_segment(s);
        assert forall|i: int| 0 <= i < seg.len() implies seg[i] != ',' by {
            if i > 0 {
                assert(seg[i] == first_segment(rest)[i - 1]);
                assert(first_segment(rest).contains(first_segment(rest)[i - 1]));
            }
        }
    }
}

/// A name without a comma is its own first segment.
pub proof fn lemma_first_segment_without_comma(s: Seq<char>)
    requires
        !s.contains(','),
    ensures
        first_segment(s) == s,
{
    assert forall|i: int| 0 <= i < s.len() implies s[i] != ',' by {
        assert(s.contains(s[i]));
    }
    lemma_segment_len(s, s.len() as int);
    assert(s.take(s.len() as int) =~= s);
}

/// Keeps what stands before the first comma of `name`.
pub fn first_segment_string(name: &str) -> (segment: String)
    ensures
        segment@ == first_segment(name@),
{
    let len = name.unicode_len();
    let mut n: usize = 0;
    while n < len && name.get_char(n) != ','
        invariant
            n <= len,
            len == name@.len(),
            forall|i: int| 0 <= i < n ==> name@[i] != ',',
        decreases len - n,
    {
        n += 1;
    }
    proof {
        lemma_segment_len(name@, n as int);
    }
    String::from_str(name.substring_char(0, n))
}

} // verus!
