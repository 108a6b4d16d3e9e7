//! Character-level helpers for the strings that pass through the dialogue glue.
//!
//! Every function here is stated over the `Seq<char>` view of its arguments.

use vstd::prelude::*;
use vstd::string::StringExecFns;

verus! {

/// `String::push` appends one character to the end of the string.
pub assume_specification[ String::push ](s: &mut String, c: char)
    ensures
        final(s)@ == old(s)@.push(c),
;

/// The characters of `s`, in order.
pub fn chars_of(s: &str) -> (v: Vec<char>)
    ensures
        v@ == s@,
{
    let mut v: Vec<char> = Vec::new();
    for c in it: s.chars()
        invariant
            it.seq() == s@,
            v@ == it.seq().take(it.index()),
    {
        v.push(c);
    }
    v
}

/// `s` with every occurrence of `c` taken out.
pub open spec fn without_char(s: Seq<char>, c: char) -> Seq<char> {
    s.filter(|x: char| x != c)
}

/// Removes every occurrence of `c` from `s`.
pub fn remove_char(s: &str, c: char) -> (r: String)
    ensures
        r@ == without_char(s@, c),
{
    let chars = chars_of(s);
    let mut r = String::new();
    let mut i: usize = 0;
    proof {
        reveal(Seq::filter);
    }
    while i < chars.len()
        invariant
            i <= chars.len(),
            chars@ == s@,
            r@ == without_char(chars@.take(i as int), c),
        decreases chars.len() - i,
    {
        proof {
            reveal(Seq::filter);
            assert(chars@.take(i + 1).drop_last() == chars@.take(i as int));
        }
        if chars[i] != c {
            r.push(chars[i]);
        }
        i += 1;
    }
    proof {
        assert(chars@.take(i as int) == chars@);
    }
    r
}

/// Whether `pattern` occurs in `text` starting at position `at`.
pub open spec fn occurs_at(text: Seq<char>, pattern: Seq<char>, at: int) -> bool {
    &&& 0 <= at
    &&& at + pattern.len() <= text.len()
    &&& text.subrange(at, at + pattern.len()) == pattern
}

/// `text` with each occurrence of `from` replaced by `to`, scanning from the
/// left; an occurrence that overlaps an earlier, replaced one is not seen.
/// With an empty `from` the text is left as it is.
pub open spec fn replace_all(text: Seq<char>, from: Seq<char>, to: Seq<char>) -> Seq<char>
    decreases text.len(),
{
    if from.len() == 0 || text.len() < from.len() {
        text
    } else if occurs_at(text, from, 0) {
        to + replace_all(text.skip(from.len() as int), from, to)
    } else {
        seq![text[0]] + replace_all(text.skip(1), from, to)
    }
}

/// Tests whether `pattern` occurs in `text` at `at`.
pub fn matches_at(text: &Vec<char>, pattern: &Vec<char>, at: usize) -> (b: bool)
    requires
        at <= text.len(),
    ensures
        b == occurs_at(text@, pattern@, at as int),
{
    if pattern.len() > text.len() - at {
        return false;
    }
    let mut j: usize = 0;
    while j < pattern.len()
        invariant
            j <= pattern.len(),
            at + pattern.len() <= text.len(),
            forall|k: int| 0 <= k < j ==> text@[at + k] == pattern@[k],
        decreases pattern.len() - j,
    {
        if text[at + j] != pattern[j] {
            proof {
                let window = text@.subrange(at as int, at + pattern.len());
                assert(window[j as int] != pattern@[j as int]);
            }
            return false;
        }
        j += 1;
    }
    proof {
        assert(text@.subrange(at as int, at + pattern.len()) =~= pattern@);
    }
    true
}

/// Replaces each occurrence of `from` in `text` by `to`, as `replace_all` says.
pub fn replace(text: &str, from: &str, to: &str) -> (r: String)
    ensures
        r@ == replace_all(text@, from@, to@),
{
    let source = chars_of(text);
    let pattern = chars_of(from);
    if pattern.len() == 0 {
        return String::from_str(text);
    }
    let mut r = String::new();
    let mut i: usize = 0;
    proof {
        assert(source@.skip(0) == source@);
        assert(r@ + source@ == source@);
    }
    while i < source.len()
        invariant
            i <= source.len(),
            pattern.len() > 0,
            source@ == text@,
            pattern@ == from@,
            replace_all(text@, from@, to@) == r@ + replace_all(
                source@.skip(i as int),
                from@,
                to@,
            ),
        decreases source.len() - i,
    {
        let ghost rest = source@.skip(i as int);
        if matches_at(&source, &pattern, i) {
            proof {
                assert(rest.subrange(0, pattern.len() as int) == source@.subrange(
                    i as int,
                    i + pattern.len(),
                ));
                assert(rest.skip(pattern.len() as int) == source@.skip(i + pattern.len()));
            }
            r.append(to);
            i += pattern.len();
        } else {
            proof {
                if rest.len() >= pattern.len() {
                    assert(rest.subrange(0, pattern.len() as int) == source@.subrange(
                        i as int,
                        i + pattern.len(),
                    ));
                    assert(rest.skip(1) == source@.skip(i + 1));
                } else {
                    lemma_replace_all_short(rest, from@, to@);
                    lemma_replace_all_short(source@.skip(i + 1), from@, to@);
                    assert(rest == seq![rest[0]] + source@.skip(i + 1));
                }
            }
            r.push(source[i]);
            i += 1;
        }
    }
    r
}

/// A text shorter than the pattern holds no occurrence of it.
pub proof fn lemma_replace_all_short(text: Seq<char>, from: Seq<char>, to: Seq<char>)
    requires
        text.len() < from.len(),
    ensures
        replace_all(text, from, to) == text,
{
}

/// The character that stands for the digit `d`.
pub open spec fn digit_char(d: nat) -> char {
    if d == 0 {
        '0'
    } else if d == 1 {
        '1'
    } else if d == 2 {
        '2'
    } else if d == 3 {
        '3'
    } else if d == 4 {
        '4'
    } else if d == 5 {
        '5'
    } else if d == 6 {
        '6'
    } else if d == 7 {
        '7'
    } else if d == 8 {
        '8'
    } else {
        '9'
    }
}

/// The decimal numeral of `n`, without leading zeros.
pub open spec fn decimal_digits(n: nat) -> Seq<char>
    decreases n,
{
    if n < 10 {
        seq![digit_char(n)]
    } else {
        decimal_digits(n / 10).push(digit_char(n % 10))
    }
}

fn digit(d: usize) -> (c: char)
    requires
        d < 10,
    ensures
        c == digit_char(d as nat),
{
    if d == 0 {
        '0'
    } else if d == 1 {
        '1'
    } else if d == 2 {
        '2'
    } else if d == 3 {
        '3'
    } else if d == 4 {
        '4'
    } else if d == 5 {
        '5'
    } else if d == 6 {
        '6'
    } else if d == 7 {
        '7'
    } else if d == 8 {
        '8'
    } else {
        '9'
    }
}

/// Appends the decimal numeral of `n` to `out`.
pub fn push_decimal(out: &mut String, n: usize)
    ensures
        final(out)@ == old(out)@ + decimal_digits(n as nat),
    decreases n,
{
    if n >= 10 {
        push_decimal(out, n / 10);
    }
    out.push(digit(n % 10));
}

/// The decimal numeral of `n`.
pub fn decimal(n: usize) -> (r: String)
    ensures
        r@ == decimal_digits(n as nat),
{
    let mut r = String::new();
    push_decimal(&mut r, n);
    r
}

/// What is left after `c` has been taken out holds no `c`, and a text
/// without `c` loses nothing.
pub proof fn lemma_without_char(s: Seq<char>, c: char)
    ensures
        !without_char(s, c).contains(c),
        !s.contains(c) ==> without_char(s, c) == s,
        without_char(s, c).len() <= s.len(),
{
    let keep = |x: char| x != c;
    s.lemma_filter_len(keep);
    if !s.contains(c) {
        lemma_filter_keeps_all(s, c);
    }
    if without_char(s, c).contains(c) {
        let i = choose|i: int| 0 <= i < without_char(s, c).len() && without_char(s, c)[i] == c;
        s.lemma_filter_pred(keep, i);
    }
}

proof fn lemma_filter_keeps_all(s: Seq<char>, c: char)
    requires
        !s.contains(c),
    ensures
        without_char(s, c) == s,
    decreases s.len(),
{
    reveal(Seq::filter);
    if s.len() > 0 {
        let earlier = s.drop_last();
        assert forall|i: int| 0 <= i < earlier.len() implies earlier[i] != c by {
            assert(s[i] == earlier[i]);
            assert(s.contains(s[i]));
        }
        assert(!earlier.contains(c));
        lemma_filter_keeps_all(earlier, c);
        assert(s.contains(s.last()));
        assert(earlier.push(s.last()) =~= s);
    }
}

/// A text in which `from` occurs nowhere is left as it is.
pub proof fn lemma_replace_all_absent(text: Seq<char>, from: Seq<char>, to: Seq<char>)
    requires
        forall|at: int| !occurs_at(text, from, at),
    ensures
        replace_all(text, from, to) == text,
    decreases text.len(),
{
    if from.len() > 0 && text.len() >= from.len() {
        let rest = text.skip(1);
        assert forall|at: int| !occurs_at(rest, from, at) by {
            if occurs_at(rest, from, at) {
                assert(text.subrange(at + 1, at + 1 + from.len()) =~= rest.subrange(
                    at,
                    at + from.len(),
                ));
                assert(occurs_at(text, from, at + 1));
            }
        }
        lemma_replace_all_absent(rest, from, to);
        assert(seq![text[0]] + rest =~= text);
    }
}

/// The numeral of a number is made of digits, and has at least one.
pub proof fn lemma_decimal_digits(n: nat)
    ensures
        decimal_digits(n).len() >= 1,
        forall|i: int|
            0 <= i < decimal_digits(n).len() ==> '0' <= #[trigger] decimal_digits(n)[i] <= '9',
    decreases n,
{
    if n >= 10 {
        lemma_decimal_digits(n / 10);
    }
}

/// Two numbers with the same numeral are the same number.
pub proof fn lemma_decimal_digits_differ(a: nat, b: nat)
    requires
        decimal_digits(a) == decimal_digits(b),
    ensures
        a == b,
    decreases a,
{
    lemma_decimal_digits(a / 10);
    lemma_decimal_digits(b / 10);
    if a >= 10 && b >= 10 {
        let shorter_a = decimal_digits(a / 10);
        let shorter_b = decimal_digits(b / 10);
        assert(shorter_a.push(digit_char(a % 10)).drop_last() == shorter_a);
        assert(shorter_b.push(digit_char(b % 10)).drop_last() == shorter_b);
        assert(shorter_a.push(digit_char(a % 10)).last() == digit_char(a % 10));
        assert(shorter_b.push(digit_char(b % 10)).last() == digit_char(b % 10));
        lemma_decimal_digits_differ(a / 10, b / 10);
    } else if a < 10 && b < 10 {
        assert(decimal_digits(a)[0] == digit_char(a));
        assert(decimal_digits(b)[0] == digit_char(b));
    } else if a < 10 {
        assert(decimal_digits(a).len() == 1);
        assert(decimal_digits(b).len() == decimal_digits(b / 10).len() + 1);
    } else {
        assert(decimal_digits(b).len() == 1);
        assert(decimal_digits(a).len() == decimal_digits(a / 10).len() + 1);
    }
}

} // verus!
