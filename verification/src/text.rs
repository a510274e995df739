use vstd::prelude::*;
use vstd::string::*;

verus! {

/// Whether `c` has the Unicode property `White_Space`.
pub open spec fn is_white_space_char(c: char) -> bool {
    ||| '\u{9}' <= c <= '\u{d}'
    ||| c == ' '
    ||| c == '\u{85}'
    ||| c == '\u{a0}'
    ||| c == '\u{1680}'
    ||| '\u{2000}' <= c <= '\u{200a}'
    ||| c == '\u{2028}'
    ||| c == '\u{2029}'
    ||| c == '\u{202f}'
    ||| c == '\u{205f}'
    ||| c == '\u{3000}'
}

/// `s` without the white space at its two ends.
pub open spec fn trimmed(s: Seq<char>) -> Seq<char>
    decreases s.len(),
{
    if s.len() == 0 {
        s
    } else if is_white_space_char(s.first()) {
        trimmed(s.drop_first())
    } else if is_white_space_char(s.last()) {
        trimmed(s.drop_last())
    } else {
        s
    }
}

/// `s` without the run of `c` that it starts with.
pub open spec fn without_leading(s: Seq<char>, c: char) -> Seq<char>
    decreases s.len(),
{
    if s.len() > 0 && s.first() == c {
        without_leading(s.drop_first(), c)
    } else {
        s
    }
}

/// The place of the first `c` in `s`, or the length of `s` where there is none.
pub open spec fn place_of(s: Seq<char>, c: char) -> int
    decreases s.len(),
{
    if s.len() == 0 || s.first() == c {
        0
    } else {
        1 + place_of(s.drop_first(), c)
    }
}

/// The pieces of `s` between one `separator` and the next, empty pieces too.
pub open spec fn pieces(s: Seq<char>, separator: char) -> Seq<Seq<char>>
    decreases s.len(),
    via pieces_shrink
{
    let at = place_of(s, separator);
    if at < s.len() {
        seq![s.take(at)] + pieces(s.skip(at + 1), separator)
    } else {
        seq![s]
    }
}

#[via_fn]
proof fn pieces_shrink(s: Seq<char>, separator: char) {
    lemma_place_of(s, separator);
}

/// The texts of `parts`, one after the other, with `separator` between two of them.
pub open spec fn joined(parts: Seq<Seq<char>>, separator: Seq<char>) -> Seq<char>
    decreases parts.len(),
{
    if parts.len() == 0 {
        Seq::empty()
    } else if parts.len() == 1 {
        parts[0]
    } else {
        parts[0] + separator + joined(parts.drop_first(), separator)
    }
}

/// `place_of` is a place in `s` or its end, `c` stands there, and nowhere before.
pub proof fn lemma_place_of(s: Seq<char>, c: char)
    ensures
        0 <= place_of(s, c) <= s.len(),
        place_of(s, c) < s.len() ==> s[place_of(s, c)] == c,
        forall|i: int| 0 <= i < place_of(s, c) ==> s[i] != c,
    decreases s.len(),
{
    if s.len() > 0 && s.first() != c {
        lemma_place_of(s.drop_first(), c);
        assert forall|i: int| 0 <= i < place_of(s, c) implies s[i] != c by {
            if i > 0 {
                assert(s.drop_first()[i - 1] == s[i]);
            }
        }
    }
}

/// A place where `c` stands, with no `c` before it, is `place_of`.
pub proof fn lemma_place_is(s: Seq<char>, c: char, at: int)
    requires
        0 <= at <= s.len(),
        at < s.len() ==> s[at] == c,
        forall|i: int| 0 <= i < at ==> s[i] != c,
    ensures
        place_of(s, c) == at,
{
    lemma_place_of(s, c);
    let p = place_of(s, c);
    if p < at {
        assert(s[p] != c);
    }
}

/// Another part at the end comes after a separator.
pub proof fn lemma_joined_push(parts: Seq<Seq<char>>, part: Seq<char>, separator: Seq<char>)
    requires
        parts.len() > 0,
    ensures
        joined(parts.push(part), separator) == joined(parts, separator) + separator + part,
    decreases parts.len(),
{
    let longer = parts.push(part);
    assert(longer.drop_first() == parts.drop_first().push(part));
    if parts.len() == 1 {
        reveal_with_fuel(joined, 2);
    } else {
        lemma_joined_push(parts.drop_first(), part, separator);
        assert(joined(longer, separator) == parts[0] + separator + (joined(
            parts.drop_first(),
            separator,
        ) + separator + part));
    }
}

/// Whether `c` has the Unicode property `White_Space`.
pub(crate) fn is_white_space(c: char) -> (b: bool)
    ensures
        b == is_white_space_char(c),
{
    ('\u{9}' <= c && c <= '\u{d}') || c == ' ' || c == '\u{85}' || c == '\u{a0}' || c == '\u{1680}'
        || ('\u{2000}' <= c && c <= '\u{200a}') || c == '\u{2028}' || c == '\u{2029}' || c
        == '\u{202f}' || c == '\u{205f}' || c == '\u{3000}'
}

/// The characters of `text`.
pub(crate) fn chars_of(text: &str) -> (chars: Vec<char>)
    ensures
        chars@ == text@,
{
    let mut chars: Vec<char> = Vec::new();
    for c in it: text.chars()
        invariant
            it.seq() == text@,
            chars@ == text@.take(it.index() as int),
    {
        chars.push(c);
    }
    chars
}

/// The bounds of what trimming leaves of the characters from `from` to `to`.
pub(crate) fn trim_bounds(chars: &Vec<char>, from: usize, to: usize) -> (bounds: (usize, usize))
    requires
        from <= to <= chars@.len(),
    ensures
        from <= bounds.0 <= bounds.1 <= to,
        chars@.subrange(bounds.0 as int, bounds.1 as int) == trimmed(
            chars@.subrange(from as int, to as int),
        ),
{
    let mut low: usize = from;
    while low < to && is_white_space(chars[low])
        invariant
            from <= low <= to <= chars@.len(),
            trimmed(chars@.subrange(low as int, to as int)) == trimmed(
                chars@.subrange(from as int, to as int),
            ),
        decreases to - low,
    {
        assert(chars@.subrange(low as int, to as int).drop_first() == chars@.subrange(
            low + 1,
            to as int,
        ));
        low = low + 1;
    }
    let mut high: usize = to;
    while low < high && is_white_space(chars[high - 1])
        invariant
            from <= low <= high <= to <= chars@.len(),
            low < high ==> !is_white_space_char(chars@[low as int]),
            trimmed(chars@.subrange(low as int, high as int)) == trimmed(
                chars@.subrange(from as int, to as int),
            ),
        decreases high - low,
    {
        assert(chars@.subrange(low as int, high as int).drop_last() == chars@.subrange(
            low as int,
            high - 1,
        ));
        high = high - 1;
    }
    (low, high)
}

/// The place of the first `c` from `from` on, or the end where there is none.
pub(crate) fn find_from(chars: &Vec<char>, from: usize, c: char) -> (at: usize)
    requires
        from <= chars@.len(),
    ensures
        from <= at <= chars@.len(),
        at == from + place_of(chars@.skip(from as int), c),
{
    let mut at: usize = from;
    while at < chars.len() && chars[at] != c
        invariant
            from <= at <= chars@.len(),
            forall|i: int| from <= i < at ==> chars@[i] != c,
        decreases chars@.len() - at,
    {
        at = at + 1;
    }
    proof {
        lemma_place_is(chars@.skip(from as int), c, at - from);
    }
    at
}

/// `text` without the run of `c` that it starts with.
pub(crate) fn trim_leading(text: &str, c: char) -> (rest: String)
    ensures
        rest@ == without_leading(text@, c),
{
    let chars = chars_of(text);
    let mut low: usize = 0;
    assert(chars@.skip(0) == text@);
    while low < chars.len() && chars[low] == c
        invariant
            low <= chars@.len(),
            without_leading(chars@.skip(low as int), c) == without_leading(text@, c),
        decreases chars@.len() - low,
    {
        assert(chars@.skip(low as int).drop_first() == chars@.skip(low + 1));
        low = low + 1;
    }
    text.substring_char(low, chars.len()).to_string()
}

/// The characters of the decimal digits.
pub open spec fn digits() -> Seq<char> {
    seq!['0', '1', '2', '3', '4', '5', '6', '7', '8', '9']
}

/// `n` in decimal, without leading zeros.
pub open spec fn decimal(n: nat) -> Seq<char>
    decreases n,
{
    if n < 10 {
        seq![digits()[n as int]]
    } else {
        decimal(n / 10).push(digits()[(n % 10) as int])
    }
}

fn digit_text(digit: u32) -> (text: &'static str)
    requires
        digit < 10,
    ensures
        text@ == seq![digits()[digit as int]],
{
    proof {
        reveal_strlit("0");
        reveal_strlit("1");
        reveal_strlit("2");
        reveal_strlit("3");
        reveal_strlit("4");
        reveal_strlit("5");
        reveal_strlit("6");
        reveal_strlit("7");
        reveal_strlit("8");
        reveal_strlit("9");
    }
    match digit {
        0 => "0",
        1 => "1",
        2 => "2",
        3 => "3",
        4 => "4",
        5 => "5",
        6 => "6",
        7 => "7",
        8 => "8",
        _ => "9",
    }
}

/// The decimal text of `n`.
pub(crate) fn decimal_text(n: u32) -> (text: String)
    ensures
        text@ == decimal(n as nat),
    decreases n,
{
    if n < 10 {
        digit_text(n).to_string()
    } else {
        let mut text = decimal_text(n / 10);
        text.append(digit_text(n % 10));
        text
    }
}

/// Two numbers with one decimal text are one number.
pub proof fn lemma_decimal_injective(a: nat, b: nat)
    requires
        decimal(a) == decimal(b),
    ensures
        a == b,
    decreases a,
{
    let x = decimal(a);
    let y = decimal(b);
    assert(x.len() >= 1 && y.len() >= 1);
    assert(x.last() == y.last());
    assert(digits()[(a % 10) as int] == x.last());
    assert(digits()[(b % 10) as int] == y.last());
    assert(a % 10 == b % 10);
    if a < 10 && b < 10 {
    } else if a >= 10 && b >= 10 {
        assert(x.drop_last() == decimal(a / 10));
        assert(y.drop_last() == decimal(b / 10));
        lemma_decimal_injective(a / 10, b / 10);
    } else if a < 10 {
        lemma_decimal_nonempty(b / 10);
    } else {
        lemma_decimal_nonempty(a / 10);
    }
}

proof fn lemma_decimal_nonempty(n: nat)
    ensures
        decimal(n).len() >= 1,
{
}

} // verus!
