use vstd::prelude::*;

use crate::cookie_laws::{lemma_pieces_first, lemma_pieces_one};
use crate::cookies::{cookies_in, header_cookies, pair_in, views, Cookie, CookieView};
use crate::text::{
    is_white_space_char, lemma_place_is, lemma_place_of, pieces, place_of, trimmed,
};

verus! {

/// Whether `c` is one of the characters of the Unicode property `White_Space`, by its
/// code point.
pub open spec fn is_blank(c: char) -> bool {
    let code = c as u32;
    ||| 0x9 <= code <= 0xd
    ||| code == 0x20
    ||| code == 0x85
    ||| code == 0xa0
    ||| code == 0x1680
    ||| 0x2000 <= code <= 0x200a
    ||| 0x2028 <= code <= 0x2029
    ||| code == 0x202f
    ||| code == 0x205f
    ||| code == 0x3000
}

/// Whether `s` is white space and nothing else.
pub open spec fn is_all_blank(s: Seq<char>) -> bool {
    forall|i: int| 0 <= i < s.len() ==> is_blank(#[trigger] s[i])
}

/// Whether `s` has no white space at its ends.
pub open spec fn has_solid_ends(s: Seq<char>) -> bool {
    s.len() > 0 ==> !is_blank(s[0]) && !is_blank(s[s.len() - 1])
}

/// Whether two cookies hold the same.
pub open spec fn is_same_cookie(a: Cookie, b: Cookie) -> bool {
    &&& a.name@ == b.name@
    &&& a.value@ == b.value@
    &&& a.domain is Some <==> b.domain is Some
    &&& a.domain is Some ==> a.domain->0@ == b.domain->0@
    &&& a.path is Some <==> b.path is Some
    &&& a.path is Some ==> a.path->0@ == b.path->0@
    &&& a.secure == b.secure
    &&& a.http_only == b.http_only
    &&& a.same_site == b.same_site
}

/// White space is what Unicode calls so.
pub proof fn law_white_space_is_that_of_unicode(c: char)
    ensures
        is_white_space_char(c) <==> is_blank(c),
{
}

/// Trimming takes off the white space at both ends, and nothing else.
pub proof fn law_trimming_leaves_the_middle(before: Seq<char>, middle: Seq<char>, behind: Seq<char>)
    requires
        is_all_blank(before),
        has_solid_ends(middle),
        is_all_blank(behind),
    ensures
        trimmed(before + middle + behind) == middle,
    decreases before.len() + behind.len(),
{
    let s = before + middle + behind;
    if before.len() > 0 {
        law_white_space_is_that_of_unicode(before[0]);
        assert(s.first() == before[0]);
        let rest = before.drop_first();
        assert forall|i: int| 0 <= i < rest.len() implies is_blank(#[trigger] rest[i]) by {
            assert(rest[i] == before[i + 1]);
        }
        assert(s.drop_first() == rest + middle + behind);
        law_trimming_leaves_the_middle(rest, middle, behind);
    } else if behind.len() > 0 {
        if middle.len() == 0 {
            law_white_space_is_that_of_unicode(behind[0]);
            assert(s.first() == behind[0]);
            let rest = behind.drop_first();
            assert forall|i: int| 0 <= i < rest.len() implies is_blank(#[trigger] rest[i]) by {
                assert(rest[i] == behind[i + 1]);
            }
            assert(s.drop_first() == before + middle + rest);
            law_trimming_leaves_the_middle(before, middle, rest);
        } else {
            law_white_space_is_that_of_unicode(behind[behind.len() - 1]);
            assert(s.first() == middle[0]);
            assert(s.last() == behind.last());
            law_white_space_is_that_of_unicode(middle[0]);
            let rest = behind.drop_last();
            assert forall|i: int| 0 <= i < rest.len() implies is_blank(#[trigger] rest[i]) by {
                assert(rest[i] == behind[i]);
            }
            assert(s.drop_last() == before + middle + rest);
            law_trimming_leaves_the_middle(before, middle, rest);
        }
    } else {
        assert(s == middle);
        if middle.len() > 0 {
            law_white_space_is_that_of_unicode(middle[0]);
            law_white_space_is_that_of_unicode(middle[middle.len() - 1]);
        }
    }
}

proof fn lemma_pieces_concat(a: Seq<char>, b: Seq<char>)
    ensures
        pieces(a + seq![';'] + b, ';') == pieces(a, ';') + pieces(b, ';'),
    decreases a.len(),
{
    lemma_place_of(a, ';');
    let at = place_of(a, ';');
    if at < a.len() {
        let first = a.take(at);
        let rest = a.skip(at + 1);
        assert(!first.contains(';'));
        assert(a == first + seq![';'] + rest);
        lemma_pieces_concat(rest, b);
        lemma_pieces_first(first, rest, ';');
        assert(a + seq![';'] + b == first + seq![';'] + (rest + seq![';'] + b));
        lemma_pieces_first(first, rest + seq![';'] + b, ';');
        assert(pieces(a + seq![';'] + b, ';') == pieces(a, ';') + pieces(b, ';'));
    } else {
        assert(!a.contains(';'));
        lemma_pieces_one(a, ';');
        lemma_pieces_first(a, b, ';');
    }
}

proof fn lemma_cookies_in_concat(a: Seq<Seq<char>>, b: Seq<Seq<char>>)
    ensures
        cookies_in(a + b) == cookies_in(a) + cookies_in(b),
    decreases a.len(),
{
    if a.len() == 0 {
        assert(a + b == b);
    } else {
        lemma_cookies_in_concat(a.drop_first(), b);
        assert((a + b).drop_first() == a.drop_first() + b);
        assert((a + b).first() == a.first());
        assert(cookies_in(a + b) == cookies_in(a) + cookies_in(b));
    }
}

proof fn lemma_one_piece(s: Seq<char>)
    requires
        !s.contains(';'),
    ensures
        header_cookies(s) == match pair_in(trimmed(s)) {
            Some((name, value)) => seq![CookieView::bare(name, value)],
            None => Seq::empty(),
        },
{
    lemma_pieces_one(s, ';');
    let only = pieces(s, ';');
    assert(only.first() == s);
    assert(only.drop_first() == Seq::<Seq<char>>::empty());
    assert(cookies_in(only.drop_first()) == Seq::<CookieView>::empty());
}

/// A header can be read part by part: what stands on the two sides of any `;` is read
/// as if the other side were not there, and the cookies come in that order.
pub proof fn law_header_is_read_part_by_part(
    before: Seq<char>,
    behind: Seq<char>,
    first: Seq<Cookie>,
    second: Seq<Cookie>,
    all: Seq<Cookie>,
)
    requires
        views(first) == header_cookies(before),
        views(second) == header_cookies(behind),
        views(all) == header_cookies(before + seq![';'] + behind),
    ensures
        all.len() == first.len() + second.len(),
        forall|i: int| 0 <= i < first.len() ==> is_same_cookie(#[trigger] all[i], first[i]),
        forall|i: int|
            0 <= i < second.len() ==> is_same_cookie(all[first.len() + i], #[trigger] second[i]),
{
    lemma_pieces_concat(before, behind);
    lemma_cookies_in_concat(pieces(before, ';'), pieces(behind, ';'));
    assert(views(all) == views(first) + views(second));
    assert(views(all).len() == all.len());
    assert forall|i: int| 0 <= i < first.len() implies is_same_cookie(#[trigger] all[i], first[i]) by {
        assert(views(all)[i] == views(first)[i]);
        assert(all[i]@ == first[i]@);
        lemma_same_view(all[i], first[i]);
    }
    assert forall|i: int| 0 <= i < second.len() implies is_same_cookie(
        all[first.len() + i],
        #[trigger] second[i],
    ) by {
        assert(views(all)[first.len() + i] == views(second)[i]);
        assert(all[first.len() + i]@ == second[i]@);
        lemma_same_view(all[first.len() + i], second[i]);
    }
}

proof fn lemma_same_view(a: Cookie, b: Cookie)
    requires
        a@ == b@,
    ensures
        is_same_cookie(a, b),
{
    let x = a@;
    let y = b@;
    assert(x.name == y.name && x.value == y.value && x.domain == y.domain && x.path == y.path);
    assert(x.secure == y.secure && x.http_only == y.http_only && x.same_site == y.same_site);
}

/// A part with a name, `=` and a value is one cookie with that name and that value
/// and no attribute, whatever white space stands around the two. The value may hold
/// further `=`.
pub proof fn law_pair_is_read_as_one_cookie(
    blanks: (Seq<char>, Seq<char>, Seq<char>, Seq<char>),
    name: Seq<char>,
    value: Seq<char>,
    read: Seq<Cookie>,
)
    requires
        is_all_blank(blanks.0),
        is_all_blank(blanks.1),
        is_all_blank(blanks.2),
        is_all_blank(blanks.3),
        name.len() > 0,
        has_solid_ends(name),
        has_solid_ends(value),
        !name.contains('='),
        !name.contains(';'),
        !value.contains(';'),
        views(read) == header_cookies(
            blanks.0 + name + blanks.1 + seq!['='] + blanks.2 + value + blanks.3,
        ),
    ensures
        read.len() == 1,
        read[0].name@ == name,
        read[0].value@ == value,
        read[0].domain is None,
        read[0].path is None,
        read[0].secure is None,
        read[0].http_only is None,
        read[0].same_site is None,
{
    let (a, b, c, d) = blanks;
    let s = a + name + b + seq!['='] + c + value + d;
    assert(!s.contains(';')) by {
        if s.contains(';') {
            let i = choose|i: int| 0 <= i < s.len() && s[i] == ';';
            lemma_where(a, name, b, c, value, d, i);
        }
    }
    lemma_one_piece(s);
    // Trimming leaves the pair, with the inner white space.
    let tail = if value.len() > 0 {
        c + value
    } else {
        Seq::empty()
    };
    let end = if value.len() > 0 {
        d
    } else {
        c + d
    };
    assert forall|i: int| 0 <= i < end.len() implies is_blank(#[trigger] end[i]) by {
        if value.len() == 0 && i >= c.len() {
            assert(end[i] == d[i - c.len()]);
        } else if value.len() == 0 {
            assert(end[i] == c[i]);
        }
    }
    let middle = name + b + seq!['='] + tail;
    assert(middle[0] == name[0]);
    if value.len() > 0 {
        assert(middle[middle.len() - 1] == value[value.len() - 1]);
    } else {
        assert(middle[middle.len() - 1] == '=');
    }
    assert(s == a + middle + end) by {
        assert(s =~= a + middle + end);
    }
    law_trimming_leaves_the_middle(a, middle, end);
    // The first `=` of the pair parts name and value.
    let at = (name.len() + b.len()) as int;
    assert forall|i: int| 0 <= i < at implies middle[i] != '=' by {
        if i < name.len() {
            assert(middle[i] == name[i]);
            assert(name.contains(name[i]));
        } else {
            assert(middle[i] == b[i - name.len()]);
            assert(is_blank(b[i - name.len()]));
        }
    }
    lemma_place_is(middle, '=', at);
    let none = Seq::<char>::empty();
    assert(middle.take(at) == none + name + b);
    law_trimming_leaves_the_middle(none, name, b);
    if value.len() > 0 {
        assert(middle.skip(at + 1) == c + value + none);
        law_trimming_leaves_the_middle(c, value, none);
    } else {
        assert(middle.skip(at + 1) == none + value + none);
        law_trimming_leaves_the_middle(none, value, none);
    }
    assert(pair_in(middle) == Some((name, value)));
    assert(views(read) == seq![CookieView::bare(name, value)]);
    assert(views(read).len() == read.len());
    assert(views(read)[0] == read[0]@);
    lemma_bare(read[0], name, value);
}

proof fn lemma_bare(cookie: Cookie, name: Seq<char>, value: Seq<char>)
    requires
        cookie@ == CookieView::bare(name, value),
    ensures
        cookie.name@ == name,
        cookie.value@ == value,
        cookie.domain is None,
        cookie.path is None,
        cookie.secure is None,
        cookie.http_only is None,
        cookie.same_site is None,
{
    let view = cookie@;
    assert(view.domain is None && view.path is None);
}

/// No character of a pair with white space around it is a `;`.
proof fn lemma_where(
    a: Seq<char>,
    name: Seq<char>,
    b: Seq<char>,
    c: Seq<char>,
    value: Seq<char>,
    d: Seq<char>,
    i: int,
)
    requires
        is_all_blank(a),
        is_all_blank(b),
        is_all_blank(c),
        is_all_blank(d),
        !name.contains(';'),
        !value.contains(';'),
        0 <= i < (a + name + b + seq!['='] + c + value + d).len(),
    ensures
        (a + name + b + seq!['='] + c + value + d)[i] != ';',
{
    let s = a + name + b + seq!['='] + c + value + d;
    let n1 = a.len() as int;
    let n2 = n1 + name.len();
    let n3 = n2 + b.len();
    let n4 = n3 + 1;
    let n5 = n4 + c.len();
    let n6 = n5 + value.len();
    if i < n1 {
        assert(s[i] == a[i]);
        assert(is_blank(a[i]));
    } else if i < n2 {
        assert(s[i] == name[i - n1]);
        assert(name.contains(name[i - n1]));
    } else if i < n3 {
        assert(s[i] == b[i - n2]);
        assert(is_blank(b[i - n2]));
    } else if i < n4 {
        assert(s[i] == '=');
    } else if i < n5 {
        assert(s[i] == c[i - n4]);
        assert(is_blank(c[i - n4]));
    } else if i < n6 {
        assert(s[i] == value[i - n5]);
        assert(value.contains(value[i - n5]));
    } else {
        assert(s[i] == d[i - n6]);
        assert(is_blank(d[i - n6]));
    }
}

/// A part without `=`, or with nothing but white space before its first `=`, is no
/// cookie.
pub proof fn law_what_is_no_pair_is_left_out(
    blanks: Seq<char>,
    rest: Seq<char>,
    read: Seq<Cookie>,
)
    requires
        is_all_blank(blanks),
        !rest.contains(';'),
        !rest.contains('=') || rest[0] == '=',
        views(read) == header_cookies(blanks + rest),
    ensures
        read.len() == 0,
{
    let s = blanks + rest;
    assert forall|i: int| 0 <= i < s.len() implies s[i] != ';' by {
        if i < blanks.len() {
            assert(is_blank(blanks[i]));
        } else {
            assert(rest.contains(rest[i - blanks.len()]));
        }
    }
    assert(!s.contains(';'));
    lemma_one_piece(s);
    lemma_no_pair(blanks, rest);
    assert(views(read).len() == read.len());
}

proof fn lemma_no_pair(blanks: Seq<char>, rest: Seq<char>)
    requires
        is_all_blank(blanks),
        !rest.contains('=') || rest[0] == '=',
    ensures
        pair_in(trimmed(blanks + rest)) is None,
    decreases blanks.len() + rest.len(),
{
    let s = blanks + rest;
    if blanks.len() > 0 {
        law_white_space_is_that_of_unicode(blanks[0]);
        let fewer = blanks.drop_first();
        assert forall|i: int| 0 <= i < fewer.len() implies is_blank(#[trigger] fewer[i]) by {
            assert(fewer[i] == blanks[i + 1]);
        }
        assert(s.drop_first() == fewer + rest);
        lemma_no_pair(fewer, rest);
    } else {
        assert(s == rest);
        if rest.len() == 0 {
            assert(pair_in(rest) is None);
        } else if rest[0] == '=' {
            lemma_starts_with_equals(rest);
        } else {
            lemma_trimmed_within(rest, '=');
            let t = trimmed(rest);
            assert forall|i: int| 0 <= i < t.len() implies t[i] != '=' by {
                assert(t.contains(t[i]));
            }
            lemma_place_is(t, '=', t.len() as int);
        }
    }
}

/// A text that starts with `=` still does when it is trimmed.
proof fn lemma_starts_with_equals(s: Seq<char>)
    requires
        s.len() > 0,
        s[0] == '=',
    ensures
        pair_in(trimmed(s)) is None,
    decreases s.len(),
{
    if is_white_space_char(s.last()) {
        lemma_starts_with_equals(s.drop_last());
    } else {
        assert(place_of(s, '=') == 0);
        assert(s.take(0) == Seq::<char>::empty());
        assert(trimmed(s.take(0)).len() == 0);
    }
}

/// Trimming brings in no character.
proof fn lemma_trimmed_within(s: Seq<char>, c: char)
    requires
        !s.contains(c),
    ensures
        !trimmed(s).contains(c),
    decreases s.len(),
{
    if s.len() > 0 {
        assert forall|i: int| 0 <= i < s.drop_first().len() implies s.drop_first()[i] != c by {
            assert(s.contains(s[i + 1]));
        }
        assert forall|i: int| 0 <= i < s.drop_last().len() implies s.drop_last()[i] != c by {
            assert(s.contains(s[i]));
        }
        lemma_trimmed_within(s.drop_first(), c);
        lemma_trimmed_within(s.drop_last(), c);
    }
}

} // verus!
