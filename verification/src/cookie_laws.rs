use vstd::prelude::*;

use crate::cookies::{cookies_in, header_cookies, pair_in, CookieView};
use crate::text::{
    is_white_space_char, joined, lemma_place_is, lemma_place_of, pieces, place_of, trimmed,
    without_leading,
};

verus! {

/// A name that a cookie header can carry: it is not empty, holds neither `=` nor
/// `;`, and has no white space at its ends.
pub open spec fn is_clean_name(name: Seq<char>) -> bool {
    &&& name.len() > 0
    &&& !name.contains('=')
    &&& !name.contains(';')
    &&& trimmed(name) == name
}

/// A value that a cookie header can carry: it holds no `;`, and has no white space
/// at its ends.
pub open spec fn is_clean_value(value: Seq<char>) -> bool {
    &&& !value.contains(';')
    &&& trimmed(value) == value
}

/// Whether an optional text holds no `;`.
pub open spec fn is_one_part(text: Option<Seq<char>>) -> bool {
    text matches Some(text) ==> !text.contains(';')
}

/// `parts` with a blank in front of each but the first.
pub open spec fn spaced(parts: Seq<Seq<char>>) -> Seq<Seq<char>> {
    Seq::new(
        parts.len(),
        |i: int|
            if i == 0 {
                parts[i]
            } else {
                seq![' '] + parts[i]
            },
    )
}

/// `name=value` for each of `cookies`.
pub open spec fn pairs(cookies: Seq<CookieView>) -> Seq<Seq<char>> {
    cookies.map_values(|cookie: CookieView| cookie.pair())
}

proof fn lemma_trimmed_len(s: Seq<char>)
    ensures
        trimmed(s).len() <= s.len(),
    decreases s.len(),
{
    if s.len() > 0 {
        lemma_trimmed_len(s.drop_first());
        lemma_trimmed_len(s.drop_last());
    }
}

/// A text that trimming leaves alone has no white space at its ends.
proof fn lemma_trimmed_ends(s: Seq<char>)
    requires
        s.len() > 0,
    ensures
        trimmed(s) == s <==> !is_white_space_char(s.first()) && !is_white_space_char(s.last()),
{
    lemma_trimmed_len(s.drop_first());
    lemma_trimmed_len(s.drop_last());
}

/// What stands before the first separator is the first piece.
pub(crate) proof fn lemma_pieces_first(first: Seq<char>, rest: Seq<char>, separator: char)
    requires
        !first.contains(separator),
    ensures
        pieces(first + seq![separator] + rest, separator) == seq![first] + pieces(rest, separator),
{
    let s = first + seq![separator] + rest;
    lemma_place_is(s, separator, first.len() as int);
    assert(s.take(first.len() as int) == first);
    assert(s.skip(first.len() as int + 1) == rest);
}

/// A text without a separator is one piece.
pub(crate) proof fn lemma_pieces_one(s: Seq<char>, separator: char)
    requires
        !s.contains(separator),
    ensures
        pieces(s, separator) == seq![s],
{
    lemma_place_is(s, separator, s.len() as int);
}

/// A character in front of a text goes to its first piece.
proof fn lemma_pieces_prefix(c: char, s: Seq<char>, separator: char)
    requires
        c != separator,
    ensures
        pieces(s, separator).len() > 0,
        pieces(seq![c] + s, separator) == pieces(s, separator).update(
            0,
            seq![c] + pieces(s, separator)[0],
        ),
{
    let t = seq![c] + s;
    let at = place_of(s, separator);
    lemma_place_of(s, separator);
    assert forall|i: int| 0 <= i < at + 1 implies t[i] != separator by {
        if i > 0 {
            assert(t[i] == s[i - 1]);
        }
    }
    lemma_place_is(t, separator, at + 1);
    if at < s.len() {
        assert(t.take(at + 1) == seq![c] + s.take(at));
        assert(t.skip(at + 2) == s.skip(at + 1));
        assert(pieces(t, separator) == seq![seq![c] + s.take(at)] + pieces(
            s.skip(at + 1),
            separator,
        ));
    }
}

/// Splitting undoes joining: where no part holds `;`, the pieces of the joined text
/// are the parts again, each but the first with a blank in front.
pub proof fn law_pieces_of_joined(parts: Seq<Seq<char>>)
    requires
        parts.len() > 0,
        forall|i: int| 0 <= i < parts.len() ==> !(#[trigger] parts[i]).contains(';'),
    ensures
        pieces(joined(parts, "; "@), ';') == spaced(parts),
    decreases parts.len(),
{
    if parts.len() == 1 {
        lemma_pieces_one(parts[0], ';');
        assert(spaced(parts) == seq![parts[0]]);
    } else {
        reveal_strlit("; ");
        let rest = parts.drop_first();
        assert forall|i: int| 0 <= i < rest.len() implies !(#[trigger] rest[i]).contains(';') by {
            assert(rest[i] == parts[i + 1]);
        }
        law_pieces_of_joined(rest);
        let tail = joined(rest, "; "@);
        assert("; "@ == seq![';', ' ']);
        assert(joined(parts, "; "@) == parts[0] + seq![';'] + (seq![' '] + tail));
        lemma_pieces_first(parts[0], seq![' '] + tail, ';');
        lemma_pieces_prefix(' ', tail, ';');
        assert(spaced(parts) == seq![parts[0]] + spaced(rest).update(0, seq![' '] + rest[0]));
    }
}

/// A clean name and value can be read back from `name=value`, with or without
/// white space in front.
proof fn lemma_pair_read_back(name: Seq<char>, value: Seq<char>)
    requires
        is_clean_name(name),
        is_clean_value(value),
    ensures
        ({
            let pair = CookieView::bare(name, value).pair();
            &&& pair_in(pair) == Some((name, value))
            &&& trimmed(pair) == pair
            &&& trimmed(seq![' '] + pair) == pair
            &&& !pair.contains(';')
        }),
{
    reveal_strlit("=");
    let pair = CookieView::bare(name, value).pair();
    assert(pair == name + seq!['='] + value);
    assert forall|i: int| 0 <= i < name.len() implies pair[i] != '=' by {
        assert(name.contains(name[i]));
    }
    lemma_place_is(pair, '=', name.len() as int);
    assert(pair.take(name.len() as int) == name);
    assert(pair.skip(name.len() as int + 1) == value);
    lemma_trimmed_ends(name);
    lemma_trimmed_ends(pair);
    assert(pair.first() == name.first());
    if value.len() > 0 {
        lemma_trimmed_ends(value);
        assert(pair.last() == value.last());
    } else {
        assert(pair.last() == '=');
    }
    assert((seq![' '] + pair).drop_first() == pair);
    assert forall|i: int| 0 <= i < pair.len() implies pair[i] != ';' by {
        if i < name.len() {
            assert(name.contains(name[i]));
        } else if i > name.len() {
            assert(value.contains(value[i - name.len() - 1]));
        }
    }
}

/// Whether `text` stands in `s` at the place `at`.
pub open spec fn stands_at(s: Seq<char>, text: Seq<char>, at: int) -> bool {
    &&& 0 <= at
    &&& at + text.len() <= s.len()
    &&& s.subrange(at, at + text.len()) == text
}

proof fn lemma_joined_starts(parts: Seq<Seq<char>>, separator: Seq<char>)
    requires
        parts.len() > 0,
    ensures
        stands_at(joined(parts, separator), parts[0], 0),
{
    let s = joined(parts, separator);
    assert(s.subrange(0, parts[0].len() as int) == parts[0]);
}

/// Each part but the first stands behind a separator.
proof fn lemma_joined_holds(parts: Seq<Seq<char>>, separator: Seq<char>, i: int) -> (at: int)
    requires
        0 < i < parts.len(),
    ensures
        stands_at(joined(parts, separator), separator + parts[i], at),
    decreases parts.len(),
{
    let s = joined(parts, separator);
    let rest = parts.drop_first();
    let tail = joined(rest, separator);
    let text = separator + parts[i];
    let start = parts[0].len() as int;
    if i == 1 {
        lemma_joined_starts(rest, separator);
        assert(s.subrange(start, start + text.len()) == separator + tail.subrange(
            0,
            parts[i].len() as int,
        ));
        start
    } else {
        let inner = lemma_joined_holds(rest, separator, i - 1);
        let at = start + separator.len() + inner;
        assert(s.subrange(at, at + text.len()) == tail.subrange(inner, inner + text.len()));
        at
    }
}

/// A `Set-Cookie` value starts with the cookie's name and value, whatever they are,
/// and holds each attribute that is present and each flag that is on, behind `; `.
pub proof fn law_set_cookie_value_holds_every_part(cookie: CookieView, i: int)
    requires
        0 <= i < cookie.parts().len(),
    ensures
        stands_at(cookie.set_cookie_value(), cookie.pair(), 0),
        i > 0 ==> exists|at: int|
            stands_at(cookie.set_cookie_value(), "; "@ + cookie.parts()[i], at),
{
    lemma_joined_starts(cookie.parts(), "; "@);
    assert(cookie.parts()[0] == cookie.pair());
    if i > 0 {
        let at = lemma_joined_holds(cookie.parts(), "; "@, i);
        assert(stands_at(cookie.set_cookie_value(), "; "@ + cookie.parts()[i], at));
    }
}

/// A `Set-Cookie` value says what the cookie holds and nothing else: where neither the
/// name, the value, the domain nor the path holds `;`, splitting at each `;` gives
/// the cookie's parts again.
pub proof fn law_set_cookie_value_splits_into_parts(cookie: CookieView)
    requires
        !cookie.name.contains(';'),
        !cookie.value.contains(';'),
        is_one_part(cookie.domain),
        is_one_part(cookie.path),
    ensures
        pieces(cookie.set_cookie_value(), ';') == spaced(cookie.parts()),
{
    reveal_strlit("=");
    reveal_strlit("Domain=");
    reveal_strlit("Path=");
    reveal_strlit("Secure");
    reveal_strlit("HttpOnly");
    reveal_strlit("SameSite=");
    reveal_strlit("Strict");
    reveal_strlit("Lax");
    reveal_strlit("None");
    let parts = cookie.parts();
    assert(parts[0] == cookie.pair());
    assert forall|i: int| 0 <= i < parts.len() implies !(#[trigger] parts[i]).contains(';') by {
        if parts[i].contains(';') {
            let j = choose|j: int| 0 <= j < parts[i].len() && parts[i][j] == ';';
            let domain = cookie.domain->0;
            let path = cookie.path->0;
            if i == 0 {
                if j < cookie.name.len() {
                    assert(cookie.name[j] == ';');
                } else if j > cookie.name.len() {
                    assert(cookie.value[j - cookie.name.len() - 1] == ';');
                }
            } else if cookie.domain is Some && parts[i] == "Domain="@ + domain {
                assert(domain[j - 7] == ';');
            } else if cookie.path is Some && parts[i] == "Path="@ + path {
                assert(path[j - 5] == ';');
            } else if parts[i] == "Secure"@ {
            } else if parts[i] == "HttpOnly"@ {
            } else {
                assert(cookie.same_site is Some);
                assert(parts[i] == "SameSite="@ + cookie.same_site->0.text());
            }
        }
    }
    law_pieces_of_joined(parts);
}

/// A clean name and value can be read back from the first piece of a `Set-Cookie`
/// value, whatever the attributes are.
pub proof fn law_set_cookie_value_read_back(cookie: CookieView)
    requires
        is_clean_name(cookie.name),
        is_clean_value(cookie.value),
    ensures
        pair_in(pieces(cookie.set_cookie_value(), ';')[0]) == Some((cookie.name, cookie.value)),
{
    reveal_strlit("; ");
    lemma_pair_read_back(cookie.name, cookie.value);
    let parts = cookie.parts();
    let pair = cookie.pair();
    assert(pair == CookieView::bare(cookie.name, cookie.value).pair());
    assert(parts[0] == pair);
    if parts.len() == 1 {
        lemma_pieces_one(pair, ';');
    } else {
        let rest = seq![' '] + joined(parts.drop_first(), "; "@);
        assert(cookie.set_cookie_value() == pair + seq![';'] + rest);
        lemma_pieces_first(pair, rest, ';');
    }
}

/// Reading gives back what was written: the cookies of a header that lists clean
/// pairs, with `; ` between them, are those pairs in that order.
pub proof fn law_header_read_back(cookies: Seq<CookieView>)
    requires
        forall|i: int|
            0 <= i < cookies.len() ==> is_clean_name((#[trigger] cookies[i]).name)
                && is_clean_value(cookies[i].value) && cookies[i] == CookieView::bare(
                cookies[i].name,
                cookies[i].value,
            ),
    ensures
        header_cookies(joined(pairs(cookies), "; "@)) == cookies,
{
    let parts = pairs(cookies);
    assert forall|i: int| 0 <= i < parts.len() implies !(#[trigger] parts[i]).contains(';')
        && pair_in(parts[i]) == Some((cookies[i].name, cookies[i].value)) && trimmed(parts[i])
        == parts[i] && trimmed(seq![' '] + parts[i]) == parts[i] by {
        lemma_pair_read_back(cookies[i].name, cookies[i].value);
        assert(parts[i] == cookies[i].pair());
    }
    if cookies.len() == 0 {
        lemma_pieces_one(Seq::empty(), ';');
        let only = pieces(Seq::empty(), ';');
        assert(only.first() == Seq::<char>::empty());
        assert(only.drop_first() == Seq::<Seq<char>>::empty());
        assert(cookies_in(only.drop_first()) == Seq::<CookieView>::empty());
        assert(pair_in(trimmed(only.first())) is None);
        assert(cookies == Seq::<CookieView>::empty());
    } else {
        law_pieces_of_joined(parts);
        lemma_cookies_in(spaced(parts), cookies);
    }
}

/// Parts that each hold one pair give one cookie each.
proof fn lemma_cookies_in(parts: Seq<Seq<char>>, cookies: Seq<CookieView>)
    requires
        parts.len() == cookies.len(),
        forall|i: int|
            0 <= i < parts.len() ==> pair_in(trimmed(#[trigger] parts[i])) == Some(
                (cookies[i].name, cookies[i].value),
            ) && cookies[i] == CookieView::bare(cookies[i].name, cookies[i].value),
    ensures
        cookies_in(parts) == cookies,
    decreases parts.len(),
{
    if parts.len() > 0 {
        let rest = parts.drop_first();
        let others = cookies.drop_first();
        assert forall|i: int| 0 <= i < rest.len() implies pair_in(trimmed(#[trigger] rest[i]))
            == Some((others[i].name, others[i].value)) && others[i] == CookieView::bare(
            others[i].name,
            others[i].value,
        ) by {
            assert(rest[i] == parts[i + 1]);
        }
        lemma_cookies_in(rest, others);
        assert(parts.first() == parts[0]);
        assert(cookies == seq![cookies[0]] + others);
    }
}

/// The address of a cookie's domain has no dot behind the scheme, however many dots
/// the domain starts with.
pub proof fn law_address_has_no_leading_dot(cookie: CookieView)
    ensures
        cookie.address() matches Some(address) ==> {
            &&& address.len() >= 8
            &&& address.take(8) == "https://"@
            &&& address.len() > 8 ==> address[8] != '.'
        },
{
    reveal_strlit("https://");
    if let Some(domain) = cookie.domain {
        lemma_without_leading(domain, '.');
        let address = "https://"@ + without_leading(domain, '.');
        assert(address.take(8) == "https://"@);
    }
}

proof fn lemma_without_leading(s: Seq<char>, c: char)
    ensures
        without_leading(s, c).len() > 0 ==> without_leading(s, c)[0] != c,
    decreases s.len(),
{
    if s.len() > 0 {
        lemma_without_leading(s.drop_first(), c);
    }
}

} // verus!
