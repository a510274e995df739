use vstd::prelude::*;

use crate::cookie_laws::{law_set_cookie_value_splits_into_parts, spaced};
use crate::cookies::{text_of, Cookie, SameSite};
use crate::error::ErrorView;
use crate::text::{joined, lemma_joined_push, pieces, without_leading};
use crate::webview::{destination, store_error};

verus! {

/// Whether no text of `cookie` holds a `;`.
pub open spec fn has_no_semicolon(cookie: Cookie) -> bool {
    &&& !cookie.name@.contains(';')
    &&& !cookie.value@.contains(';')
    &&& cookie.domain matches Some(domain) ==> !domain@.contains(';')
    &&& cookie.path matches Some(path) ==> !path@.contains(';')
}

/// What stands behind the first `;` of a `Set-Cookie` value, from one `;` to the next.
pub open spec fn attributes_in(header: Seq<char>) -> Seq<Seq<char>> {
    pieces(header, ';').drop_first()
}

/// `text`, where there is one.
spec fn part(text: Option<Seq<char>>) -> Seq<Seq<char>> {
    match text {
        Some(text) => seq![text],
        None => Seq::empty(),
    }
}

/// `parts` in a row, behind `first`.
spec fn row(
    first: Seq<char>,
    parts: (
        Option<Seq<char>>,
        Option<Seq<char>>,
        Option<Seq<char>>,
        Option<Seq<char>>,
        Option<Seq<char>>,
    ),
) -> Seq<Seq<char>> {
    seq![first] + part(parts.0) + part(parts.1) + part(parts.2) + part(parts.3) + part(parts.4)
}

/// Whether `x` is `text` with a blank in front.
spec fn is_part(text: Option<Seq<char>>, x: Seq<char>) -> bool {
    text matches Some(text) && x == seq![' '] + text
}

spec fn count(text: Option<Seq<char>>) -> int {
    if text is Some {
        1
    } else {
        0
    }
}

/// What stands behind the first text of a row are its parts.
proof fn lemma_row_holds(
    first: Seq<char>,
    parts: (
        Option<Seq<char>>,
        Option<Seq<char>>,
        Option<Seq<char>>,
        Option<Seq<char>>,
        Option<Seq<char>>,
    ),
    x: Seq<char>,
)
    ensures
        spaced(row(first, parts))[0] == first,
        spaced(row(first, parts)).drop_first().len() == count(parts.0) + count(parts.1) + count(
            parts.2,
        ) + count(parts.3) + count(parts.4),
        spaced(row(first, parts)).drop_first().contains(x) <==> {
            ||| is_part(parts.0, x)
            ||| is_part(parts.1, x)
            ||| is_part(parts.2, x)
            ||| is_part(parts.3, x)
            ||| is_part(parts.4, x)
        },
{
    let all = row(first, parts);
    let tail = spaced(all).drop_first();
    let at1 = count(parts.0);
    let at2 = at1 + count(parts.1);
    let at3 = at2 + count(parts.2);
    let at4 = at3 + count(parts.3);
    assert(all.len() == 1 + at4 + count(parts.4));
    assert forall|i: int| 0 <= i < tail.len() implies #[trigger] tail[i] == seq![' '] + all[i + 1] by {}
    if parts.0 is Some {
        assert(all[1] == parts.0->0);
        assert(tail[0] == seq![' '] + parts.0->0);
    }
    if parts.1 is Some {
        assert(all[at1 + 1] == parts.1->0);
        assert(tail[at1] == seq![' '] + parts.1->0);
    }
    if parts.2 is Some {
        assert(all[at2 + 1] == parts.2->0);
        assert(tail[at2] == seq![' '] + parts.2->0);
    }
    if parts.3 is Some {
        assert(all[at3 + 1] == parts.3->0);
        assert(tail[at3] == seq![' '] + parts.3->0);
    }
    if parts.4 is Some {
        assert(all[at4 + 1] == parts.4->0);
        assert(tail[at4] == seq![' '] + parts.4->0);
    }
    if tail.contains(x) {
        let i = choose|i: int| 0 <= i < tail.len() && tail[i] == x;
        assert(x == seq![' '] + all[i + 1]);
        if i < at1 {
            assert(is_part(parts.0, x));
        } else if i < at2 {
            assert(is_part(parts.1, x));
        } else if i < at3 {
            assert(is_part(parts.2, x));
        } else if i < at4 {
            assert(is_part(parts.3, x));
        } else {
            assert(is_part(parts.4, x));
        }
    }
}

/// The five attributes of `cookie`, each where the cookie has it.
spec fn five(cookie: Cookie) -> (
    Option<Seq<char>>,
    Option<Seq<char>>,
    Option<Seq<char>>,
    Option<Seq<char>>,
    Option<Seq<char>>,
) {
    (
        match cookie.domain {
            Some(domain) => Some("Domain="@ + domain@),
            None => None,
        },
        match cookie.path {
            Some(path) => Some("Path="@ + path@),
            None => None,
        },
        if cookie.secure == Some(true) {
            Some("Secure"@)
        } else {
            None
        },
        if cookie.http_only == Some(true) {
            Some("HttpOnly"@)
        } else {
            None
        },
        match cookie.same_site {
            Some(SameSite::Strict) => Some("SameSite="@ + "Strict"@),
            Some(SameSite::Lax) => Some("SameSite="@ + "Lax"@),
            Some(SameSite::Unrestricted) => Some("SameSite="@ + "None"@),
            None => None,
        },
    )
}

proof fn lemma_parts_are_a_row(cookie: Cookie)
    ensures
        cookie@.parts() == row(cookie.name@ + "="@ + cookie.value@, five(cookie)),
{
}

proof fn lemma_attribute_is(cookie: Cookie, x: Seq<char>)
    requires
        has_no_semicolon(cookie),
    ensures
        ({
            let all = five(cookie);
            let header = cookie@.set_cookie_value();
            &&& pieces(header, ';').len() > 0
            &&& pieces(header, ';')[0] == cookie.name@ + "="@ + cookie.value@
            &&& attributes_in(header).len() == count(all.0) + count(all.1) + count(all.2) + count(
                all.3,
            ) + count(all.4)
            &&& attributes_in(header).contains(x) <==> {
                ||| is_part(all.0, x)
                ||| is_part(all.1, x)
                ||| is_part(all.2, x)
                ||| is_part(all.3, x)
                ||| is_part(all.4, x)
            }
        }),
{
    law_set_cookie_value_splits_into_parts(cookie@);
    lemma_parts_are_a_row(cookie);
    lemma_row_holds(cookie.name@ + "="@ + cookie.value@, five(cookie), x);
}

/// A `Set-Cookie` value starts with the cookie's name, `=` and its value, and has one
/// attribute behind them for each that the cookie has.
pub proof fn law_set_cookie_value_starts_with_the_pair(cookie: Cookie)
    requires
        has_no_semicolon(cookie),
    ensures
        pieces(cookie@.set_cookie_value(), ';')[0] == cookie.name@ + seq!['='] + cookie.value@,
        attributes_in(cookie@.set_cookie_value()).len() == (if cookie.domain is Some {
            1int
        } else {
            0
        }) + (if cookie.path is Some {
            1int
        } else {
            0
        }) + (if cookie.secure == Some(true) {
            1int
        } else {
            0
        }) + (if cookie.http_only == Some(true) {
            1int
        } else {
            0
        }) + (if cookie.same_site is Some {
            1int
        } else {
            0
        }),
{
    reveal_strlit("=");
    assert("="@ == seq!['=']);
    lemma_attribute_is(cookie, Seq::empty());
}

/// `Secure` is written exactly where the cookie has that flag on, and `HttpOnly` exactly
/// where it has that one on, whatever else the cookie has.
pub proof fn law_flag_is_written_where_it_is_on(cookie: Cookie)
    requires
        has_no_semicolon(cookie),
    ensures
        attributes_in(cookie@.set_cookie_value()).contains(" Secure"@) <==> cookie.secure == Some(
            true,
        ),
        attributes_in(cookie@.set_cookie_value()).contains(" HttpOnly"@) <==> cookie.http_only
            == Some(true),
{
    lemma_labels();
    lemma_attribute_is(cookie, " Secure"@);
    lemma_attribute_is(cookie, " HttpOnly"@);
    lemma_kinds(cookie, " Secure"@);
    lemma_kinds(cookie, " HttpOnly"@);
}

/// `Domain` is written exactly where the cookie has a domain, with that domain, and
/// `Path` exactly where it has a path, with that path, whatever else the cookie has.
pub proof fn law_domain_and_path_are_written_where_present(cookie: Cookie, text: Seq<char>)
    requires
        has_no_semicolon(cookie),
    ensures
        attributes_in(cookie@.set_cookie_value()).contains(" Domain="@ + text) <==> (
        cookie.domain matches Some(domain) && domain@ == text),
        attributes_in(cookie@.set_cookie_value()).contains(" Path="@ + text) <==> (
        cookie.path matches Some(path) && path@ == text),
{
    lemma_labels();
    let domain = " Domain="@ + text;
    let path = " Path="@ + text;
    lemma_attribute_is(cookie, domain);
    lemma_attribute_is(cookie, path);
    lemma_kinds(cookie, domain);
    lemma_kinds(cookie, path);
    assert(domain[1] == 'D');
    assert(path[1] == 'P');
    let all = five(cookie);
    if is_part(all.0, domain) {
        assert(domain.skip(8) == text);
        assert((seq![' '] + all.0->0).skip(8) == cookie.domain->0@);
    }
    if is_part(all.1, path) {
        assert(path.skip(6) == text);
        assert((seq![' '] + all.1->0).skip(6) == cookie.path->0@);
    }
    if let Some(own) = cookie.domain {
        if own@ == text {
            assert(seq![' '] + ("Domain="@ + own@) == domain);
        }
    }
    if let Some(own) = cookie.path {
        if own@ == text {
            assert(seq![' '] + ("Path="@ + own@) == path);
        }
    }
}

/// `SameSite` is written exactly where the cookie has that attribute, under the name of
/// its value, whatever else the cookie has.
pub proof fn law_same_site_is_written_where_present(cookie: Cookie)
    requires
        has_no_semicolon(cookie),
    ensures
        attributes_in(cookie@.set_cookie_value()).contains(" SameSite=Strict"@)
            <==> cookie.same_site == Some(SameSite::Strict),
        attributes_in(cookie@.set_cookie_value()).contains(" SameSite=Lax"@) <==> cookie.same_site
            == Some(SameSite::Lax),
        attributes_in(cookie@.set_cookie_value()).contains(" SameSite=None"@) <==> cookie.same_site
            == Some(SameSite::Unrestricted),
{
    lemma_labels();
    lemma_attribute_is(cookie, " SameSite=Strict"@);
    lemma_attribute_is(cookie, " SameSite=Lax"@);
    lemma_attribute_is(cookie, " SameSite=None"@);
    lemma_kinds(cookie, " SameSite=Strict"@);
    lemma_kinds(cookie, " SameSite=Lax"@);
    lemma_kinds(cookie, " SameSite=None"@);
}

/// What the labels are made of.
proof fn lemma_labels()
    ensures
        " Secure"@ == seq![' '] + "Secure"@,
        " HttpOnly"@ == seq![' '] + "HttpOnly"@,
        " SameSite=Strict"@ == seq![' '] + ("SameSite="@ + "Strict"@),
        " SameSite=Lax"@ == seq![' '] + ("SameSite="@ + "Lax"@),
        " SameSite=None"@ == seq![' '] + ("SameSite="@ + "None"@),
        " Domain="@ == seq![' '] + "Domain="@,
        " Path="@ == seq![' '] + "Path="@,
        "Domain="@.len() == 7,
        "Path="@.len() == 5,
        "Domain="@[0] == 'D',
        "Path="@[0] == 'P',
        " Secure"@.len() == 7,
        " Secure"@[1] == 'S',
        " Secure"@[2] == 'e',
        " HttpOnly"@[1] == 'H',
        " SameSite=Strict"@.len() == 16,
        " SameSite=Strict"@[1] == 'S',
        " SameSite=Strict"@[2] == 'a',
        " SameSite=Lax"@.len() == 13,
        " SameSite=Lax"@[1] == 'S',
        " SameSite=Lax"@[2] == 'a',
        " SameSite=None"@.len() == 14,
        " SameSite=None"@[1] == 'S',
        " SameSite=None"@[2] == 'a',
{
    reveal_strlit("Domain=");
    reveal_strlit("Path=");
    reveal_strlit("Secure");
    reveal_strlit("HttpOnly");
    reveal_strlit("SameSite=");
    reveal_strlit("Strict");
    reveal_strlit("Lax");
    reveal_strlit("None");
    reveal_strlit(" Domain=");
    reveal_strlit(" Path=");
    reveal_strlit(" Secure");
    reveal_strlit(" HttpOnly");
    reveal_strlit(" SameSite=Strict");
    reveal_strlit(" SameSite=Lax");
    reveal_strlit(" SameSite=None");
}

/// The second and third characters tell which attribute a part is.
proof fn lemma_kinds(cookie: Cookie, x: Seq<char>)
    ensures
        is_part(five(cookie).0, x) ==> x[1] == 'D',
        is_part(five(cookie).1, x) ==> x[1] == 'P',
        is_part(five(cookie).2, x) ==> x[1] == 'S' && x[2] == 'e',
        is_part(five(cookie).3, x) ==> x[1] == 'H',
        is_part(five(cookie).4, x) ==> x[1] == 'S' && x[2] == 'a',
        is_part(five(cookie).4, x) ==> {
            ||| cookie.same_site == Some(SameSite::Strict) && x.len() == 16
            ||| cookie.same_site == Some(SameSite::Lax) && x.len() == 13
            ||| cookie.same_site == Some(SameSite::Unrestricted) && x.len() == 14
        },
{
    lemma_labels();
    let all = five(cookie);
    if let Some(domain) = cookie.domain {
        assert((seq![' '] + ("Domain="@ + domain@))[1] == 'D');
    }
    if let Some(path) = cookie.path {
        assert((seq![' '] + ("Path="@ + path@))[1] == 'P');
    }
}

/// A cookie can be told from its `Set-Cookie` value: two cookies with one value have one
/// name, one value and the same attributes. A flag that is off and one that was never set
/// come to the same.
pub proof fn law_set_cookie_value_tells_cookies_apart(a: Cookie, b: Cookie)
    requires
        has_no_semicolon(a),
        has_no_semicolon(b),
        !a.name@.contains('='),
        !b.name@.contains('='),
        a@.set_cookie_value() == b@.set_cookie_value(),
    ensures
        a.name@ == b.name@,
        a.value@ == b.value@,
        a.domain is Some <==> b.domain is Some,
        a.domain is Some ==> a.domain->0@ == b.domain->0@,
        a.path is Some <==> b.path is Some,
        a.path is Some ==> a.path->0@ == b.path->0@,
        a.secure == Some(true) <==> b.secure == Some(true),
        a.http_only == Some(true) <==> b.http_only == Some(true),
        a.same_site == b.same_site,
{
    law_set_cookie_value_starts_with_the_pair(a);
    law_set_cookie_value_starts_with_the_pair(b);
    law_flag_is_written_where_it_is_on(a);
    law_flag_is_written_where_it_is_on(b);
    law_same_site_is_written_where_present(a);
    law_same_site_is_written_where_present(b);
    if let Some(domain) = a.domain {
        law_domain_and_path_are_written_where_present(a, domain@);
        law_domain_and_path_are_written_where_present(b, domain@);
    }
    if let Some(domain) = b.domain {
        law_domain_and_path_are_written_where_present(a, domain@);
        law_domain_and_path_are_written_where_present(b, domain@);
    }
    if let Some(path) = a.path {
        law_domain_and_path_are_written_where_present(a, path@);
        law_domain_and_path_are_written_where_present(b, path@);
    }
    if let Some(path) = b.path {
        law_domain_and_path_are_written_where_present(a, path@);
        law_domain_and_path_are_written_where_present(b, path@);
    }
    let x = a.name@ + seq!['='] + a.value@;
    let y = b.name@ + seq!['='] + b.value@;
    assert(x == y);
    let m = a.name@.len() as int;
    let n = b.name@.len() as int;
    assert(x[m] == '=' && y[n] == '=');
    if m < n {
        assert(y[m] == b.name@[m]);
        assert(b.name@.contains(b.name@[m]));
    } else if n < m {
        assert(x[n] == a.name@[n]);
        assert(a.name@.contains(a.name@[n]));
    }
    assert(x.take(m) == a.name@);
    assert(y.take(n) == b.name@);
    assert(x.skip(m + 1) == a.value@);
    assert(y.skip(n + 1) == b.value@);
}

/// A `Set-Cookie` value is the name, `=`, the value, and then `; ` and an attribute for
/// each that the cookie has, in the order `Domain`, `Path`, `Secure`, `HttpOnly`,
/// `SameSite`, whatever characters the texts hold.
pub proof fn law_set_cookie_value_letter_for_letter(cookie: Cookie)
    ensures
        cookie@.set_cookie_value() == cookie.name@ + "="@ + cookie.value@ + (match cookie.domain {
            Some(domain) => "; Domain="@ + domain@,
            None => Seq::empty(),
        }) + (match cookie.path {
            Some(path) => "; Path="@ + path@,
            None => Seq::empty(),
        }) + (if cookie.secure == Some(true) {
            "; Secure"@
        } else {
            Seq::empty()
        }) + (if cookie.http_only == Some(true) {
            "; HttpOnly"@
        } else {
            Seq::empty()
        }) + (match cookie.same_site {
            Some(SameSite::Strict) => "; SameSite=Strict"@,
            Some(SameSite::Lax) => "; SameSite=Lax"@,
            Some(SameSite::Unrestricted) => "; SameSite=None"@,
            None => Seq::empty(),
        }),
{
    reveal_strlit("; ");
    reveal_strlit("Domain=");
    reveal_strlit("Path=");
    reveal_strlit("Secure");
    reveal_strlit("HttpOnly");
    reveal_strlit("SameSite=");
    reveal_strlit("Strict");
    reveal_strlit("Lax");
    reveal_strlit("None");
    reveal_strlit("; Domain=");
    reveal_strlit("; Path=");
    reveal_strlit("; Secure");
    reveal_strlit("; HttpOnly");
    reveal_strlit("; SameSite=Strict");
    reveal_strlit("; SameSite=Lax");
    reveal_strlit("; SameSite=None");
    lemma_parts_are_a_row(cookie);
    let all = five(cookie);
    let s0 = seq![cookie.name@ + "="@ + cookie.value@];
    let s1 = s0 + part(all.0);
    let s2 = s1 + part(all.1);
    let s3 = s2 + part(all.2);
    let s4 = s3 + part(all.3);
    lemma_joined_part(s0, all.0);
    lemma_joined_part(s1, all.1);
    lemma_joined_part(s2, all.2);
    lemma_joined_part(s3, all.3);
    lemma_joined_part(s4, all.4);
    assert(joined(s0, "; "@) == cookie.name@ + "="@ + cookie.value@);
    if let Some(domain) = cookie.domain {
        assert("; "@ + ("Domain="@ + domain@) == "; Domain="@ + domain@);
    }
    if let Some(path) = cookie.path {
        assert("; "@ + ("Path="@ + path@) == "; Path="@ + path@);
    }
    assert("; "@ + "Secure"@ == "; Secure"@);
    assert("; "@ + "HttpOnly"@ == "; HttpOnly"@);
    assert("; "@ + ("SameSite="@ + "Strict"@) == "; SameSite=Strict"@);
    assert("; "@ + ("SameSite="@ + "Lax"@) == "; SameSite=Lax"@);
    assert("; "@ + ("SameSite="@ + "None"@) == "; SameSite=None"@);
}

/// Another part, where there is one, comes behind `; `.
proof fn lemma_joined_part(parts: Seq<Seq<char>>, next: Option<Seq<char>>)
    requires
        parts.len() > 0,
    ensures
        joined(parts + part(next), "; "@) == joined(parts, "; "@) + (match next {
            Some(text) => "; "@ + text,
            None => Seq::empty(),
        }),
{
    match next {
        Some(text) => {
            lemma_joined_push(parts, text, "; "@);
            assert(parts + part(next) == parts.push(text));
            assert(joined(parts, "; "@) + "; "@ + text == joined(parts, "; "@) + ("; "@ + text));
        },
        None => {
            assert(parts + part(next) == parts);
        },
    }
}

/// A domain stands for the address of its host, without the dots that it starts with:
/// here `dots` is how many there are. `address` is what `cookie_address` returns.
pub proof fn law_domain_names_an_address(cookie: Cookie, address: Option<String>, dots: int)
    requires
        text_of(address) == cookie@.address(),
        cookie.domain matches Some(domain) ==> {
            &&& 0 <= dots <= domain@.len()
            &&& forall|i: int| 0 <= i < dots ==> domain@[i] == '.'
            &&& dots < domain@.len() ==> domain@[dots] != '.'
        },
    ensures
        address is Some <==> cookie.domain is Some && cookie.domain->0@.len() > 0,
        address is Some ==> address->0@ == "https://"@ + cookie.domain->0@.skip(dots),
{
    if let Some(domain) = cookie.domain {
        lemma_without_dots(domain@, dots);
    }
}

proof fn lemma_without_dots(domain: Seq<char>, dots: int)
    requires
        0 <= dots <= domain.len(),
        forall|i: int| 0 <= i < dots ==> domain[i] == '.',
        dots < domain.len() ==> domain[dots] != '.',
    ensures
        without_leading(domain, '.') == domain.skip(dots),
    decreases dots,
{
    if dots > 0 {
        let rest = domain.drop_first();
        assert forall|i: int| 0 <= i < dots - 1 implies rest[i] == '.' by {
            assert(rest[i] == domain[i + 1]);
        }
        lemma_without_dots(rest, dots - 1);
        assert(rest.skip(dots - 1) == domain.skip(dots));
    } else {
        assert(domain.skip(0) == domain);
    }
}

/// A cookie with a domain is stored for the address of that domain, without the dots
/// that it starts with, whatever page is shown. Any other is stored for the page that is
/// shown, where the platform tells its address, and else nowhere.
pub proof fn law_cookie_is_stored_for_its_domain_or_the_page(
    cookie: Cookie,
    page: Result<String, String>,
    dots: int,
)
    requires
        cookie.domain matches Some(domain) ==> {
            &&& 0 <= dots <= domain@.len()
            &&& forall|i: int| 0 <= i < dots ==> domain@[i] == '.'
            &&& dots < domain@.len() ==> domain@[dots] != '.'
        },
    ensures
        (cookie.domain is Some && cookie.domain->0@.len() > 0) ==> destination(cookie@, page)
            == Some("https://"@ + cookie.domain->0@.skip(dots)),
        !(cookie.domain is Some && cookie.domain->0@.len() > 0) && page is Ok
            && page->Ok_0@.len() > 0 ==> destination(cookie@, page) == Some(page->Ok_0@),
        !(cookie.domain is Some && cookie.domain->0@.len() > 0) && !(page is Ok
            && page->Ok_0@.len() > 0) ==> destination(cookie@, page) is None,
{
    if let Some(domain) = cookie.domain {
        lemma_without_dots(domain@, dots);
    }
}

/// Storing a cookie fails exactly where there is an address to store it for (it has a
/// domain, or the page has an address) and the platform refuses. The caller is then told
/// the platform's reason.
pub proof fn law_refusal_is_told(
    cookie: Cookie,
    page: Result<String, String>,
    reply: Result<(), String>,
)
    ensures
        store_error(cookie@, page, reply) is Some <==> reply is Err && ((cookie.domain is Some
            && cookie.domain->0@.len() > 0) || (page is Ok && page->Ok_0@.len() > 0)),
        store_error(cookie@, page, reply) matches Some(error) ==> error
            == ErrorView::OpenHarmonyWebviewError("Failed to set cookie: "@ + reply->Err_0@),
{
}

} // verus!
