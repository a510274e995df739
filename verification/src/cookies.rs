use vstd::prelude::*;
use vstd::string::*;

use crate::text::{
    chars_of, find_from, joined, lemma_joined_push, lemma_place_of, pieces, place_of, trim_bounds,
    trim_leading, trimmed, without_leading,
};

verus! {

/// The `SameSite` attribute of a cookie.
#[derive(Debug, Clone, Copy, PartialEq, Eq, Structural)]
pub enum SameSite {
    Strict,
    Lax,
    /// The value `None`: the cookie goes with every request.
    Unrestricted,
}

impl SameSite {
    /// The attribute's value in a cookie header.
    pub open spec fn text(self) -> Seq<char> {
        match self {
            SameSite::Strict => "Strict"@,
            SameSite::Lax => "Lax"@,
            SameSite::Unrestricted => "None"@,
        }
    }

    /// The attribute's value in a cookie header.
    pub fn as_str(self) -> (text: &'static str)
        ensures
            text@ == self.text(),
    {
        match self {
            SameSite::Strict => "Strict",
            SameSite::Lax => "Lax",
            SameSite::Unrestricted => "None",
        }
    }
}

/// A cookie, with the attributes that the platform's cookie store takes.
#[derive(Debug, PartialEq, Eq)]
pub struct Cookie {
    pub name: String,
    pub value: String,
    /// The domain as `cookie::Cookie::domain` tells it: without the dot that it may
    /// have been written with.
    pub domain: Option<String>,
    pub path: Option<String>,
    pub secure: Option<bool>,
    pub http_only: Option<bool>,
    pub same_site: Option<SameSite>,
}

/// What a `Cookie` holds.
#[verifier::ext_equal]
pub struct CookieView {
    pub name: Seq<char>,
    pub value: Seq<char>,
    pub domain: Option<Seq<char>>,
    pub path: Option<Seq<char>>,
    pub secure: Option<bool>,
    pub http_only: Option<bool>,
    pub same_site: Option<SameSite>,
}

/// The text of an optional string.
pub open spec fn text_of(text: Option<String>) -> Option<Seq<char>> {
    match text {
        Some(text) => Some(text@),
        None => None,
    }
}

impl View for Cookie {
    type V = CookieView;

    open spec fn view(&self) -> CookieView {
        CookieView {
            name: self.name@,
            value: self.value@,
            domain: text_of(self.domain),
            path: text_of(self.path),
            secure: self.secure,
            http_only: self.http_only,
            same_site: self.same_site,
        }
    }
}

impl CookieView {
    /// A cookie with a name and a value, and no attribute.
    pub open spec fn bare(name: Seq<char>, value: Seq<char>) -> CookieView {
        CookieView {
            name,
            value,
            domain: None,
            path: None,
            secure: None,
            http_only: None,
            same_site: None,
        }
    }

    /// `name=value`.
    pub open spec fn pair(self) -> Seq<char> {
        self.name + "="@ + self.value
    }

    /// What a `Set-Cookie` header says of the cookie, part by part: the name and
    /// value, then the attributes that are present and the flags that are on.
    pub open spec fn parts(self) -> Seq<Seq<char>> {
        seq![self.pair()] + valued("Domain="@, self.domain) + valued("Path="@, self.path) + flag(
            "Secure"@,
            self.secure,
        ) + flag("HttpOnly"@, self.http_only) + valued(
            "SameSite="@,
            match self.same_site {
                Some(same_site) => Some(same_site.text()),
                None => None,
            },
        )
    }

    /// The value of the `Set-Cookie` header that stores the cookie.
    pub open spec fn set_cookie_value(self) -> Seq<char> {
        joined(self.parts(), "; "@)
    }

    /// The address that the cookie's domain stands for, where it names one.
    pub open spec fn address(self) -> Option<Seq<char>> {
        match self.domain {
            Some(domain) => if domain.len() > 0 {
                Some("https://"@ + without_leading(domain, '.'))
            } else {
                None
            },
            None => None,
        }
    }
}

/// An attribute with its value, where it is present.
pub open spec fn valued(label: Seq<char>, value: Option<Seq<char>>) -> Seq<Seq<char>> {
    match value {
        Some(value) => seq![label + value],
        None => Seq::empty(),
    }
}

/// A flag, where it is on.
pub open spec fn flag(label: Seq<char>, value: Option<bool>) -> Seq<Seq<char>> {
    if value == Some(true) {
        seq![label]
    } else {
        Seq::empty()
    }
}

/// Adds an attribute with its value, where it is present.
fn append_valued(
    header: String,
    label: &str,
    value: Option<&str>,
    parts: Ghost<Seq<Seq<char>>>,
) -> (longer: String)
    requires
        parts@.len() > 0,
        header@ == joined(parts@, "; "@),
    ensures
        longer@ == joined(
            parts@ + valued(
                label@,
                match value {
                    Some(value) => Some(value@),
                    None => None,
                },
            ),
            "; "@,
        ),
{
    let mut longer = header;
    match value {
        Some(value) => {
            longer.append("; ");
            longer.append(label);
            longer.append(value);
            proof {
                lemma_joined_push(parts@, label@ + value@, "; "@);
                assert(longer@ == joined(parts@, "; "@) + "; "@ + (label@ + value@));
                assert(parts@ + valued(label@, Some(value@)) == parts@.push(label@ + value@));
            }
        },
        None => {
            assert(parts@ + valued(label@, None) == parts@);
        },
    }
    longer
}

/// Adds a flag, where it is on.
fn append_flag(
    header: String,
    label: &str,
    value: Option<bool>,
    parts: Ghost<Seq<Seq<char>>>,
) -> (longer: String)
    requires
        parts@.len() > 0,
        header@ == joined(parts@, "; "@),
    ensures
        longer@ == joined(parts@ + flag(label@, value), "; "@),
{
    let mut longer = header;
    if value.unwrap_or(false) {
        longer.append("; ");
        longer.append(label);
        proof {
            lemma_joined_push(parts@, label@, "; "@);
            assert(parts@ + flag(label@, value) == parts@.push(label@));
        }
    } else {
        assert(parts@ + flag(label@, value) == parts@);
    }
    longer
}

/// The value of the `Set-Cookie` header that stores `cookie`: its name and value,
/// then `Domain`, `Path`, `Secure`, `HttpOnly` and `SameSite`.
pub fn format_set_cookie_value(cookie: &Cookie) -> (header: String)
    ensures
        header@ == cookie@.set_cookie_value(),
{
    let mut header = cookie.name.clone();
    header.append("=");
    header.append(cookie.value.as_str());
    let ghost start = seq![cookie@.pair()];
    let ghost with_domain = start + valued("Domain="@, cookie@.domain);
    let ghost with_path = with_domain + valued("Path="@, cookie@.path);
    let ghost with_secure = with_path + flag("Secure"@, cookie@.secure);
    let ghost with_http_only = with_secure + flag("HttpOnly"@, cookie@.http_only);
    let domain = match &cookie.domain {
        Some(domain) => Some(domain.as_str()),
        None => None,
    };
    let path = match &cookie.path {
        Some(path) => Some(path.as_str()),
        None => None,
    };
    let same_site = match cookie.same_site {
        Some(same_site) => Some(same_site.as_str()),
        None => None,
    };
    let header = append_valued(header, "Domain=", domain, Ghost(start));
    let header = append_valued(header, "Path=", path, Ghost(with_domain));
    let header = append_flag(header, "Secure", cookie.secure, Ghost(with_path));
    let header = append_flag(header, "HttpOnly", cookie.http_only, Ghost(with_secure));
    append_valued(header, "SameSite=", same_site, Ghost(with_http_only))
}

/// The address that the domain of `cookie` stands for, where it names one.
pub fn cookie_address(cookie: &Cookie) -> (address: Option<String>)
    ensures
        text_of(address) == cookie@.address(),
{
    match &cookie.domain {
        Some(domain) => if domain.as_str().is_empty() {
            None
        } else {
            let host = trim_leading(domain.as_str(), '.');
            Some("https://".to_string().concat(host.as_str()))
        },
        None => None,
    }
}

/// The name and value of a cookie written as `name=value`, each without the white
/// space around it. There is none without `=`, nor with an empty name.
pub open spec fn pair_in(text: Seq<char>) -> Option<(Seq<char>, Seq<char>)> {
    let at = place_of(text, '=');
    if at == text.len() || trimmed(text.take(at)).len() == 0 {
        None
    } else {
        Some((trimmed(text.take(at)), trimmed(text.skip(at + 1))))
    }
}

/// `cookie::Cookie::parse`, on a text of one part.
///
/// The outside function takes the part up to the first `;` as the name and value:
/// it fails where that part has no `=`, or nothing but white space before its
/// first `=`. What comes before that `=` is the name, what comes after it is the
/// value, each without the white space at its ends (`str::trim`, which goes by the
/// Unicode property `White_Space`). The attributes come from the parts behind a `;`:
/// a text of one part leaves them all unset.
#[verifier::external_body]
fn parse_pair(text: &str) -> (cookie: Option<Cookie>)
    requires
        !text@.contains(';'),
    ensures
        cookie matches Some(cookie) ==> pair_in(text@) == Some((cookie@.name, cookie@.value))
            && cookie@ == CookieView::bare(cookie@.name, cookie@.value),
        cookie is None ==> pair_in(text@) is None,
{
    let found = cookie::Cookie::parse(text).ok()?;
    Some(Cookie {
        name: found.name().to_string(),
        value: found.value().to_string(),
        domain: found.domain().map(str::to_string),
        path: found.path().map(str::to_string),
        secure: found.secure(),
        http_only: found.http_only(),
        same_site: match found.same_site() {
            Some(cookie::SameSite::Strict) => Some(SameSite::Strict),
            Some(cookie::SameSite::Lax) => Some(SameSite::Lax),
            Some(cookie::SameSite::None) => Some(SameSite::Unrestricted),
            None => None,
        },
    })
}

/// The cookies that the texts in `parts` hold: one for each that is a pair.
pub open spec fn cookies_in(parts: Seq<Seq<char>>) -> Seq<CookieView>
    decreases parts.len(),
{
    if parts.len() == 0 {
        Seq::empty()
    } else {
        let rest = cookies_in(parts.drop_first());
        match pair_in(trimmed(parts.first())) {
            Some((name, value)) => seq![CookieView::bare(name, value)] + rest,
            None => rest,
        }
    }
}

/// The cookies that a `Cookie` header holds, in its order.
pub open spec fn header_cookies(header: Seq<char>) -> Seq<CookieView> {
    cookies_in(pieces(header, ';'))
}

/// What each cookie of a list holds.
pub open spec fn views(cookies: Seq<Cookie>) -> Seq<CookieView> {
    cookies.map_values(|cookie: Cookie| cookie@)
}

/// The cookies in a `Cookie` header. A part that is no `name=value` is left out.
pub fn parse_cookie_header(header: &str) -> (cookies: Vec<Cookie>)
    ensures
        views(cookies@) == header_cookies(header@),
{
    let chars = chars_of(header);
    let mut cookies: Vec<Cookie> = Vec::new();
    let mut from: usize = 0;
    let mut done = false;
    assert(chars@.skip(0) == header@);
    assert(views(cookies@) + header_cookies(header@) == header_cookies(header@));
    while !done
        invariant
            chars@ == header@,
            from <= chars@.len(),
            done ==> views(cookies@) == header_cookies(header@),
            !done ==> views(cookies@) + header_cookies(chars@.skip(from as int)) == header_cookies(
                header@,
            ),
        decreases
            if done {
                0
            } else {
                chars@.len() - from + 1
            },
    {
        let at = find_from(&chars, from, ';');
        let bounds = trim_bounds(&chars, from, at);
        let ghost rest = chars@.skip(from as int);
        let ghost before = views(cookies@);
        proof {
            lemma_place_of(rest, ';');
            assert(rest.take(at - from) == chars@.subrange(from as int, at as int));
            assert forall|i: int| from <= i < at implies chars@[i] != ';' by {
                assert(rest[i - from] == chars@[i]);
            }
        }
        let ghost part = chars@.subrange(from as int, at as int);
        if bounds.0 < bounds.1 {
            let text = header.substring_char(bounds.0, bounds.1);
            match parse_pair(text) {
                Some(cookie) => {
                    cookies.push(cookie);
                    assert(views(cookies@) == before.push(cookie@));
                },
                None => {},
            }
        }
        proof {
            let all = pieces(rest, ';');
            assert(all.first() == part);
            if at < chars@.len() {
                assert(rest.skip(at - from + 1) == chars@.skip(at + 1));
                assert(all.drop_first() == pieces(chars@.skip(at + 1), ';'));
            } else {
                assert(part == rest);
                assert(all.drop_first() == Seq::<Seq<char>>::empty());
                assert(cookies_in(all.drop_first()) == Seq::<CookieView>::empty());
                assert(views(cookies@) == before + cookies_in(all));
            }
        }
        if at == chars.len() {
            done = true;
        } else {
            from = at + 1;
        }
    }
    cookies
}

} // verus!
