use wry_ohos::cookies::{cookie_address, format_set_cookie_value, parse_cookie_header};
use wry_ohos::{Cookie, SameSite};

fn held(found: &cookie::Cookie<'_>) -> Cookie {
    Cookie {
        name: found.name().to_string(),
        value: found.value().to_string(),
        domain: found.domain().map(str::to_string),
        path: found.path().map(str::to_string),
        secure: found.secure(),
        http_only: found.http_only(),
        same_site: found.same_site().map(|same_site| match same_site {
            cookie::SameSite::Strict => SameSite::Strict,
            cookie::SameSite::Lax => SameSite::Lax,
            cookie::SameSite::None => SameSite::Unrestricted,
        }),
    }
}

fn bare(name: &str, value: &str) -> Cookie {
    Cookie {
        name: name.to_string(),
        value: value.to_string(),
        domain: None,
        path: None,
        secure: None,
        http_only: None,
        same_site: None,
    }
}

#[test]
fn format_set_cookie_value_includes_core_attrs() {
    let cookie = cookie::Cookie::build(("token", "abc"))
        .domain("example.com")
        .path("/")
        .secure(true)
        .http_only(true)
        .same_site(cookie::SameSite::Lax)
        .build();
    let v = format_set_cookie_value(&held(&cookie));
    assert!(v.starts_with("token=abc"));
    assert!(v.contains("; Domain=example.com"));
    assert!(v.contains("; Path=/"));
    assert!(v.contains("; Secure"));
    assert!(v.contains("; HttpOnly"));
    assert!(v.contains("; SameSite=Lax"));
}

#[test]
fn format_set_cookie_value_minimal() {
    let cookie = cookie::Cookie::build(("k", "v")).build();
    assert_eq!(format_set_cookie_value(&held(&cookie)), "k=v");
}

#[test]
fn attributes_are_written_in_order() {
    let cookie = Cookie {
        domain: Some("example.com".to_string()),
        path: Some("/a".to_string()),
        secure: Some(true),
        http_only: Some(true),
        same_site: Some(SameSite::Strict),
        ..bare("n", "v")
    };
    assert_eq!(
        format_set_cookie_value(&cookie),
        "n=v; Domain=example.com; Path=/a; Secure; HttpOnly; SameSite=Strict"
    );
}

#[test]
fn a_flag_that_is_off_is_not_written() {
    let cookie = Cookie {
        secure: Some(false),
        http_only: Some(false),
        same_site: Some(SameSite::Unrestricted),
        ..bare("n", "v")
    };
    assert_eq!(format_set_cookie_value(&cookie), "n=v; SameSite=None");
}

#[test]
fn an_empty_domain_or_path_is_written() {
    let cookie = Cookie {
        domain: Some(String::new()),
        path: Some(String::new()),
        ..bare("n", "")
    };
    assert_eq!(format_set_cookie_value(&cookie), "n=; Domain=; Path=");
}

#[test]
fn same_site_is_written_as_the_cookie_crate_writes_it() {
    assert_eq!(SameSite::Strict.as_str(), cookie::SameSite::Strict.to_string());
    assert_eq!(SameSite::Lax.as_str(), cookie::SameSite::Lax.to_string());
    assert_eq!(SameSite::Unrestricted.as_str(), cookie::SameSite::None.to_string());
}

#[test]
fn lifetime_attributes_are_left_out() {
    let cookie = cookie::Cookie::parse("n=v; Max-Age=60; Expires=Wed, 21 Oct 2015 07:28:00 GMT")
        .unwrap();
    assert_eq!(format_set_cookie_value(&held(&cookie)), "n=v");
}

#[test]
fn the_address_of_a_domain() {
    let at = |domain: Option<&str>| {
        cookie_address(&Cookie { domain: domain.map(str::to_string), ..bare("n", "v") })
    };
    assert_eq!(at(Some("example.com")).as_deref(), Some("https://example.com"));
    assert_eq!(at(Some("..example.com.")).as_deref(), Some("https://example.com."));
    assert_eq!(at(Some(".")).as_deref(), Some("https://"));
    assert_eq!(at(Some("")), None);
    assert_eq!(at(None), None);
}

#[test]
fn a_header_is_read_pair_by_pair() {
    assert_eq!(
        parse_cookie_header("a=1; b=2;c=3"),
        vec![bare("a", "1"), bare("b", "2"), bare("c", "3")]
    );
}

#[test]
fn what_is_no_pair_is_left_out() {
    assert_eq!(parse_cookie_header(""), vec![]);
    assert_eq!(parse_cookie_header(" ; ;"), vec![]);
    assert_eq!(parse_cookie_header("lonely; =1; \t=2; a=1"), vec![bare("a", "1")]);
}

#[test]
fn white_space_around_names_and_values_goes() {
    assert_eq!(
        parse_cookie_header("\u{3000} a \t=\u{a0} x y \n;b=\u{2003};\u{85}c==\u{1680}d="),
        vec![bare("a", "x y"), bare("b", ""), bare("c", "=\u{1680}d=")]
    );
}

#[test]
fn every_white_space_character_is_trimmed_as_std_trims_it() {
    for code in 0..=0x10ffffu32 {
        if let Some(c) = char::from_u32(code) {
            if c.is_whitespace() || code < 0x100 || (0x2000..0x2100).contains(&code) {
                let header = format!("a={}b{}", c, c);
                let expected: Vec<Cookie> = header
                    .split(';')
                    .filter_map(|part| cookie::Cookie::parse(part.trim()).ok().map(|c| held(&c)))
                    .collect();
                assert_eq!(parse_cookie_header(&header), expected);
            }
        }
    }
}

#[test]
fn an_attribute_in_a_header_is_a_cookie_like_any_other() {
    assert_eq!(
        parse_cookie_header("a=1; Path=/; Secure"),
        vec![bare("a", "1"), bare("Path", "/")]
    );
}

#[test]
fn reading_gives_back_what_was_written() {
    let cookies = vec![bare("a", "1=1"), bare("b", ""), bare("naïve", "é ü")];
    let header: Vec<String> = cookies.iter().map(format_set_cookie_value).collect();
    assert_eq!(parse_cookie_header(&header.join("; ")), cookies);
}

#[test]
fn a_set_cookie_value_splits_into_its_parts() {
    let cookie = Cookie {
        path: Some("/".to_string()),
        secure: Some(true),
        ..bare("n", "v")
    };
    let value = format_set_cookie_value(&cookie);
    let parts: Vec<&str> = value.split(';').collect();
    assert_eq!(parts, vec!["n=v", " Path=/", " Secure"]);
    assert_eq!(held(&cookie::Cookie::parse(value.as_str()).unwrap()), cookie);
}

#[test]
fn a_name_that_is_not_clean_still_leaves_the_parts_apart() {
    let cookie = Cookie { path: Some("/".to_string()), ..bare(" a=b", "v ") };
    let value = format_set_cookie_value(&cookie);
    assert_eq!(value.split(';').collect::<Vec<&str>>(), vec![" a=b=v ", " Path=/"]);
}

#[test]
fn a_clean_pair_is_read_back_whatever_the_attributes() {
    let cookie = Cookie { path: Some("/;x".to_string()), ..bare("n", "v") };
    let value = format_set_cookie_value(&cookie);
    assert_eq!(parse_cookie_header(&value)[0], bare("n", "v"));
}
