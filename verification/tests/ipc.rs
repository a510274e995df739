use wry_ohos::ipc::{ipc_request, request_uri, IpcRequest};

fn request(params: &[&str], reply: Result<&str, &str>) -> IpcRequest {
    ipc_request(
        &params.iter().map(|param| param.to_string()).collect(),
        reply.map(str::to_string).map_err(str::to_string),
    )
}

#[test]
fn a_message_names_the_page() {
    let sent = request(&["hello", "ignored"], Ok("https://example.com/a?b=c"));
    assert_eq!(sent.uri, "https://example.com/a?b=c");
    assert_eq!(sent.body, "hello");
}

#[test]
fn a_page_without_a_uri_is_blank() {
    assert_eq!(request(&["m"], Ok("data:text/html;base64,PGI+ <b>")).uri, "about:blank");
    assert_eq!(request(&["m"], Ok("http://[")).uri, "about:blank");
    assert_eq!(request(&["m"], Ok("")).uri, "about:blank");
}

#[test]
fn a_page_that_cannot_be_asked_is_blank() {
    assert_eq!(request(&["m"], Err("no environment")).uri, "about:blank");
}

#[test]
fn a_message_without_parameters_is_empty() {
    assert_eq!(request(&[], Ok("https://example.com/")).body, "");
}

#[test]
fn the_uri_of_a_request_always_parses() {
    for url in ["https://a", "", " ", "about:blank", "a b", "\u{fc}", "/x", "*", "data:,x"] {
        let sent = request(&["m"], Ok(url));
        assert!(sent.uri.parse::<http::Uri>().is_ok());
        match url.parse::<http::Uri>() {
            Ok(uri) => assert_eq!(sent.uri.parse::<http::Uri>().unwrap(), uri),
            Err(_) => assert_eq!(sent.uri, "about:blank"),
        }
    }
}

#[test]
fn the_choice_of_a_uri() {
    let blank = || "about:blank".to_string();
    assert_eq!(request_uri("x".to_string(), true, blank()), "x");
    assert_eq!(request_uri("x".to_string(), false, blank()), "about:blank");
}
