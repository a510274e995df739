use wry_ohos::attributes::{Content, Counter, Handlers, WebViewAttributes};
use wry_ohos::color::argb_number;
use wry_ohos::operation::{Operation, Step};
use wry_ohos::webview::{
    allows_new_window, new_window_request, CookieStep, NewWindowResponse, PdfStep,
};
use wry_ohos::{
    platform_webview_version, Cookie, Error, InnerWebView, PageLoadEvent,
    PlatformSpecificWebViewAttributes, Position, Real, Rect, Size, WebviewCall,
};

fn handlers(all: bool) -> Handlers {
    Handlers {
        ipc: all,
        navigation: all,
        document_title_changed: all,
        download_started: all,
        download_completed: all,
        page_load: all,
        new_window: all,
    }
}

fn attributes() -> WebViewAttributes {
    WebViewAttributes {
        id: Some("view".to_string()),
        url: None,
        html: None,
        headers: None,
        initialization_scripts: vec![],
        custom_protocols: vec![],
        devtools: None,
        background_color: None,
        transparent: false,
        autoplay: false,
        javascript_disabled: false,
        user_agent: None,
        bounds: None,
        handlers: handlers(false),
    }
}

fn made(attributes: WebViewAttributes, is_child: bool) -> InnerWebView {
    let platform = PlatformSpecificWebViewAttributes { window_id: None };
    let mut counter = Counter::starting_at(1);
    let new = if is_child {
        InnerWebView::new_as_child(attributes, platform, &mut counter)
    } else {
        InnerWebView::new(attributes, platform, &mut counter)
    };
    assert_eq!(new.config.content, Content::Blank);
    new.webview
}

fn main_view() -> InnerWebView {
    made(attributes(), false)
}

fn rect(x: i32) -> Rect {
    Rect {
        position: Position::Physical { x, y: 2 },
        size: Size::Physical { width: 3, height: 4 },
    }
}

fn cookie(domain: Option<&str>) -> Cookie {
    Cookie {
        name: "n".to_string(),
        value: "v".to_string(),
        domain: domain.map(str::to_string),
        path: None,
        secure: None,
        http_only: None,
        same_site: None,
    }
}

fn refused<K>(asked: &Operation<K>) -> Error {
    asked.complete::<()>(Err("why".to_string())).unwrap_err()
}

fn asked<T>(next: Step<T>) -> Operation<WebviewCall> {
    match next {
        Step::Ask(asked) => asked,
        Step::Done(_) => panic!("the platform is to be asked"),
    }
}

fn done<T>(next: Step<T>) -> Result<T, Error> {
    match next {
        Step::Ask(_) => panic!("there is nothing to ask"),
        Step::Done(outcome) => outcome,
    }
}

fn reported(text: &str) -> Error {
    Error::OpenHarmonyWebviewError(text.to_string())
}

#[test]
fn the_version() {
    assert_eq!(platform_webview_version(), Ok("1.0.0".to_string()));
}

#[test]
fn what_needs_no_platform() {
    let view = main_view();
    assert_eq!(view.id(), "view");
    assert_eq!(view.print(), Ok(()));
    assert_eq!(view.delete_cookie(&cookie(None)), Ok(()));
}

#[test]
fn each_operation_makes_its_call_and_reports_its_failure() {
    let view = main_view();
    let zoom = Real { bits: 1.5f64.to_bits() };
    let mut headers = http::HeaderMap::new();
    headers.insert("x-a", http::HeaderValue::from_static("1"));
    let cases = vec![
        (view.url(), WebviewCall::Url, "Failed to get url: why"),
        (view.zoom(zoom), WebviewCall::SetZoom(zoom), "Failed to set zoom: why"),
        (
            view.set_background_color((1, 2, 3, 4)),
            WebviewCall::SetBackgroundColor(0x04010203),
            "Failed to set background color: why",
        ),
        (
            view.cookies_for_url("https://a"),
            WebviewCall::CookiesWithUrl("https://a".to_string()),
            "Failed to get cookies: why",
        ),
        (view.reload(), WebviewCall::Reload, "Failed to reload: why"),
        (
            view.load_url("https://a"),
            WebviewCall::LoadUrl("https://a".to_string()),
            "Failed to load url: why",
        ),
        (
            view.load_url_with_headers("https://a", headers.clone()),
            WebviewCall::LoadUrlWithHeaders { url: "https://a".to_string(), headers },
            "Failed to load url with headers: why",
        ),
        (
            view.load_html("<b>"),
            WebviewCall::LoadHtml("<b>".to_string()),
            "Failed to load html: why",
        ),
        (
            view.clear_all_browsing_data(),
            WebviewCall::ClearAllBrowsingData,
            "Failed to clear all browsing data: why",
        ),
        (view.set_bounds(rect(1)), WebviewCall::SetBounds(rect(1)), "Failed to set bounds: why"),
        (view.set_visible(false), WebviewCall::SetVisible(false), "Failed to set visible: why"),
        (view.focus_parent(), WebviewCall::Focus, "Failed to focus parent: why"),
    ];
    for (asked, call, failure) in cases {
        assert_eq!(asked.call, call);
        assert_eq!(refused(&asked), reported(failure));
        assert_eq!(asked.complete(Ok(7)), Ok(7));
    }
}

#[test]
fn a_refused_focus_is_put_down_to_the_thread() {
    let asked = main_view().focus();
    assert_eq!(asked.call, WebviewCall::Focus);
    assert_eq!(refused(&asked), Error::NotMainThread);
    assert_eq!(asked.complete(Ok(())), Ok(()));
}

#[test]
fn a_script_is_handed_over_with_its_callback() {
    let asked = main_view().eval("1 + 1", Some(9));
    assert_eq!(asked.call.js, "1 + 1");
    assert_eq!(asked.call.callback, Some(9));
    assert_eq!(refused(&asked), reported("Failed to evaluate script: why"));
    assert_eq!(main_view().eval::<i32>("", None).call.callback, None);
}

#[test]
fn developer_tools() {
    let view = main_view();
    assert_eq!(view.open_devtools(), WebviewCall::SetWebDebuggingAccess(true));
    assert_eq!(view.close_devtools(), WebviewCall::SetWebDebuggingAccess(false));
    assert_eq!(view.ask_devtools_open(), WebviewCall::IsWebDebuggingAccess);
    assert!(view.is_devtools_open(Ok(true)));
    assert!(!view.is_devtools_open(Ok(false)));
    assert!(!view.is_devtools_open(Err("why".to_string())));
}

#[test]
fn colours_are_packed_alpha_first() {
    assert_eq!(argb_number((0, 0, 0, 0)), 0);
    assert_eq!(argb_number((255, 255, 255, 255)), 0xffffffff);
    assert_eq!(argb_number((0x12, 0x34, 0x56, 0x78)), 0x78123456);
}

#[test]
fn no_two_colours_share_a_number() {
    let numbers: Vec<u32> = vec![(1, 0, 0, 0), (0, 1, 0, 0), (0, 0, 1, 0), (0, 0, 0, 1)]
        .into_iter()
        .map(argb_number)
        .collect();
    assert_eq!(numbers, vec![0x10000, 0x100, 1, 0x1000000]);
}

#[test]
fn cookies_are_those_of_the_page() {
    let view = main_view();
    assert_eq!(view.cookies(), WebviewCall::Url);
    let asked = asked(view.cookies_at(Ok("https://a".to_string())));
    assert_eq!(asked.call, view.cookies_for_url("https://a").call);
    assert_eq!(refused(&asked), reported("Failed to get cookies: why"));
    assert_eq!(done(view.cookies_at(Ok(String::new()))), Ok(vec![]));
    assert_eq!(done(view.cookies_at(Err("why".to_string()))), Ok(vec![]));
}

#[test]
fn cookies_are_read_from_the_answer() {
    let view = main_view();
    let read = view.read_cookies(Ok("n=v; junk".to_string())).unwrap();
    assert_eq!(read, vec![cookie(None)]);
    assert_eq!(
        view.read_cookies(Err("why".to_string())),
        Err(reported("Failed to get cookies: why"))
    );
}

#[test]
fn a_cookie_with_a_domain_is_stored_for_it() {
    match main_view().set_cookie(&cookie(Some(".example.com"))) {
        CookieStep::Store(asked) => {
            assert_eq!(
                asked.call,
                WebviewCall::SetCookie {
                    url: "https://example.com".to_string(),
                    value: "n=v; Domain=.example.com".to_string(),
                }
            );
            assert_eq!(refused(&asked), reported("Failed to set cookie: why"));
        }
        CookieStep::AskUrl { .. } => panic!("the domain names an address"),
    }
}

#[test]
fn a_cookie_without_a_domain_is_stored_for_the_page() {
    for domain in [None, Some("")] {
        let value = if domain.is_some() { "n=v; Domain=" } else { "n=v" };
        let ask = || match main_view().set_cookie(&cookie(domain)) {
            CookieStep::AskUrl { call, pending } => {
                assert_eq!(call, WebviewCall::Url);
                pending
            }
            CookieStep::Store(_) => panic!("there is no domain"),
        };
        let asked = asked(ask().resume(Ok("https://page".to_string())));
        assert_eq!(
            asked.call,
            WebviewCall::SetCookie { url: "https://page".to_string(), value: value.to_string() }
        );
        assert_eq!(refused(&asked), reported("Failed to set cookie: why"));
        assert_eq!(asked.complete(Ok(())), Ok(()));
        assert_eq!(done(ask().resume(Ok(String::new()))), Ok(()));
        assert_eq!(done(ask().resume(Err("why".to_string()))), Ok(()));
    }
}

#[test]
fn a_page_is_printed_once_it_has_ended() {
    let mut view = main_view();
    let refusal = |view: &InnerWebView| match view.create_pdf("a.pdf", Some(1), "callback") {
        PdfStep::Refused { callback, success, error } => {
            assert_eq!((callback, success), ("callback", false));
            Some(error)
        }
        PdfStep::Create(asked) => {
            assert_eq!(asked.call.path, "a.pdf");
            assert_eq!(asked.call.config, Some(1));
            assert_eq!(asked.call.callback, "callback");
            assert_eq!(refused(&asked), reported("Failed to create PDF: why"));
            None
        }
    };
    let early = Some(reported("Page not fully loaded. Call createPdf after onPageEnd."));
    assert_eq!(refusal(&view), early);
    view.on_page_begin("https://a".to_string());
    assert_eq!(refusal(&view), early);
    view.on_page_end("https://a".to_string());
    assert_eq!(refusal(&view), None);
    view.on_page_begin("https://b".to_string());
    assert_eq!(refusal(&view), early);
}

#[test]
fn the_application_is_told_of_page_loads_if_it_listens() {
    let url = || "https://a".to_string();
    let mut view = made(WebViewAttributes { handlers: handlers(true), ..attributes() }, false);
    assert_eq!(view.on_page_begin(url()), Some((PageLoadEvent::Started, url())));
    assert_eq!(view.on_page_end(url()), Some((PageLoadEvent::Finished, url())));
    assert_eq!(view.on_post_message(), Some(WebviewCall::Url));
    let mut view = main_view();
    assert_eq!(view.on_page_begin(url()), None);
    assert_eq!(view.on_page_end(url()), None);
    assert_eq!(view.on_post_message(), None);
}

#[test]
fn bounds_follow_what_the_platform_accepts() {
    let mut view = main_view();
    assert_eq!(view.bounds(), Ok(Rect::default()));
    assert_eq!(view.record_bounds(rect(1), Ok(())), Ok(()));
    assert_eq!(view.bounds(), Ok(rect(1)));
    assert_eq!(
        view.record_bounds(rect(2), Err("why".to_string())),
        Err(reported("Failed to set bounds: why"))
    );
    assert_eq!(view.bounds(), Ok(rect(1)));
}

#[test]
fn bounds_start_where_the_application_says() {
    let view = made(WebViewAttributes { bounds: Some(rect(5)), ..attributes() }, false);
    assert_eq!(view.bounds(), Ok(rect(5)));
}

#[test]
fn a_child_is_taken_down_once() {
    let mut child = made(attributes(), true);
    assert_eq!(child.dispose_child(), Some(WebviewCall::Dispose));
    assert_eq!(child.dispose_child(), None);
    assert_eq!(child.on_drop(), None);
    let mut child = made(attributes(), true);
    assert_eq!(child.on_drop(), Some(WebviewCall::Dispose));
    assert_eq!(child.on_drop(), None);
}

#[test]
fn a_webview_that_is_no_child_is_never_taken_down() {
    let mut view = main_view();
    assert_eq!(view.dispose_child(), None);
    assert_eq!(view.on_drop(), None);
}

#[test]
fn other_events_keep_the_name() {
    let mut child = made(attributes(), true);
    child.on_page_end("https://a".to_string());
    child.record_bounds(rect(1), Ok(())).unwrap();
    child.dispose_child();
    assert_eq!(child.id(), "view");
}

#[test]
fn new_windows() {
    let request = new_window_request("https://a".to_string());
    assert_eq!(request.url, "https://a");
    assert_eq!((request.size, request.position), (None, None));
    assert!(allows_new_window(NewWindowResponse::Allow));
    assert!(allows_new_window(NewWindowResponse::Create));
    assert!(!allows_new_window(NewWindowResponse::Deny));
}
