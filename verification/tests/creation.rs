use wry_ohos::attributes::{
    merge_scripts, Callbacks, Content, Counter, Handlers, InitializationScript, WebViewAttributes,
};
use wry_ohos::creation::{CreationCall, NewWebView, Stage};
use wry_ohos::{
    Error, InnerWebView, PlatformSpecificWebViewAttributes, Position, Real, Rect, Size,
};

const NO_HANDLERS: Handlers = Handlers {
    ipc: false,
    navigation: false,
    document_title_changed: false,
    download_started: false,
    download_completed: false,
    page_load: false,
    new_window: false,
};

fn attributes() -> WebViewAttributes {
    WebViewAttributes {
        id: Some("view".to_string()),
        url: None,
        html: None,
        headers: None,
        initialization_scripts: vec![],
        custom_protocols: vec![],
        devtools: None,
        background_color: None,
        transparent: false,
        autoplay: false,
        javascript_disabled: false,
        user_agent: None,
        bounds: None,
        handlers: NO_HANDLERS,
    }
}

fn started(attributes: WebViewAttributes, is_child: bool) -> NewWebView {
    InnerWebView::new_inner(
        attributes,
        PlatformSpecificWebViewAttributes { window_id: None },
        is_child,
        &mut Counter::starting_at(1),
    )
}

fn script(text: &str) -> InitializationScript {
    InitializationScript { script: text.to_string(), for_main_frame_only: false }
}

#[test]
fn a_plain_webview() {
    let config = started(attributes(), false).config;
    assert_eq!(config.id, "view");
    assert_eq!(config.style.bounds, None);
    assert_eq!(config.style.visible, None);
    assert_eq!(config.style.background_color, None);
    assert!(config.javascript_enabled);
    assert!(!config.autoplay);
    assert!(!config.transparent);
    assert_eq!(config.initialization_scripts, vec![String::new()]);
    assert_eq!(config.window_id, 0);
    assert_eq!(config.devtools, None);
    assert_eq!(config.content, Content::Blank);
    assert_eq!(config.user_agent, None);
    assert_eq!(
        config.callbacks,
        Callbacks {
            navigation_request: false,
            title_change: false,
            download_start: false,
            download_end: false,
            page_begin: true,
            page_end: true,
            window_new: false,
        }
    );
}

#[test]
fn attributes_are_passed_on() {
    let new = InnerWebView::new(
        WebViewAttributes {
            devtools: Some(true),
            background_color: Some((0x12, 0x34, 0x56, 0x78)),
            transparent: true,
            autoplay: true,
            javascript_disabled: true,
            user_agent: Some("agent".to_string()),
            handlers: Handlers { navigation: true, download_completed: true, ..NO_HANDLERS },
            ..attributes()
        },
        PlatformSpecificWebViewAttributes { window_id: Some(42) },
        &mut Counter::starting_at(1),
    );
    let config = new.config;
    assert_eq!(config.devtools, Some(true));
    assert_eq!(config.style.background_color, Some(0x78123456));
    assert!(config.transparent && config.autoplay && !config.javascript_enabled);
    assert_eq!(config.user_agent.as_deref(), Some("agent"));
    assert_eq!(config.window_id, 42);
    assert_eq!(
        config.callbacks,
        Callbacks {
            navigation_request: true,
            title_change: false,
            download_start: false,
            download_end: true,
            page_begin: true,
            page_end: true,
            window_new: false,
        }
    );
}

#[test]
fn a_text_comes_before_an_address() {
    let mut headers = http::HeaderMap::new();
    headers.insert("x-a", http::HeaderValue::from_static("1"));
    let content = |html: Option<&str>, url: Option<&str>| {
        started(
            WebViewAttributes {
                html: html.map(str::to_string),
                url: url.map(str::to_string),
                headers: Some(headers.clone()),
                ..attributes()
            },
            false,
        )
        .config
        .content
    };
    assert_eq!(content(Some("<b>"), Some("https://a")), Content::Html("<b>".to_string()));
    assert_eq!(
        content(None, Some("https://a")),
        Content::Url { url: "https://a".to_string(), headers: Some(headers.clone()) }
    );
    assert_eq!(content(None, None), Content::Blank);
}

#[test]
fn only_a_child_with_bounds_is_placed() {
    let bounds = Rect {
        position: Position::Logical {
            x: Real { bits: 1.0f64.to_bits() },
            y: Real { bits: 2.0f64.to_bits() },
        },
        size: Size::Physical { width: 3, height: 4 },
    };
    let placed = |bounds, is_child| {
        started(WebViewAttributes { bounds, ..attributes() }, is_child).config.style.bounds
    };
    assert_eq!(placed(Some(bounds), true), Some(bounds));
    assert_eq!(placed(Some(bounds), false), None);
    assert_eq!(placed(None, true), None);
}

#[test]
fn the_empty_rectangle_is_at_zero() {
    let zero = Real { bits: 0.0f64.to_bits() };
    assert_eq!(
        Rect::default(),
        Rect {
            position: Position::Logical { x: zero, y: zero },
            size: Size::Logical { width: zero, height: zero },
        }
    );
}

#[test]
fn scripts_are_merged_line_by_line() {
    assert_eq!(merge_scripts(&vec![]), "");
    assert_eq!(merge_scripts(&vec![script("a")]), "a");
    assert_eq!(merge_scripts(&vec![script("a"), script(""), script("b")]), "a\n\nb");
    let config = started(
        WebViewAttributes {
            initialization_scripts: vec![script("a"), script("b")],
            ..attributes()
        },
        false,
    )
    .config;
    assert_eq!(config.initialization_scripts, vec!["a\nb".to_string()]);
}

#[test]
fn a_webview_without_a_name_takes_a_number() {
    let mut counter = Counter::starting_at(9);
    let mut name = |id: Option<&str>| {
        InnerWebView::new(
            WebViewAttributes { id: id.map(str::to_string), ..attributes() },
            PlatformSpecificWebViewAttributes { window_id: None },
            &mut counter,
        )
        .webview
        .id()
        .to_string()
    };
    assert_eq!(name(None), "9");
    assert_eq!(name(Some("own")), "own");
    assert_eq!(name(None), "10");
    assert_eq!(name(None), "11");
}

#[test]
fn the_counter_starts_again_behind_the_largest_number() {
    let mut counter = Counter::starting_at(u32::MAX);
    assert_eq!(counter.next(), u32::MAX);
    assert_eq!(counter.next(), 0);
    assert_eq!(counter.next(), 1);
}

#[test]
fn numbers_are_written_in_decimal() {
    for number in [0, 7, 10, 99, 100, 1234567890, u32::MAX] {
        let new = InnerWebView::new(
            WebViewAttributes { id: None, ..attributes() },
            PlatformSpecificWebViewAttributes { window_id: None },
            &mut Counter::starting_at(number),
        );
        assert_eq!(new.config.id, number.to_string());
    }
}

#[test]
fn a_webview_is_made_step_by_step() {
    let mut creation = started(
        WebViewAttributes {
            custom_protocols: vec!["one".to_string(), "two".to_string()],
            ..attributes()
        },
        false,
    )
    .creation;
    let register = |protocol: &str| CreationCall::RegisterProtocol {
        protocol: protocol.to_string(),
        webview_id: "view".to_string(),
    };
    let calls = vec![
        CreationCall::Build,
        CreationCall::AttachController {
            tag: "view".to_string(),
            object: "ipc".to_string(),
            method: "postMessage".to_string(),
        },
        register("one"),
        register("two"),
    ];
    for call in calls {
        assert_eq!(creation.next_call(), call);
        creation = creation.advance(Ok(())).unwrap();
    }
    assert_eq!(creation.next_call(), CreationCall::Done);
    assert_eq!(creation.stage(), Stage::Ready);
}

#[test]
fn a_webview_without_protocols_is_ready_once_it_is_listened_to() {
    let creation = started(attributes(), true).creation;
    assert_eq!(creation.stage(), Stage::Build);
    let creation = creation.advance(Ok(())).unwrap();
    assert_eq!(creation.stage(), Stage::AttachController);
    assert_eq!(creation.advance(Ok(())).unwrap().stage(), Stage::Ready);
}

#[test]
fn a_failure_while_making_a_webview_is_reported() {
    let why = || Err("why".to_string());
    let creation = started(attributes(), false).creation;
    assert_eq!(
        creation.advance(why()).unwrap_err(),
        Error::OpenHarmonyInitError("why".to_string())
    );
    let creation = started(attributes(), false).creation.advance(Ok(())).unwrap();
    assert_eq!(
        creation.advance(why()).unwrap_err(),
        Error::OpenHarmonyWebviewError(
            "Failed to add controller attach listener: why".to_string()
        )
    );
}
