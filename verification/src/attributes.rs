use vstd::prelude::*;
use vstd::string::*;

use crate::color::{argb, RGBA};
use crate::geometry::Rect;
use crate::text::{decimal, decimal_text, joined, lemma_joined_push};

verus! {

/// A script that runs before the page's own.
#[derive(Debug)]
pub struct InitializationScript {
    pub script: String,
    pub for_main_frame_only: bool,
}

/// Which handlers the application has set.
#[derive(Debug, Clone, Copy, PartialEq, Eq, Structural)]
pub struct Handlers {
    pub ipc: bool,
    pub navigation: bool,
    pub document_title_changed: bool,
    pub download_started: bool,
    pub download_completed: bool,
    pub page_load: bool,
    pub new_window: bool,
}

/// What the application asks of a new webview.
#[derive(Debug)]
pub struct WebViewAttributes {
    pub id: Option<String>,
    pub url: Option<String>,
    pub html: Option<String>,
    pub headers: Option<http::HeaderMap>,
    pub initialization_scripts: Vec<InitializationScript>,
    pub custom_protocols: Vec<String>,
    /// Absent where the application is built without developer tools.
    pub devtools: Option<bool>,
    pub background_color: Option<RGBA>,
    pub transparent: bool,
    pub autoplay: bool,
    pub javascript_disabled: bool,
    pub user_agent: Option<String>,
    pub bounds: Option<Rect>,
    pub handlers: Handlers,
}

/// What the application asks of a new webview on this platform only.
#[derive(Debug, Clone, Copy)]
pub struct PlatformSpecificWebViewAttributes {
    pub window_id: Option<i64>,
}

/// What the webview shows first.
#[derive(Debug, PartialEq)]
pub enum Content {
    Html(String),
    Url { url: String, headers: Option<http::HeaderMap> },
    Blank,
}

/// How the webview lies on the screen. Its visibility is left to the platform.
#[derive(Debug, Clone, Copy)]
pub struct Style {
    pub bounds: Option<Rect>,
    pub visible: Option<bool>,
    pub background_color: Option<u32>,
}

/// Which events the platform reports.
#[derive(Debug, Clone, Copy, PartialEq, Eq, Structural)]
pub struct Callbacks {
    pub navigation_request: bool,
    pub title_change: bool,
    pub download_start: bool,
    pub download_end: bool,
    pub page_begin: bool,
    pub page_end: bool,
    pub window_new: bool,
}

/// What the platform is told to build.
#[derive(Debug)]
pub struct WebViewConfig {
    pub id: String,
    pub style: Style,
    pub javascript_enabled: bool,
    pub autoplay: bool,
    pub initialization_scripts: Vec<String>,
    pub transparent: bool,
    pub window_id: i64,
    pub devtools: Option<bool>,
    pub content: Content,
    pub user_agent: Option<String>,
    pub callbacks: Callbacks,
}

/// Hands out the numbers of webviews that have no name. Behind the largest number
/// it starts again at zero.
#[derive(Debug)]
pub struct Counter {
    next: u32,
}

impl View for Counter {
    type V = u32;

    closed spec fn view(&self) -> u32 {
        self.next
    }
}

/// The number behind `n`.
pub open spec fn successor(n: u32) -> u32 {
    if n == u32::MAX {
        0
    } else {
        (n + 1) as u32
    }
}

impl Counter {
    /// A counter whose first number is `first`.
    pub fn starting_at(first: u32) -> (counter: Counter)
        ensures
            counter@ == first,
    {
        Counter { next: first }
    }

    /// Hands out the next number.
    pub fn next(&mut self) -> (number: u32)
        ensures
            number == old(self)@,
            final(self)@ == successor(old(self)@),
            final(self)@ == (old(self)@ + 1) % 0x1_0000_0000,
    {
        let number = self.next;
        self.next = if number == u32::MAX {
            0
        } else {
            number + 1
        };
        number
    }
}

/// The name that a webview goes by: the one it was given, else the counter's number.
pub open spec fn name_of(id: Option<String>, number: u32) -> Seq<char> {
    match id {
        Some(id) => id@,
        None => decimal(number as nat),
    }
}

/// The name that a webview goes by. Only a webview without a name takes a number.
pub fn webview_name(id: Option<String>, counter: &mut Counter) -> (name: String)
    ensures
        name@ == name_of(id, old(counter)@),
        final(counter)@ == if id is Some {
            old(counter)@
        } else {
            successor(old(counter)@)
        },
        id matches Some(given) ==> name@ == given@ && final(counter)@ == old(counter)@,
        id is None ==> final(counter)@ == (old(counter)@ + 1) % 0x1_0000_0000,
{
    match id {
        Some(id) => id,
        None => decimal_text(counter.next()),
    }
}

/// The texts of `scripts`.
pub open spec fn script_texts(scripts: Seq<InitializationScript>) -> Seq<Seq<char>> {
    scripts.map_values(|script: InitializationScript| script.script@)
}

/// All scripts as one, a line break between two of them.
pub fn merge_scripts(scripts: &Vec<InitializationScript>) -> (merged: String)
    ensures
        merged@ == joined(script_texts(scripts@), "\n"@),
        scripts@.len() == 0 ==> merged@.len() == 0,
        scripts@.len() == 1 ==> merged@ == scripts@[0].script@,
{
    let ghost texts = script_texts(scripts@);
    let mut merged = String::new();
    let mut done: usize = 0;
    assert(texts.take(0) == Seq::<Seq<char>>::empty());
    while done < scripts.len()
        invariant
            done <= scripts@.len(),
            texts == script_texts(scripts@),
            merged@ == joined(texts.take(done as int), "\n"@),
        decreases scripts@.len() - done,
    {
        let ghost before = texts.take(done as int);
        if done > 0 {
            merged.append("\n");
        }
        merged.append(scripts[done].script.as_str());
        proof {
            assert(texts.take(done + 1) == before.push(texts[done as int]));
            if done > 0 {
                lemma_joined_push(before, texts[done as int], "\n"@);
            }
        }
        done = done + 1;
    }
    assert(texts.take(done as int) == texts);
    merged
}

/// Whether `config` is what `attributes` and `window_id` ask for, in a webview
/// called `name`:
/// - a child webview that was given bounds is placed, any other is not;
/// - a text to show comes before an address, and headers go with an address only;
/// - the scripts run as one;
/// - page loads are always reported, other events where they have a handler.
pub open spec fn is_configured(
    config: WebViewConfig,
    attributes: WebViewAttributes,
    window_id: Option<i64>,
    is_child: bool,
    name: Seq<char>,
) -> bool {
    &&& config.id@ == name
    &&& config.style.bounds == if is_child {
        attributes.bounds
    } else {
        None
    }
    &&& config.style.visible is None
    &&& match attributes.background_color {
        Some(color) => config.style.background_color matches Some(number) && number == argb(color),
        None => config.style.background_color is None,
    }
    &&& config.javascript_enabled == !attributes.javascript_disabled
    &&& config.autoplay == attributes.autoplay
    &&& config.initialization_scripts@.len() == 1
    &&& config.initialization_scripts@[0]@ == joined(
        script_texts(attributes.initialization_scripts@),
        "\n"@,
    )
    &&& config.transparent == attributes.transparent
    &&& config.window_id == match window_id {
        Some(window_id) => window_id,
        None => 0,
    }
    &&& config.devtools == attributes.devtools
    &&& config.content == match (attributes.html, attributes.url) {
        (Some(html), _) => Content::Html(html),
        (None, Some(url)) => Content::Url { url, headers: attributes.headers },
        (None, None) => Content::Blank,
    }
    &&& config.user_agent == attributes.user_agent
    &&& config.callbacks == callbacks_for(attributes.handlers)
}

/// The events to report for the handlers that are set.
pub open spec fn callbacks_for(handlers: Handlers) -> Callbacks {
    Callbacks {
        navigation_request: handlers.navigation,
        title_change: handlers.document_title_changed,
        download_start: handlers.download_started,
        download_end: handlers.download_completed,
        page_begin: true,
        page_end: true,
        window_new: handlers.new_window,
    }
}

/// The first thing to show: a text before an address, and headers with an address.
pub fn first_content(
    html: Option<String>,
    url: Option<String>,
    headers: Option<http::HeaderMap>,
) -> (content: Content)
    ensures
        content == match (html, url) {
            (Some(html), _) => Content::Html(html),
            (None, Some(url)) => Content::Url { url, headers },
            (None, None) => Content::Blank,
        },
{
    match html {
        Some(html) => Content::Html(html),
        None => match url {
            Some(url) => Content::Url { url, headers },
            None => Content::Blank,
        },
    }
}

} // verus!
