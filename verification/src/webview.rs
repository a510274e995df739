use vstd::prelude::*;

use crate::attributes::Handlers;
use crate::color::{argb, argb_number, RGBA};
use crate::cookies::{
    cookie_address, format_set_cookie_value, header_cookies, parse_cookie_header, views, Cookie,
    CookieView,
};
use crate::error::{Error, ErrorView};
use crate::geometry::{Position, Real, Rect, Size};
use crate::operation::{CreatePdf, EvaluateScript, Failure, Operation, Step, WebviewCall};

verus! {

/// A webview, seen from the application: what is known of it without asking the
/// platform. Where the platform has to be asked, a method says which call to make
/// on it, and what to make of the outcome.
#[derive(Debug)]
pub struct InnerWebView {
    id: String,
    page_loaded: bool,
    bounds_cache: Rect,
    is_child: bool,
    disposed: bool,
    handlers: Handlers,
}

/// What is known of a webview.
#[verifier::ext_equal]
pub struct WebviewState {
    /// The name that it goes by.
    pub id: Seq<char>,
    /// Whether the last page to begin has ended.
    pub page_loaded: bool,
    /// Where it was last put.
    pub bounds: Rect,
    /// Whether it lies inside another webview's window.
    pub is_child: bool,
    /// Whether it was taken down.
    pub disposed: bool,
    /// The handlers that the application has set.
    pub handlers: Handlers,
}

impl View for InnerWebView {
    type V = WebviewState;

    closed spec fn view(&self) -> WebviewState {
        WebviewState {
            id: self.id@,
            page_loaded: self.page_loaded,
            bounds: self.bounds_cache,
            is_child: self.is_child,
            disposed: self.disposed,
            handlers: self.handlers,
        }
    }
}

/// What a page does.
#[derive(Debug, Clone, Copy, PartialEq, Eq, Structural)]
pub enum PageLoadEvent {
    Started,
    Finished,
}

impl WebviewState {
    /// A webview that was just made.
    pub open spec fn fresh(id: Seq<char>, bounds: Rect, is_child: bool, handlers: Handlers) -> Self {
        WebviewState { id, page_loaded: false, bounds, is_child, disposed: false, handlers }
    }

    /// The webview after a page began or ended.
    pub open spec fn after_page(self, event: PageLoadEvent) -> Self {
        WebviewState { page_loaded: event == PageLoadEvent::Finished, ..self }
    }

    /// The webview after the platform was told to put it at `bounds`.
    pub open spec fn after_set_bounds(self, bounds: Rect, succeeded: bool) -> Self {
        if succeeded {
            WebviewState { bounds, ..self }
        } else {
            self
        }
    }

    /// Whether the platform still has to be told to take the webview down.
    pub open spec fn owes_disposal(self) -> bool {
        self.is_child && !self.disposed
    }

    /// The webview after it was asked to go.
    pub open spec fn after_dispose(self) -> Self {
        WebviewState { disposed: self.disposed || self.is_child, ..self }
    }
}

/// What to do to store a cookie.
#[derive(Debug)]
pub enum CookieStep {
    /// Store it.
    Store(Operation<WebviewCall>),
    /// Ask for the address of the page first.
    AskUrl { call: WebviewCall, pending: PendingCookie },
}

/// A cookie that waits for the address to store it for.
#[derive(Debug)]
pub struct PendingCookie {
    /// The `Set-Cookie` value.
    pub value: String,
}

/// What to do to print a page to a file.
pub enum PdfStep<C, F> {
    /// Nothing: `callback` is told `success`, and the caller gets `error`.
    Refused { callback: F, success: bool, error: Error },
    /// Have the platform print it.
    Create(Operation<CreatePdf<C, F>>),
}

/// Whether `operation` stores `value` for `url`.
pub open spec fn stores(operation: Operation<WebviewCall>, url: Seq<char>, value: Seq<char>) -> bool {
    &&& operation.call matches WebviewCall::SetCookie { url: target, value: stored }
    &&& target@ == url
    &&& stored@ == value
    &&& operation.failure.reports("Failed to set cookie: "@)
}

/// Whether `operation` asks for the cookies that go to `url`.
pub open spec fn asks_cookies(operation: Operation<WebviewCall>, url: Seq<char>) -> bool {
    &&& operation.call matches WebviewCall::CookiesWithUrl(target)
    &&& target@ == url
    &&& operation.failure.reports("Failed to get cookies: "@)
}

/// The address that a reply gives, where it gives one that is not empty.
pub open spec fn known_address(reply: Result<String, String>) -> Option<Seq<char>> {
    match reply {
        Ok(url) => if url@.len() > 0 {
            Some(url@)
        } else {
            None
        },
        Err(_) => None,
    }
}

/// The address that a cookie is stored for: the one that its domain names, else that
/// of the page, where the platform tells one.
pub open spec fn destination(cookie: CookieView, page: Result<String, String>) -> Option<Seq<char>> {
    match cookie.address() {
        Some(url) => Some(url),
        None => known_address(page),
    }
}

impl CookieStep {
    /// The address and the `Set-Cookie` value that the platform is told to store in
    /// the end, where it answers `page` if it is asked for the address of the page.
    pub open spec fn stored(self, page: Result<String, String>) -> Option<(Seq<char>, Seq<char>)> {
        match self {
            CookieStep::Store(operation) => match operation.call {
                WebviewCall::SetCookie { url, value } => Some((url@, value@)),
                _ => None,
            },
            CookieStep::AskUrl { pending, .. } => match known_address(page) {
                Some(url) => Some((url, pending.value@)),
                None => None,
            },
        }
    }

    /// The error that the caller gets in the end, if any, where the platform answers
    /// `page` if it is asked for the address of the page, and `reply` if it is told to
    /// store the cookie.
    pub open spec fn error(
        self,
        page: Result<String, String>,
        reply: Result<(), String>,
    ) -> Option<ErrorView> {
        match (self.stored(page), reply) {
            (Some(_), Err(reason)) => Some(
                match self {
                    CookieStep::Store(operation) => operation.failure.error(reason@),
                    CookieStep::AskUrl { .. } => refusal(reason@),
                },
            ),
            _ => None,
        }
    }
}

/// The error where the platform refuses to store a cookie for `reason`.
pub open spec fn refusal(reason: Seq<char>) -> ErrorView {
    ErrorView::OpenHarmonyWebviewError("Failed to set cookie: "@ + reason)
}

/// The error that storing a cookie ends in, if any: there is one where the cookie has
/// an address to be stored for and the platform refuses, and in no other case.
pub open spec fn store_error(
    cookie: CookieView,
    page: Result<String, String>,
    reply: Result<(), String>,
) -> Option<ErrorView> {
    match (destination(cookie, page), reply) {
        (Some(_), Err(reason)) => Some(refusal(reason@)),
        _ => None,
    }
}

fn operation(call: WebviewCall, heading: &'static str) -> (operation: Operation<WebviewCall>)
    ensures
        operation.call == call,
        operation.failure.reports(heading@),
{
    Operation { call, failure: Failure::Reported(heading) }
}

fn store_cookie(url: String, value: String) -> (operation: Operation<WebviewCall>)
    ensures
        stores(operation, url@, value@),
{
    operation(WebviewCall::SetCookie { url, value }, "Failed to set cookie: ")
}

impl PendingCookie {
    /// Goes on with the platform's answer to the question for the address of the
    /// page. Without an address nothing is stored, and that is no failure.
    pub fn resume(self, reply: Result<String, String>) -> (next: Step<()>)
        ensures
            match known_address(reply) {
                Some(url) => next matches Step::Ask(asked) && stores(asked, url, self.value@),
                None => next matches Step::Done(outcome) && outcome == Ok::<(), Error>(()),
            },
            (reply matches Ok(url) && url@.len() > 0) ==> (next matches Step::Ask(asked)
                && asked.call matches WebviewCall::SetCookie { url: target, value }
                && target@ == reply->Ok_0@ && value@ == self.value@),
            !(reply matches Ok(url) && url@.len() > 0) ==> next == Step::Done::<()>(Ok(())),
    {
        match reply {
            Ok(url) => if url.as_str().is_empty() {
                Step::Done(Ok(()))
            } else {
                Step::Ask(store_cookie(url, self.value))
            },
            Err(_) => Step::Done(Ok(())),
        }
    }
}

impl InnerWebView {
    /// A webview that was just made.
    pub(crate) fn fresh(id: String, bounds: Rect, is_child: bool, handlers: Handlers) -> (webview: Self)
        ensures
            webview@ == WebviewState::fresh(id@, bounds, is_child, handlers),
    {
        InnerWebView {
            id,
            page_loaded: false,
            bounds_cache: bounds,
            is_child,
            disposed: false,
            handlers,
        }
    }

    /// Printing is not offered: it does nothing, and succeeds.
    pub fn print(&self) -> (outcome: Result<(), Error>)
        ensures
            outcome == Ok::<(), Error>(()),
    {
        Ok(())
    }

    /// The name that the webview goes by.
    pub fn id(&self) -> (id: &str)
        ensures
            id@ == self@.id,
    {
        self.id.as_str()
    }

    /// Asks for the address of the page.
    pub fn url(&self) -> (asked: Operation<WebviewCall>)
        ensures
            asked.call is Url,
            asked.failure.reports("Failed to get url: "@),
    {
        operation(WebviewCall::Url, "Failed to get url: ")
    }

    /// Runs a script, and hands its result to `callback`.
    pub fn eval<C>(&self, js: &str, callback: Option<C>) -> (asked: Operation<EvaluateScript<C>>)
        ensures
            asked.call.js@ == js@,
            asked.call.callback == callback,
            asked.failure.reports("Failed to evaluate script: "@),
    {
        Operation {
            call: EvaluateScript { js: js.to_string(), callback },
            failure: Failure::Reported("Failed to evaluate script: "),
        }
    }

    /// Lets developer tools in, to all webviews of the process. Whether the call
    /// succeeds makes no difference to the caller.
    pub fn open_devtools(&self) -> (call: WebviewCall)
        ensures
            call == WebviewCall::SetWebDebuggingAccess(true),
    {
        WebviewCall::SetWebDebuggingAccess(true)
    }

    /// Shuts developer tools out of all webviews of the process. Whether the call
    /// succeeds makes no difference to the caller.
    pub fn close_devtools(&self) -> (call: WebviewCall)
        ensures
            call == WebviewCall::SetWebDebuggingAccess(false),
    {
        WebviewCall::SetWebDebuggingAccess(false)
    }

    /// The call that `is_devtools_open` goes by.
    pub fn ask_devtools_open(&self) -> (call: WebviewCall)
        ensures
            call is IsWebDebuggingAccess,
    {
        WebviewCall::IsWebDebuggingAccess
    }

    /// Whether developer tools are let in. They are not where the platform cannot
    /// tell.
    pub fn is_devtools_open(&self, reply: Result<bool, String>) -> (open: bool)
        ensures
            open <==> reply == Ok::<bool, String>(true),
    {
        match reply {
            Ok(open) => open,
            Err(_) => false,
        }
    }

    /// Scales the page.
    pub fn zoom(&self, scale_factor: Real) -> (asked: Operation<WebviewCall>)
        ensures
            asked.call == WebviewCall::SetZoom(scale_factor),
            asked.failure.reports("Failed to set zoom: "@),
    {
        operation(WebviewCall::SetZoom(scale_factor), "Failed to set zoom: ")
    }

    /// Paints the background.
    pub fn set_background_color(&self, background_color: RGBA) -> (asked: Operation<WebviewCall>)
        ensures
            asked.call matches WebviewCall::SetBackgroundColor(number) && number == argb(
                background_color,
            ),
            asked.failure.reports("Failed to set background color: "@),
    {
        operation(
            WebviewCall::SetBackgroundColor(argb_number(background_color)),
            "Failed to set background color: ",
        )
    }

    /// The call that `cookies` starts with. The platform cannot list the cookies of
    /// all addresses, so those of the page's address stand for them.
    pub fn cookies(&self) -> (call: WebviewCall)
        ensures
            call is Url,
    {
        WebviewCall::Url
    }

    /// Goes on with the platform's answer to the question for the address of the
    /// page. Without an address there are no cookies, and that is no failure.
    /// `read_cookies` reads the answer where the platform is asked.
    pub fn cookies_at(&self, reply: Result<String, String>) -> (next: Step<Vec<Cookie>>)
        ensures
            match known_address(reply) {
                Some(url) => next matches Step::Ask(asked) && asks_cookies(asked, url),
                None => next matches Step::Done(Ok(cookies)) && cookies@.len() == 0,
            },
            (reply matches Ok(url) && url@.len() > 0) ==> (next matches Step::Ask(asked)
                && asked.call matches WebviewCall::CookiesWithUrl(target) && target@
                == reply->Ok_0@),
            !(reply matches Ok(url) && url@.len() > 0) ==> (next matches Step::Done(Ok(cookies))
                && cookies@.len() == 0),
    {
        match reply {
            Ok(url) => if url.as_str().is_empty() {
                Step::Done(Ok(Vec::new()))
            } else {
                Step::Ask(self.cookies_for_url(url.as_str()))
            },
            Err(_) => Step::Done(Ok(Vec::new())),
        }
    }

    /// Asks for the cookies that go to `url`. `read_cookies` reads the answer.
    pub fn cookies_for_url(&self, url: &str) -> (asked: Operation<WebviewCall>)
        ensures
            asks_cookies(asked, url@),
    {
        operation(WebviewCall::CookiesWithUrl(url.to_string()), "Failed to get cookies: ")
    }

    /// The cookies in the platform's answer to `cookies_for_url`.
    pub fn read_cookies(&self, reply: Result<String, String>) -> (outcome: Result<Vec<Cookie>, Error>)
        ensures
            match reply {
                Ok(header) => outcome matches Ok(cookies) && views(cookies@) == header_cookies(
                    header@,
                ),
                Err(reason) => outcome matches Err(error) && error@
                    == ErrorView::OpenHarmonyWebviewError("Failed to get cookies: "@ + reason@),
            },
    {
        match reply {
            Ok(header) => Ok(parse_cookie_header(header.as_str())),
            Err(reason) => Err(Failure::Reported("Failed to get cookies: ").describe(reason)),
        }
    }

    /// Stores a cookie for the address that its domain names, or else for that of
    /// the page.
    pub fn set_cookie(&self, cookie: &Cookie) -> (step: CookieStep)
        ensures
            match cookie@.address() {
                Some(url) => step matches CookieStep::Store(asked) && stores(
                    asked,
                    url,
                    cookie@.set_cookie_value(),
                ),
                None => step matches CookieStep::AskUrl { call, pending } && call is Url
                    && pending.value@ == cookie@.set_cookie_value(),
            },
            forall|page: Result<String, String>| #[trigger]
                step.stored(page) == match destination(cookie@, page) {
                    Some(url) => Some((url, cookie@.set_cookie_value())),
                    None => None,
                },
            forall|page: Result<String, String>, reply: Result<(), String>| #[trigger]
                step.error(page, reply) == store_error(cookie@, page, reply),
    {
        let value = format_set_cookie_value(cookie);
        match cookie_address(cookie) {
            Some(url) => CookieStep::Store(store_cookie(url, value)),
            None => CookieStep::AskUrl { call: WebviewCall::Url, pending: PendingCookie { value } },
        }
    }

    /// The platform cannot delete one cookie, and to delete them all would be wrong:
    /// this does nothing, and succeeds.
    pub fn delete_cookie(&self, _cookie: &Cookie) -> (outcome: Result<(), Error>)
        ensures
            outcome == Ok::<(), Error>(()),
    {
        Ok(())
    }

    /// Loads the page again.
    pub fn reload(&self) -> (asked: Operation<WebviewCall>)
        ensures
            asked.call is Reload,
            asked.failure.reports("Failed to reload: "@),
    {
        operation(WebviewCall::Reload, "Failed to reload: ")
    }

    /// Loads an address.
    pub fn load_url(&self, url: &str) -> (asked: Operation<WebviewCall>)
        ensures
            asked.call matches WebviewCall::LoadUrl(target) && target@ == url@,
            asked.failure.reports("Failed to load url: "@),
    {
        operation(WebviewCall::LoadUrl(url.to_string()), "Failed to load url: ")
    }

    /// Loads an address with headers.
    pub fn load_url_with_headers(&self, url: &str, headers: http::HeaderMap) -> (asked:
        Operation<WebviewCall>)
        ensures
            asked.call matches WebviewCall::LoadUrlWithHeaders { url: target, headers: sent }
                && target@ == url@ && sent == headers,
            asked.failure.reports("Failed to load url with headers: "@),
    {
        operation(
            WebviewCall::LoadUrlWithHeaders { url: url.to_string(), headers },
            "Failed to load url with headers: ",
        )
    }

    /// Shows a text as a page.
    pub fn load_html(&self, html: &str) -> (asked: Operation<WebviewCall>)
        ensures
            asked.call matches WebviewCall::LoadHtml(shown) && shown@ == html@,
            asked.failure.reports("Failed to load html: "@),
    {
        operation(WebviewCall::LoadHtml(html.to_string()), "Failed to load html: ")
    }

    /// Forgets cookies, caches and stored data.
    pub fn clear_all_browsing_data(&self) -> (asked: Operation<WebviewCall>)
        ensures
            asked.call is ClearAllBrowsingData,
            asked.failure.reports("Failed to clear all browsing data: "@),
    {
        operation(WebviewCall::ClearAllBrowsingData, "Failed to clear all browsing data: ")
    }

    /// Prints the page to a file. While a page is loading, `callback` is told that
    /// it failed, and the platform is not asked.
    pub fn create_pdf<C, F>(&self, path: &str, config: Option<C>, callback: F) -> (step:
        PdfStep<C, F>)
        ensures
            if self@.page_loaded {
                &&& step matches PdfStep::Create(asked)
                &&& asked.call.path@ == path@
                &&& asked.call.config == config
                &&& asked.call.callback == callback
                &&& asked.failure.reports("Failed to create PDF: "@)
            } else {
                &&& step matches PdfStep::Refused { callback: told, success, error }
                &&& told == callback
                &&& !success
                &&& error@ == ErrorView::OpenHarmonyWebviewError(
                    "Page not fully loaded. Call createPdf after onPageEnd."@,
                )
            },
    {
        if self.page_loaded {
            PdfStep::Create(
                Operation {
                    call: CreatePdf { path: path.to_string(), config, callback },
                    failure: Failure::Reported("Failed to create PDF: "),
                },
            )
        } else {
            PdfStep::Refused {
                callback,
                success: false,
                error: Error::OpenHarmonyWebviewError(
                    "Page not fully loaded. Call createPdf after onPageEnd.".to_string(),
                ),
            }
        }
    }

    /// Where the webview was last put.
    pub fn bounds(&self) -> (outcome: Result<Rect, Error>)
        ensures
            outcome == Ok::<Rect, Error>(self@.bounds),
    {
        Ok(self.bounds_cache)
    }

    /// Puts the webview at `bounds`. `record_bounds` takes the outcome.
    pub fn set_bounds(&self, bounds: Rect) -> (asked: Operation<WebviewCall>)
        ensures
            asked.call == WebviewCall::SetBounds(bounds),
            asked.failure.reports("Failed to set bounds: "@),
    {
        operation(WebviewCall::SetBounds(bounds), "Failed to set bounds: ")
    }

    /// Takes the outcome of putting the webview at `bounds`. Where the platform
    /// refused, the webview is where it was.
    pub fn record_bounds(&mut self, bounds: Rect, reply: Result<(), String>) -> (outcome:
        Result<(), Error>)
        ensures
            final(self)@ == old(self)@.after_set_bounds(bounds, reply is Ok),
            match reply {
                Ok(_) => outcome == Ok::<(), Error>(()),
                Err(reason) => outcome matches Err(error) && error@
                    == ErrorView::OpenHarmonyWebviewError("Failed to set bounds: "@ + reason@),
            },
    {
        let outcome = self.set_bounds(bounds).complete(reply);
        if outcome.is_ok() {
            self.bounds_cache = bounds;
        }
        outcome
    }

    /// Shows or hides the webview, a child or not.
    pub fn set_visible(&self, visible: bool) -> (asked: Operation<WebviewCall>)
        ensures
            asked.call == WebviewCall::SetVisible(visible),
            asked.failure.reports("Failed to set visible: "@),
    {
        operation(WebviewCall::SetVisible(visible), "Failed to set visible: ")
    }

    /// Gives the webview the keyboard. The platform refuses this off the main
    /// thread, whatever reason it gives.
    pub fn focus(&self) -> (asked: Operation<WebviewCall>)
        ensures
            asked.call is Focus,
            asked.failure is NotMainThread,
    {
        Operation { call: WebviewCall::Focus, failure: Failure::NotMainThread }
    }

    /// Gives the parent window the keyboard: on this platform the webview is the
    /// content of its window, so it takes the keyboard itself.
    pub fn focus_parent(&self) -> (asked: Operation<WebviewCall>)
        ensures
            asked.call is Focus,
            asked.failure.reports("Failed to focus parent: "@),
    {
        operation(WebviewCall::Focus, "Failed to focus parent: ")
    }

    /// Takes a child webview down, once. Whether the call succeeds makes no
    /// difference to the caller.
    pub fn dispose_child(&mut self) -> (call: Option<WebviewCall>)
        ensures
            final(self)@ == old(self)@.after_dispose(),
            call == if old(self)@.owes_disposal() {
                Some(WebviewCall::Dispose)
            } else {
                None
            },
    {
        if self.is_child && !self.disposed {
            self.disposed = true;
            Some(WebviewCall::Dispose)
        } else {
            None
        }
    }

    /// What is left to do when the application lets go of the webview: a child that
    /// was not taken down is.
    pub fn on_drop(&mut self) -> (call: Option<WebviewCall>)
        ensures
            final(self)@ == old(self)@.after_dispose(),
            call == if old(self)@.owes_disposal() {
                Some(WebviewCall::Dispose)
            } else {
                None
            },
    {
        self.dispose_child()
    }

    /// Takes the news that a page begins or has ended, and says what to tell the
    /// handler for page loads, where there is one.
    fn on_page_load(&mut self, event: PageLoadEvent, url: String) -> (told:
        Option<(PageLoadEvent, String)>)
        ensures
            final(self)@ == old(self)@.after_page(event),
            told == if old(self)@.handlers.page_load {
                Some((event, url))
            } else {
                None
            },
    {
        self.page_loaded = match event {
            PageLoadEvent::Started => false,
            PageLoadEvent::Finished => true,
        };
        if self.handlers.page_load {
            Some((event, url))
        } else {
            None
        }
    }

    /// The page begins.
    pub fn on_page_begin(&mut self, url: String) -> (told: Option<(PageLoadEvent, String)>)
        ensures
            final(self)@ == old(self)@.after_page(PageLoadEvent::Started),
            told == if old(self)@.handlers.page_load {
                Some((PageLoadEvent::Started, url))
            } else {
                None
            },
    {
        self.on_page_load(PageLoadEvent::Started, url)
    }

    /// The page has ended.
    pub fn on_page_end(&mut self, url: String) -> (told: Option<(PageLoadEvent, String)>)
        ensures
            final(self)@ == old(self)@.after_page(PageLoadEvent::Finished),
            told == if old(self)@.handlers.page_load {
                Some((PageLoadEvent::Finished, url))
            } else {
                None
            },
    {
        self.on_page_load(PageLoadEvent::Finished, url)
    }

    /// Takes the news that the page posts a message. Where the application listens,
    /// the address of the page is asked for, and `ipc::ipc_request` makes a request of
    /// the answer.
    pub fn on_post_message(&self) -> (call: Option<WebviewCall>)
        ensures
            call == if self@.handlers.ipc {
                Some(WebviewCall::Url)
            } else {
                None
            },
    {
        if self.handlers.ipc {
            Some(WebviewCall::Url)
        } else {
            None
        }
    }
}

/// A page that wants a window of its own.
#[derive(Debug)]
pub struct NewWindowRequest {
    pub url: String,
    pub size: Option<Size>,
    pub position: Option<Position>,
}

/// What the application says to a page that wants a window of its own.
#[derive(Debug, Clone, Copy, PartialEq, Eq, Structural)]
pub enum NewWindowResponse {
    Allow,
    Create,
    Deny,
}

/// What the application is asked when a page wants a window of its own. The
/// platform says nothing of the window's size and place.
pub fn new_window_request(url: String) -> (request: NewWindowRequest)
    ensures
        request.url == url,
        request.size is None,
        request.position is None,
{
    NewWindowRequest { url, size: None, position: None }
}

/// Whether a page gets a window of its own. The application cannot make the window
/// on this platform: where it offers to, the platform makes it.
pub fn allows_new_window(response: NewWindowResponse) -> (allowed: bool)
    ensures
        allowed <==> response != NewWindowResponse::Deny,
{
    match response {
        NewWindowResponse::Allow => true,
        NewWindowResponse::Create => true,
        NewWindowResponse::Deny => false,
    }
}

} // verus!
