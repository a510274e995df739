use vstd::prelude::*;
use vstd::string::*;

use crate::error::{Error, ErrorView};
use crate::geometry::{Real, Rect};

verus! {

/// `http::HeaderMap`, which the library carries from the caller to the platform.
#[verifier::external_type_specification]
#[verifier::external_body]
#[verifier::reject_recursive_types(T)]
pub struct ExHeaderMap<T>(http::HeaderMap<T>);

/// `http::HeaderValue`, the content of a header map.
#[verifier::external_type_specification]
#[verifier::external_body]
pub struct ExHeaderValue(http::HeaderValue);

/// A call on the platform's webview.
#[derive(Debug, PartialEq)]
pub enum WebviewCall {
    /// Ask for the address of the page.
    Url,
    /// Switch the debugging access of all webviews on or off.
    SetWebDebuggingAccess(bool),
    /// Ask whether debugging access is on.
    IsWebDebuggingAccess,
    /// Scale the page.
    SetZoom(Real),
    /// Paint the background in a `0xAARRGGBB` colour.
    SetBackgroundColor(u32),
    /// Ask for the cookies that go to an address, as one header text.
    CookiesWithUrl(String),
    /// Store a `Set-Cookie` value for an address.
    SetCookie { url: String, value: String },
    /// Load the page again.
    Reload,
    /// Load an address.
    LoadUrl(String),
    /// Load an address with headers of the caller's.
    LoadUrlWithHeaders { url: String, headers: http::HeaderMap },
    /// Show a text as a page.
    LoadHtml(String),
    /// Forget cookies, caches and stored data.
    ClearAllBrowsingData,
    /// Move and resize the webview.
    SetBounds(Rect),
    /// Show or hide the webview.
    SetVisible(bool),
    /// Give the webview the keyboard.
    Focus,
    /// Take the webview down.
    Dispose,
}

/// A call that runs a script and hands its result to `callback`.
pub struct EvaluateScript<C> {
    pub js: String,
    pub callback: Option<C>,
}

/// A call that prints the page to a file and tells `callback` how it went.
pub struct CreatePdf<C, F> {
    pub path: String,
    pub config: Option<C>,
    pub callback: F,
}

/// What becomes of the platform's reason where a call fails.
#[derive(Debug, Clone, Copy)]
pub enum Failure {
    /// It is reported behind this text.
    Reported(&'static str),
    /// It gives way to `Error::NotMainThread`.
    NotMainThread,
}

impl Failure {
    /// The error for the platform's `reason`.
    pub open spec fn error(self, reason: Seq<char>) -> ErrorView {
        match self {
            Failure::Reported(heading) => ErrorView::OpenHarmonyWebviewError(heading@ + reason),
            Failure::NotMainThread => ErrorView::NotMainThread,
        }
    }

    /// Whether reasons are reported behind the text `heading`.
    pub open spec fn reports(self, heading: Seq<char>) -> bool {
        self matches Failure::Reported(text) && text@ == heading
    }

    /// The error for the platform's `reason`.
    pub fn describe(self, reason: String) -> (error: Error)
        ensures
            error@ == self.error(reason@),
            self matches Failure::Reported(heading) ==> (error matches
                Error::OpenHarmonyWebviewError(text) && text@ == heading@ + reason@),
            self is NotMainThread ==> error is NotMainThread,
    {
        match self {
            Failure::Reported(heading) => Error::OpenHarmonyWebviewError(
                heading.to_string().concat(reason.as_str()),
            ),
            Failure::NotMainThread => Error::NotMainThread,
        }
    }
}

/// One call on the platform's webview, with what to make of its outcome.
#[derive(Debug)]
pub struct Operation<K> {
    pub call: K,
    pub failure: Failure,
}

impl<K> Operation<K> {
    /// What the caller gets: the platform's answer, or the error for its reason.
    pub fn complete<T>(&self, reply: Result<T, String>) -> (outcome: Result<T, Error>)
        ensures
            match reply {
                Ok(answer) => outcome == Ok::<T, Error>(answer),
                Err(reason) => outcome matches Err(error) && error@ == self.failure.error(reason@),
            },
            reply is Ok <==> outcome is Ok,
            (reply is Err && self.failure is NotMainThread) ==> (outcome matches Err(
                Error::NotMainThread,
            )),
            forall|heading: &'static str|
                (reply is Err && self.failure == Failure::Reported(heading)) ==> (outcome matches
                    Err(Error::OpenHarmonyWebviewError(text)) && text@ == #[trigger] heading@
                    + reply->Err_0@),
    {
        match reply {
            Ok(answer) => Ok(answer),
            Err(reason) => Err(self.failure.describe(reason)),
        }
    }
}

/// What comes next where a request to the webview may need another call.
#[derive(Debug)]
pub enum Step<T> {
    /// The platform is to be asked.
    Ask(Operation<WebviewCall>),
    /// Nothing more is asked: this is what the caller gets.
    Done(Result<T, Error>),
}

} // verus!
