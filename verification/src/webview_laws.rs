use vstd::prelude::*;

use crate::attributes::{name_of, successor};
use crate::cookies::CookieView;
use crate::creation::Stage;
use crate::error::{Error, ErrorView};
use crate::geometry::Rect;
use crate::operation::{Failure, Operation, WebviewCall};
use crate::text::lemma_decimal_injective;
use crate::webview::{
    asks_cookies, destination, known_address, store_error, stores, PageLoadEvent, WebviewState,
};

verus! {

/// What can happen to a webview.
pub enum WebviewEvent {
    /// A page begins or has ended (`on_page_begin`, `on_page_end`).
    Page(PageLoadEvent),
    /// The platform was told to put the webview somewhere, and did or refused
    /// (`record_bounds`).
    Bounds { bounds: Rect, succeeded: bool },
    /// The webview was asked to go (`dispose_child`, `on_drop`).
    Go,
}

impl WebviewState {
    /// The webview after `event`.
    pub open spec fn after(self, event: WebviewEvent) -> Self {
        match event {
            WebviewEvent::Page(page) => self.after_page(page),
            WebviewEvent::Bounds { bounds, succeeded } => self.after_set_bounds(bounds, succeeded),
            WebviewEvent::Go => self.after_dispose(),
        }
    }

    /// The webview after all of `events`.
    pub open spec fn after_all(self, events: Seq<WebviewEvent>) -> Self
        decreases events.len(),
    {
        if events.len() == 0 {
            self
        } else {
            self.after_all(events.drop_last()).after(events.last())
        }
    }

    /// How often the platform is told to take the webview down in the course of
    /// `events`.
    pub open spec fn disposals(self, events: Seq<WebviewEvent>) -> nat
        decreases events.len(),
    {
        if events.len() == 0 {
            0
        } else {
            let before = self.after_all(events.drop_last());
            let now: nat = if events.last() is Go && before.owes_disposal() {
                1
            } else {
                0
            };
            self.disposals(events.drop_last()) + now
        }
    }
}

/// Whether `event` puts the webview somewhere.
pub open spec fn moves(event: WebviewEvent) -> bool {
    event matches WebviewEvent::Bounds { succeeded, .. } && succeeded
}

/// A webview keeps its name, its place in the window tree and its handlers, whatever
/// happens to it.
pub proof fn law_identity_is_kept(webview: WebviewState, events: Seq<WebviewEvent>)
    ensures
        webview.after_all(events).id == webview.id,
        webview.after_all(events).is_child == webview.is_child,
        webview.after_all(events).handlers == webview.handlers,
    decreases events.len(),
{
    if events.len() > 0 {
        law_identity_is_kept(webview, events.drop_last());
    }
}

/// A page is printed only between its end and the beginning of the next one: the
/// webview counts as loaded where the last news of a page, at `last`, was its end.
/// Without news of a page (`last` is -1) nothing changes.
pub proof fn law_loaded_since_last_page_end(
    webview: WebviewState,
    events: Seq<WebviewEvent>,
    last: int,
)
    requires
        -1 <= last < events.len(),
        last >= 0 ==> events[last] is Page,
        forall|i: int| last < i < events.len() ==> !(#[trigger] events[i] is Page),
    ensures
        webview.after_all(events).page_loaded == if last >= 0 {
            events[last] == WebviewEvent::Page(PageLoadEvent::Finished)
        } else {
            webview.page_loaded
        },
    decreases events.len(),
{
    if events.len() > 0 && last < events.len() - 1 {
        assert(!(events[events.len() - 1] is Page));
        law_loaded_since_last_page_end(webview, events.drop_last(), last);
    }
}

/// A webview is where it was last put with success, at `last`. Where the platform
/// refused, or nobody moved it (`last` is -1), it is where it was.
pub proof fn law_bounds_are_the_last_accepted(
    webview: WebviewState,
    events: Seq<WebviewEvent>,
    last: int,
)
    requires
        -1 <= last < events.len(),
        last >= 0 ==> moves(events[last]),
        forall|i: int| last < i < events.len() ==> !moves(#[trigger] events[i]),
    ensures
        webview.after_all(events).bounds == if last >= 0 {
            events[last]->bounds
        } else {
            webview.bounds
        },
    decreases events.len(),
{
    if events.len() > 0 && last < events.len() - 1 {
        assert(!moves(events[events.len() - 1]));
        law_bounds_are_the_last_accepted(webview, events.drop_last(), last);
    }
}

/// A child webview is taken down once, however often it is asked to go, and only if
/// it is asked; a webview that is no child never is.
pub proof fn law_disposed_once(webview: WebviewState, events: Seq<WebviewEvent>)
    ensures
        webview.disposals(events) == if webview.is_child && !webview.disposed && exists|i: int|
            0 <= i < events.len() && #[trigger] events[i] is Go {
            1nat
        } else {
            0nat
        },
        webview.after_all(events).disposed <==> webview.disposed || webview.disposals(events) == 1,
    decreases events.len(),
{
    if events.len() > 0 {
        let earlier = events.drop_last();
        law_disposed_once(webview, earlier);
        law_identity_is_kept(webview, earlier);
        if exists|i: int| 0 <= i < earlier.len() && #[trigger] earlier[i] is Go {
            let i = choose|i: int| 0 <= i < earlier.len() && #[trigger] earlier[i] is Go;
            assert(events[i] is Go);
        } else if events.last() is Go {
            assert(events[events.len() - 1] is Go);
        } else {
            assert forall|i: int| 0 <= i < events.len() implies !(#[trigger] events[i] is Go) by {
                if i < earlier.len() {
                    assert(!(earlier[i] is Go));
                }
            }
        }
    }
}

/// Where a cookie names a domain, the page that is shown makes no difference to where
/// it is stored; without a domain, and without a page, it is stored nowhere.
pub proof fn law_domain_decides_where_a_cookie_goes(
    cookie: CookieView,
    page: Result<String, String>,
    other: Result<String, String>,
)
    ensures
        cookie.address() is Some ==> destination(cookie, page) == destination(cookie, other)
            && destination(cookie, page) is Some,
        cookie.address() is None && known_address(page) is None ==> destination(cookie, page)
            is None,
{
}

/// Storing a cookie fails exactly where there is an address to store it for and the
/// platform refuses; the caller is then told the platform's reason. A cookie that is
/// stored nowhere is no failure, and neither is a page that cannot tell its address.
pub proof fn law_storing_fails_only_where_refused(
    cookie: CookieView,
    page: Result<String, String>,
    reply: Result<(), String>,
)
    ensures
        store_error(cookie, page, reply) is Some <==> destination(cookie, page) is Some && reply
            is Err,
        store_error(cookie, page, reply) matches Some(error) ==> error
            == ErrorView::OpenHarmonyWebviewError("Failed to set cookie: "@ + reply->Err_0@),
        cookie.address() is None && page is Err ==> store_error(cookie, page, reply) is None,
{
}

/// Where a failure is reported behind `heading`, and only there, the caller gets
/// `heading` and behind it the platform's reason; a failure that is not reported leaves
/// the reason out. `error` is what `Failure::describe` returns.
pub proof fn law_reason_is_told_behind_its_heading(
    failure: Failure,
    heading: Seq<char>,
    reason: Seq<char>,
    error: Error,
)
    requires
        error@ == failure.error(reason),
    ensures
        failure.reports(heading) <==> failure is Reported && failure->Reported_0@ == heading,
        failure.reports(heading) ==> error is OpenHarmonyWebviewError
            && error->OpenHarmonyWebviewError_0@ == heading + reason,
        failure is NotMainThread ==> error is NotMainThread,
{
}

/// What an error says is its kind and its text.
pub proof fn law_error_says_its_kind_and_text(error: Error, text: Seq<char>)
    ensures
        error@ == ErrorView::OpenHarmonyInitError(text) <==> error is OpenHarmonyInitError
            && error->OpenHarmonyInitError_0@ == text,
        error@ == ErrorView::OpenHarmonyWebviewError(text) <==> error is OpenHarmonyWebviewError
            && error->OpenHarmonyWebviewError_0@ == text,
        error@ == ErrorView::NotMainThread <==> error is NotMainThread,
{
}

/// An operation that stores a cookie hands the platform that address and that value, and
/// one that asks for cookies hands it that address. Where the platform refuses, each says
/// which of the two it was.
pub proof fn law_cookie_operations_hand_on_their_arguments(
    operation: Operation<WebviewCall>,
    url: Seq<char>,
    value: Seq<char>,
)
    ensures
        stores(operation, url, value) <==> {
            &&& operation.call is SetCookie
            &&& operation.call->SetCookie_url@ == url
            &&& operation.call->SetCookie_value@ == value
            &&& operation.failure is Reported
            &&& operation.failure->Reported_0@ == "Failed to set cookie: "@
        },
        asks_cookies(operation, url) <==> {
            &&& operation.call is CookiesWithUrl
            &&& operation.call->CookiesWithUrl_0@ == url
            &&& operation.failure is Reported
            &&& operation.failure->Reported_0@ == "Failed to get cookies: "@
        },
{
}

/// The stage that the making of a webview has reached after `steps` good answers of
/// the platform.
pub open spec fn stage_after(steps: nat, protocols: nat) -> Stage
    decreases steps,
{
    if steps == 0 {
        Stage::Build
    } else {
        stage_after((steps - 1) as nat, protocols).after(protocols)
    }
}

/// A webview is built first, then listened to, then gets each protocol once and in
/// turn. It is ready after that, and not before.
pub proof fn law_creation_order(steps: nat, protocols: nat)
    requires
        protocols <= usize::MAX,
    ensures
        stage_after(steps, protocols) == if steps == 0 {
            Stage::Build
        } else if steps == 1 {
            Stage::AttachController
        } else if steps - 2 < protocols {
            Stage::RegisterProtocol((steps - 2) as usize)
        } else {
            Stage::Ready
        },
    decreases steps,
{
    if steps > 0 {
        law_creation_order((steps - 1) as nat, protocols);
    }
}

/// The number that a counter at `first` hands out after `turns` others.
pub open spec fn number_at(first: u32, turns: nat) -> u32
    decreases turns,
{
    if turns == 0 {
        first
    } else {
        successor(number_at(first, (turns - 1) as nat))
    }
}

proof fn lemma_number_at(first: u32, turns: nat)
    ensures
        number_at(first, turns) == (first + turns) % 0x1_0000_0000,
    decreases turns,
{
    if turns > 0 {
        lemma_number_at(first, (turns - 1) as nat);
    }
}

/// No two webviews without a name of their own get the same one, as long as no more
/// of them are made than there are numbers.
pub proof fn law_given_names_are_distinct(first: u32, earlier: nat, later: nat)
    requires
        earlier < later < earlier + 0x1_0000_0000,
    ensures
        name_of(None, number_at(first, earlier)) != name_of(None, number_at(first, later)),
{
    lemma_number_at(first, earlier);
    lemma_number_at(first, later);
    let a = number_at(first, earlier);
    let b = number_at(first, later);
    assert(a != b);
    if name_of(None, a) == name_of(None, b) {
        lemma_decimal_injective(a as nat, b as nat);
    }
}

} // verus!
