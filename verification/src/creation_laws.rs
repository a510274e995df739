use vstd::prelude::*;

use crate::attributes::{name_of, script_texts, Content, InitializationScript, WebViewAttributes};
use crate::creation::{NewWebView, Stage};
use crate::error::ErrorView;
use crate::geometry::{Position, Real, Rect, Size};
use crate::text::{decimal, digits, joined, lemma_joined_push};

verus! {

/// Where the script with the index `i` starts in the merged text: behind the scripts
/// before it, each with a line break.
pub open spec fn start_of(scripts: Seq<InitializationScript>, i: int) -> int
    decreases i,
{
    if i <= 0 {
        0
    } else {
        start_of(scripts, i - 1) + scripts[i - 1].script@.len() + 1
    }
}

proof fn lemma_start_of(scripts: Seq<InitializationScript>, longer: Seq<InitializationScript>, i: int)
    requires
        0 <= i <= scripts.len() <= longer.len(),
        forall|j: int| 0 <= j < scripts.len() ==> scripts[j] == longer[j],
    ensures
        start_of(scripts, i) == start_of(longer, i),
        start_of(scripts, i) >= 0,
    decreases i,
{
    if i > 0 {
        lemma_start_of(scripts, longer, i - 1);
    }
}

/// All scripts run, whole and in their order, with one line break between two of them
/// and nothing else: whether a script is meant for the main frame alone makes no
/// difference. `merged` is what `merge_scripts` returns.
pub proof fn law_every_script_is_merged(
    scripts: Seq<InitializationScript>,
    merged: Seq<char>,
    i: int,
)
    requires
        merged == joined(script_texts(scripts), "\n"@),
        0 <= i < scripts.len(),
    ensures
        script_texts(scripts).len() == scripts.len(),
        script_texts(scripts)[i] == scripts[i].script@,
        merged.len() + 1 == start_of(scripts, scripts.len() as int),
        0 <= start_of(scripts, i),
        start_of(scripts, i) + scripts[i].script@.len() <= merged.len(),
        merged.subrange(start_of(scripts, i), start_of(scripts, i) + scripts[i].script@.len())
            == scripts[i].script@,
        i > 0 ==> start_of(scripts, i) > 0 && merged[start_of(scripts, i) - 1] == '\n',
    decreases scripts.len(),
{
    reveal_strlit("\n");
    let count = scripts.len() as int;
    let texts = script_texts(scripts);
    let last = scripts[count - 1].script@;
    if count == 1 {
        assert(start_of(scripts, 0) == 0);
        assert(start_of(scripts, 1) == last.len() + 1);
        assert(merged == last);
        assert(merged.subrange(0, last.len() as int) == last);
    } else {
        let earlier = scripts.drop_last();
        let before = joined(script_texts(earlier), "\n"@);
        assert(texts == script_texts(earlier).push(last));
        lemma_joined_push(script_texts(earlier), last, "\n"@);
        assert(merged == before + "\n"@ + last);
        let j = if i < count - 1 {
            i
        } else {
            0
        };
        law_every_script_is_merged(earlier, before, j);
        lemma_start_of(earlier, scripts, j);
        lemma_start_of(earlier, scripts, count - 1);
        let at = start_of(scripts, i);
        if i < count - 1 {
            let text = scripts[i].script@;
            assert(merged.subrange(at, at + text.len()) == before.subrange(at, at + text.len()));
        } else {
            assert(at == before.len() + 1);
            assert(merged.subrange(at, at + last.len()) == last);
        }
    }
}

/// Without scripts the merged text is empty.
pub proof fn law_no_script_is_merged_into_nothing(
    scripts: Seq<InitializationScript>,
    merged: Seq<char>,
)
    requires
        merged == joined(script_texts(scripts), "\n"@),
        scripts.len() == 0,
    ensures
        merged.len() == 0,
{
}

/// The platform reports an event exactly where the application has set the handler for
/// that very event; the beginning and the end of a page it always reports.
pub proof fn law_each_event_has_its_own_handler(
    made: NewWebView,
    attributes: WebViewAttributes,
    window_id: Option<i64>,
    is_child: bool,
    name: Seq<char>,
)
    requires
        made.is_for(attributes, window_id, is_child, name),
    ensures
        made.config.callbacks.navigation_request <==> attributes.handlers.navigation,
        made.config.callbacks.title_change <==> attributes.handlers.document_title_changed,
        made.config.callbacks.download_start <==> attributes.handlers.download_started,
        made.config.callbacks.download_end <==> attributes.handlers.download_completed,
        made.config.callbacks.window_new <==> attributes.handlers.new_window,
        made.config.callbacks.page_begin,
        made.config.callbacks.page_end,
        made.webview@.handlers.ipc <==> attributes.handlers.ipc,
        made.webview@.handlers.page_load <==> attributes.handlers.page_load,
        made.webview@.handlers == attributes.handlers,
{
}

/// A webview that is about to be made is where it was asked to be, a child or not, and
/// else in the empty rectangle at the origin. The platform is told to place a child, at
/// those very bounds, and no other webview.
pub proof fn law_new_webview_is_where_it_was_asked(
    made: NewWebView,
    attributes: WebViewAttributes,
    window_id: Option<i64>,
    is_child: bool,
    name: Seq<char>,
)
    requires
        made.is_for(attributes, window_id, is_child, name),
    ensures
        attributes.bounds matches Some(bounds) ==> made.webview@.bounds == bounds,
        attributes.bounds is None ==> made.webview@.bounds == (Rect {
            position: Position::Logical { x: Real { bits: 0 }, y: Real { bits: 0 } },
            size: Size::Logical { width: Real { bits: 0 }, height: Real { bits: 0 } },
        }),
        made.config.style.bounds is Some <==> is_child && attributes.bounds is Some,
        made.config.style.bounds matches Some(bounds) ==> {
            &&& attributes.bounds == Some(bounds)
            &&& made.webview@.bounds == bounds
        },
{
}

/// A webview that is about to be made has no page yet, was not taken down, and is a
/// child where it was asked to be one.
pub proof fn law_new_webview_is_untouched(
    made: NewWebView,
    attributes: WebViewAttributes,
    window_id: Option<i64>,
    is_child: bool,
    name: Seq<char>,
)
    requires
        made.is_for(attributes, window_id, is_child, name),
    ensures
        !made.webview@.page_loaded,
        !made.webview@.disposed,
        made.webview@.is_child <==> is_child,
        made.creation@.stage == Stage::Build,
{
}

/// The platform is told to build what the application asked for, setting by setting.
pub proof fn law_settings_are_handed_on(
    made: NewWebView,
    attributes: WebViewAttributes,
    window_id: Option<i64>,
    is_child: bool,
    name: Seq<char>,
)
    requires
        made.is_for(attributes, window_id, is_child, name),
    ensures
        made.config.javascript_enabled <==> !attributes.javascript_disabled,
        made.config.autoplay <==> attributes.autoplay,
        made.config.transparent <==> attributes.transparent,
        made.config.devtools == attributes.devtools,
        made.config.user_agent == attributes.user_agent,
        made.config.style.visible is None,
        window_id matches Some(window_id) ==> made.config.window_id == window_id,
        window_id is None ==> made.config.window_id == 0,
        made.config.style.background_color is Some <==> attributes.background_color is Some,
        attributes.background_color matches Some(color) ==> {
            let number = made.config.style.background_color->0 as int;
            &&& number / 0x100_0000 == color.3
            &&& number / 0x1_0000 % 0x100 == color.0
            &&& number / 0x100 % 0x100 == color.1
            &&& number % 0x100 == color.2
        },
{
}

/// The webview first shows the text it was given, else the address it was given with
/// the headers it was given, else nothing. Headers without an address, or beside a text,
/// go nowhere.
pub proof fn law_text_comes_before_address(
    made: NewWebView,
    attributes: WebViewAttributes,
    window_id: Option<i64>,
    is_child: bool,
    name: Seq<char>,
)
    requires
        made.is_for(attributes, window_id, is_child, name),
    ensures
        made.config.content is Html <==> attributes.html is Some,
        made.config.content is Url <==> attributes.html is None && attributes.url is Some,
        made.config.content matches Content::Html(html) ==> attributes.html == Some(html),
        made.config.content matches Content::Url { url, headers } ==> attributes.url == Some(url)
            && headers == attributes.headers,
{
}

/// The platform runs one script, which holds all of the application's.
pub proof fn law_scripts_run_as_one(
    made: NewWebView,
    attributes: WebViewAttributes,
    window_id: Option<i64>,
    is_child: bool,
    name: Seq<char>,
    i: int,
)
    requires
        made.is_for(attributes, window_id, is_child, name),
        0 <= i < attributes.initialization_scripts@.len(),
    ensures
        made.config.initialization_scripts@.len() == 1,
        ({
            let scripts = attributes.initialization_scripts@;
            let merged = made.config.initialization_scripts@[0]@;
            let at = start_of(scripts, i);
            &&& merged.len() + 1 == start_of(scripts, scripts.len() as int)
            &&& 0 <= at
            &&& at + scripts[i].script@.len() <= merged.len()
            &&& merged.subrange(at, at + scripts[i].script@.len()) == scripts[i].script@
            &&& i > 0 ==> at > 0 && merged[at - 1] == '\n'
        }),
{
    law_every_script_is_merged(
        attributes.initialization_scripts@,
        made.config.initialization_scripts@[0]@,
        i,
    );
}

/// A webview without scripts runs the empty one.
pub proof fn law_no_script_runs_as_the_empty_one(
    made: NewWebView,
    attributes: WebViewAttributes,
    window_id: Option<i64>,
    is_child: bool,
    name: Seq<char>,
)
    requires
        made.is_for(attributes, window_id, is_child, name),
        attributes.initialization_scripts@.len() == 0,
    ensures
        made.config.initialization_scripts@.len() == 1,
        made.config.initialization_scripts@[0]@.len() == 0,
{
}

/// Every protocol that the application serves is registered, in its order, and no
/// other.
pub proof fn law_protocols_are_those_asked_for(
    made: NewWebView,
    attributes: WebViewAttributes,
    window_id: Option<i64>,
    is_child: bool,
    name: Seq<char>,
)
    requires
        made.is_for(attributes, window_id, is_child, name),
    ensures
        made.creation@.protocols.len() == attributes.custom_protocols@.len(),
        forall|i: int|
            0 <= i < attributes.custom_protocols@.len() ==> made.creation@.protocols[i]
                == #[trigger] attributes.custom_protocols@[i]@,
{
}

/// The number that a run of decimal digits stands for.
pub open spec fn value_of(text: Seq<char>) -> int
    decreases text.len(),
{
    if text.len() == 0 {
        0
    } else {
        10 * value_of(text.drop_last()) + (text.last() as int - '0' as int)
    }
}

/// The decimal text of a number is made of digits, starts with `0` for zero alone, and
/// stands for that number.
pub proof fn law_decimal_stands_for_its_number(n: nat)
    ensures
        decimal(n).len() > 0,
        forall|i: int| 0 <= i < decimal(n).len() ==> '0' <= #[trigger] decimal(n)[i] <= '9',
        decimal(n)[0] == '0' ==> decimal(n).len() == 1,
        decimal(n)[0] == '0' <==> n == 0,
        value_of(decimal(n)) == n,
    decreases n,
{
    let text = decimal(n);
    let last = digits()[(n % 10) as int];
    assert(last as int - '0' as int == n % 10);
    if n < 10 {
        assert(text == seq![last]);
        assert(text.drop_last() == Seq::<char>::empty());
        assert(value_of(Seq::empty()) == 0);
    } else {
        law_decimal_stands_for_its_number(n / 10);
        let higher = decimal(n / 10);
        assert(text == higher.push(last));
        assert(text.drop_last() == higher);
        assert(text[0] == higher[0]);
    }
}

/// A webview goes by the name it was given. Without one it goes by the counter's
/// number, in decimal. All parts of a new webview know it by that name.
pub proof fn law_name_is_given_or_counted(
    made: NewWebView,
    attributes: WebViewAttributes,
    window_id: Option<i64>,
    is_child: bool,
    number: u32,
)
    requires
        made.is_for(attributes, window_id, is_child, name_of(attributes.id, number)),
    ensures
        made.config.id@ == made.webview@.id,
        made.creation@.id == made.webview@.id,
        attributes.id matches Some(id) ==> made.webview@.id == id@,
        attributes.id is None ==> {
            let id = made.webview@.id;
            &&& id.len() > 0
            &&& forall|i: int| 0 <= i < id.len() ==> '0' <= #[trigger] id[i] <= '9'
            &&& id[0] == '0' ==> id.len() == 1
            &&& value_of(id) == number
        },
{
    law_decimal_stands_for_its_number(number as nat);
}

/// Where the platform cannot build the webview the caller gets its reason as it is;
/// where it takes no listener the reason comes behind a text that says so.
pub proof fn law_creation_errors_tell_the_reason(reason: Seq<char>)
    ensures
        Stage::Build.error(reason) == ErrorView::OpenHarmonyInitError(reason),
        Stage::AttachController.error(reason) == ErrorView::OpenHarmonyWebviewError(
            "Failed to add controller attach listener: "@ + reason,
        ),
{
}

} // verus!
