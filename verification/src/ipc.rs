use vstd::prelude::*;

verus! {

/// A message of a page to the application.
#[derive(Debug, PartialEq, Eq)]
pub struct IpcRequest {
    /// The address of the page, as a text that `http::Uri` parses.
    pub uri: String,
    /// The message.
    pub body: String,
}

/// Whether `http::Uri` parses `text`.
pub uninterp spec fn uri_accepts(text: Seq<char>) -> bool;

/// `str::parse::<http::Uri>`: whether it gives a URI, which depends on the text
/// alone.
#[verifier::external_body]
fn parses_as_uri(text: &str) -> (accepted: bool)
    ensures
        accepted == uri_accepts(text@),
{
    text.parse::<http::Uri>().is_ok()
}

/// `http::Uri::from_static`, on the address of the empty page. The URI is an
/// authority and nothing else, so its text is the text that it was parsed from.
#[verifier::external_body]
fn static_uri(text: &'static str) -> (uri: String)
    requires
        text@ == "about:blank"@,
    ensures
        uri@ == text@,
        uri_accepts(uri@),
{
    http::Uri::from_static(text).to_string()
}

/// The text that `reply` gives, or the address of the empty page.
pub open spec fn page_address(reply: Result<String, String>) -> Seq<char> {
    match reply {
        Ok(url) => url@,
        Err(_) => "about:blank"@,
    }
}

/// The first of the parameters, or the empty text.
pub open spec fn message(params: Seq<String>) -> Seq<char> {
    if params.len() > 0 {
        params[0]@
    } else {
        Seq::empty()
    }
}

/// The address that a message is said to come from: that of the page where it is a
/// URI, else `blank`.
pub fn request_uri(url: String, accepted: bool, blank: String) -> (uri: String)
    ensures
        uri == if accepted {
            url
        } else {
            blank
        },
{
    if accepted {
        url
    } else {
        blank
    }
}

/// The request that hands a page's message to the application. `reply` is what the
/// webview answered when asked for its address. A page loaded from a text has an
/// address that is no URI: the request then names `about:blank`.
pub fn ipc_request(params: &Vec<String>, reply: Result<String, String>) -> (request: IpcRequest)
    ensures
        request.body@ == message(params@),
        request.uri@ == if uri_accepts(page_address(reply)) {
            page_address(reply)
        } else {
            "about:blank"@
        },
        uri_accepts(request.uri@),
        params@.len() >= 1 ==> request.body@ == params@[0]@,
        params@.len() == 0 ==> request.body@.len() == 0,
        (reply matches Ok(url) && uri_accepts(url@)) ==> request.uri@ == reply->Ok_0@,
        !(reply matches Ok(url) && uri_accepts(url@)) ==> request.uri@ == "about:blank"@,
{
    let body = if params.len() > 0 {
        params[0].clone()
    } else {
        String::new()
    };
    let url = match reply {
        Ok(url) => url,
        Err(_) => "about:blank".to_string(),
    };
    let accepted = parses_as_uri(url.as_str());
    let blank = static_uri("about:blank");
    IpcRequest { uri: request_uri(url, accepted, blank), body }
}

/// The application gets the first parameter of a message, whole, and none of the others;
/// a message without parameters is empty. `request` is what `ipc_request` returns.
pub proof fn law_message_is_the_first_parameter(params: Seq<String>, request: IpcRequest)
    requires
        request.body@ == message(params),
    ensures
        params.len() >= 1 ==> request.body@ == params[0]@,
        params.len() == 0 ==> request.body@.len() == 0,
{
}

/// A page that tells its address is asked no further; one that cannot tell it counts as
/// the empty page.
pub proof fn law_page_without_address_is_blank(reply: Result<String, String>)
    ensures
        reply is Ok ==> page_address(reply) == reply->Ok_0@,
        reply is Err ==> page_address(reply) == "about:blank"@,
{
}

} // verus!
