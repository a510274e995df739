//! The decisions of a webview backend for OpenHarmony.
//!
//! The platform's webview is driven from outside: the library says which call to
//! make on it, and what its answer means to the application. It keeps what is known
//! of a webview without asking the platform, works out what the platform is to build,
//! writes and reads cookie headers, and turns messages of a page into requests.
//!
//! - `creation`: how a webview is made, step by step, from its `attributes`;
//! - `webview`: what can be asked of it, as an `operation` on the platform;
//! - `cookies`, `ipc`, `color`, `geometry` and `text`: the values that pass through;
//! - `creation_laws`: what holds of every new webview;
//! - `cookie_laws`, `set_cookie_laws` and `reading_laws`: what holds of every cookie,
//!   written and read;
//! - `webview_laws`: what holds of every history and every failure.

use vstd::prelude::*;

pub mod attributes;
pub mod color;
pub mod cookie_laws;
pub mod cookies;
pub mod creation;
pub mod creation_laws;
pub mod error;
pub mod geometry;
pub mod ipc;
pub mod operation;
pub mod reading_laws;
pub mod set_cookie_laws;
pub mod text;
pub mod webview;
pub mod webview_laws;

pub use attributes::{
    Counter, Handlers, InitializationScript, PlatformSpecificWebViewAttributes, WebViewAttributes,
};
pub use color::RGBA;
pub use cookies::{format_set_cookie_value, Cookie, SameSite};
pub use error::Error;
pub use geometry::{Position, Real, Rect, Size};
pub use operation::WebviewCall;
pub use webview::{InnerWebView, NewWindowResponse, PageLoadEvent};

verus! {

/// The version of the web engine that the platform ships.
pub fn platform_webview_version() -> (version: Result<String, Error>)
    ensures
        version matches Ok(text) && text@ == "1.0.0"@,
{
    Ok("1.0.0".to_string())
}

} // verus!
