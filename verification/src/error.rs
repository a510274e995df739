use vstd::prelude::*;

verus! {

/// Why a request to the webview failed.
#[derive(Debug, PartialEq, Eq)]
pub enum Error {
    /// The platform could not create the webview.
    OpenHarmonyInitError(String),
    /// The platform refused a call on an existing webview.
    OpenHarmonyWebviewError(String),
    /// The call has to be made on the main thread.
    NotMainThread,
}

/// What an `Error` says.
pub enum ErrorView {
    OpenHarmonyInitError(Seq<char>),
    OpenHarmonyWebviewError(Seq<char>),
    NotMainThread,
}

impl View for Error {
    type V = ErrorView;

    open spec fn view(&self) -> ErrorView {
        match self {
            Error::OpenHarmonyInitError(text) => ErrorView::OpenHarmonyInitError(text@),
            Error::OpenHarmonyWebviewError(text) => ErrorView::OpenHarmonyWebviewError(text@),
            Error::NotMainThread => ErrorView::NotMainThread,
        }
    }
}

} // verus!
