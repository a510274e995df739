use vstd::prelude::*;

use crate::attributes::{
    first_content, is_configured, merge_scripts, name_of, successor, webview_name, Callbacks,
    Counter, PlatformSpecificWebViewAttributes, Style, WebViewAttributes, WebViewConfig,
};
use crate::color::argb_number;
use crate::error::{Error, ErrorView};
use crate::geometry::{empty_rect, Rect};
use crate::operation::Failure;
use crate::webview::{InnerWebView, WebviewState};

verus! {

/// How far the making of a webview has come.
#[derive(Debug, Clone, Copy, PartialEq, Eq, Structural)]
pub enum Stage {
    /// The platform builds the webview.
    Build,
    /// The platform takes a listener for the moment when the webview is attached.
    AttachController,
    /// The platform takes a handler for the protocol with this index.
    RegisterProtocol(usize),
    /// The webview is made.
    Ready,
}

impl Stage {
    /// The stage behind this one, with `protocols` handlers to register in all.
    pub open spec fn after(self, protocols: nat) -> Stage {
        match self {
            Stage::Build => Stage::AttachController,
            Stage::AttachController => if protocols > 0 {
                Stage::RegisterProtocol(0)
            } else {
                Stage::Ready
            },
            Stage::RegisterProtocol(index) => if index + 1 < protocols {
                Stage::RegisterProtocol((index + 1) as usize)
            } else {
                Stage::Ready
            },
            Stage::Ready => Stage::Ready,
        }
    }

    /// The error that the caller gets where the platform fails at this stage for
    /// `reason`. Registering a protocol cannot fail in an orderly way.
    pub open spec fn error(self, reason: Seq<char>) -> ErrorView {
        if self == Stage::Build {
            ErrorView::OpenHarmonyInitError(reason)
        } else {
            ErrorView::OpenHarmonyWebviewError(
                "Failed to add controller attach listener: "@ + reason,
            )
        }
    }
}

/// The making of a webview: what the platform has to do for it, step by step.
#[derive(Debug)]
pub struct Creation {
    id: String,
    protocols: Vec<String>,
    stage: Stage,
}

/// What is known of the making of a webview.
#[verifier::ext_equal]
pub struct CreationState {
    /// The name that the webview goes by.
    pub id: Seq<char>,
    /// The protocols to register, in this order.
    pub protocols: Seq<Seq<char>>,
    pub stage: Stage,
}

/// The texts of `strings`.
pub open spec fn texts(strings: Seq<String>) -> Seq<Seq<char>> {
    strings.map_values(|string: String| string@)
}

impl View for Creation {
    type V = CreationState;

    closed spec fn view(&self) -> CreationState {
        CreationState {
            id: self.id@,
            protocols: texts(self.protocols@),
            stage: self.stage,
        }
    }
}

/// What the platform is to do next.
#[derive(Debug, PartialEq, Eq)]
pub enum CreationCall {
    /// Build the webview.
    Build,
    /// Once the webview `tag` is attached, give its pages an object with a method.
    AttachController { tag: String, object: String, method: String },
    /// Hand requests for `protocol` to the application, with the webview's name.
    RegisterProtocol { protocol: String, webview_id: String },
    /// Nothing: the webview is made.
    Done,
}

impl Creation {
    /// Whether the next protocol to register, if any, is one of those asked for.
    #[verifier::type_invariant]
    spec fn is_valid(self) -> bool {
        self.stage matches Stage::RegisterProtocol(index) ==> index < self.protocols@.len()
    }

    /// How far the making has come.
    pub fn stage(&self) -> (stage: Stage)
        ensures
            stage == self@.stage,
    {
        self.stage
    }

    /// What the platform is to do next.
    pub fn next_call(&self) -> (call: CreationCall)
        ensures
            match self@.stage {
                Stage::Build => call is Build,
                Stage::AttachController => call matches CreationCall::AttachController {
                    tag,
                    object,
                    method,
                } && tag@ == self@.id && object@ == "ipc"@ && method@ == "postMessage"@,
                Stage::RegisterProtocol(index) => {
                    &&& index < self@.protocols.len()
                    &&& call matches CreationCall::RegisterProtocol { protocol, webview_id }
                    &&& protocol@ == self@.protocols[index as int]
                    &&& webview_id@ == self@.id
                },
                Stage::Ready => call is Done,
            },
    {
        proof {
            use_type_invariant(self);
        }
        match self.stage {
            Stage::Build => CreationCall::Build,
            Stage::AttachController => CreationCall::AttachController {
                tag: self.id.clone(),
                object: "ipc".to_string(),
                method: "postMessage".to_string(),
            },
            Stage::RegisterProtocol(index) => CreationCall::RegisterProtocol {
                protocol: self.protocols[index].clone(),
                webview_id: self.id.clone(),
            },
            Stage::Ready => CreationCall::Done,
        }
    }

    /// Goes on with the platform's answer. A protocol that the platform does not
    /// take is no answer to go on with.
    pub fn advance(self, reply: Result<(), String>) -> (outcome: Result<Creation, Error>)
        requires
            self@.stage is RegisterProtocol ==> reply is Ok,
            self@.stage !is Ready,
        ensures
            match reply {
                Ok(_) => outcome matches Ok(next) && next@ == (CreationState {
                    stage: self@.stage.after(self@.protocols.len()),
                    ..self@
                }),
                Err(reason) => outcome matches Err(error) && error@ == self@.stage.error(reason@),
            },
    {
        proof {
            use_type_invariant(&self);
        }
        let Creation { id, protocols, stage } = self;
        let count: usize = protocols.len();
        match reply {
            Ok(_) => {
                let next = match stage {
                    Stage::Build => Stage::AttachController,
                    Stage::AttachController => if count > 0 {
                        Stage::RegisterProtocol(0)
                    } else {
                        Stage::Ready
                    },
                    Stage::RegisterProtocol(index) => if index + 1 < count {
                        Stage::RegisterProtocol(index + 1)
                    } else {
                        Stage::Ready
                    },
                    Stage::Ready => Stage::Ready,
                };
                Ok(Creation { id, protocols, stage: next })
            },
            Err(reason) => Err(
                match stage {
                    Stage::Build => Error::OpenHarmonyInitError(reason),
                    _ => Failure::Reported("Failed to add controller attach listener: ").describe(
                        reason,
                    ),
                },
            ),
        }
    }
}

/// A webview that is about to be made.
#[derive(Debug)]
pub struct NewWebView {
    /// What the platform is to build.
    pub config: WebViewConfig,
    /// The webview. It is the caller's once it is made, but pages may load before.
    pub webview: InnerWebView,
    /// What the platform has to do until it is made.
    pub creation: Creation,
}

impl NewWebView {
    /// Whether this is the webview that `attributes` and `window_id` ask for, under
    /// the name `name`.
    pub open spec fn is_for(
        self,
        attributes: WebViewAttributes,
        window_id: Option<i64>,
        is_child: bool,
        name: Seq<char>,
    ) -> bool {
        &&& is_configured(self.config, attributes, window_id, is_child, name)
        &&& self.webview@ == WebviewState::fresh(
            name,
            match attributes.bounds {
                Some(bounds) => bounds,
                None => empty_rect(),
            },
            is_child,
            attributes.handlers,
        )
        &&& self.creation@ == (CreationState {
            id: name,
            protocols: texts(attributes.custom_protocols@),
            stage: Stage::Build,
        })
    }
}

impl InnerWebView {
    /// Starts to make a webview that lies inside the window of another one.
    pub fn new_as_child(
        attributes: WebViewAttributes,
        pl_attrs: PlatformSpecificWebViewAttributes,
        counter: &mut Counter,
    ) -> (made: NewWebView)
        ensures
            made.is_for(
                attributes,
                pl_attrs.window_id,
                true,
                name_of(attributes.id, old(counter)@),
            ),
            final(counter)@ == if attributes.id is Some {
                old(counter)@
            } else {
                successor(old(counter)@)
            },
    {
        Self::new_inner(attributes, pl_attrs, true, counter)
    }

    /// Starts to make a webview that is the content of its window.
    pub fn new(
        attributes: WebViewAttributes,
        pl_attrs: PlatformSpecificWebViewAttributes,
        counter: &mut Counter,
    ) -> (made: NewWebView)
        ensures
            made.is_for(
                attributes,
                pl_attrs.window_id,
                false,
                name_of(attributes.id, old(counter)@),
            ),
            final(counter)@ == if attributes.id is Some {
                old(counter)@
            } else {
                successor(old(counter)@)
            },
    {
        Self::new_inner(attributes, pl_attrs, false, counter)
    }

    /// Starts to make a webview.
    pub fn new_inner(
        attributes: WebViewAttributes,
        pl_attrs: PlatformSpecificWebViewAttributes,
        is_child: bool,
        counter: &mut Counter,
    ) -> (made: NewWebView)
        ensures
            made.is_for(
                attributes,
                pl_attrs.window_id,
                is_child,
                name_of(attributes.id, old(counter)@),
            ),
            final(counter)@ == if attributes.id is Some {
                old(counter)@
            } else {
                successor(old(counter)@)
            },
    {
        let WebViewAttributes {
            id,
            url,
            html,
            headers,
            initialization_scripts,
            custom_protocols,
            devtools,
            background_color,
            transparent,
            autoplay,
            javascript_disabled,
            user_agent,
            bounds,
            handlers,
        } = attributes;
        let id = webview_name(id, counter);
        let background_color = match background_color {
            Some(color) => Some(argb_number(color)),
            None => None,
        };
        let initial_bounds = match bounds {
            Some(bounds) => bounds,
            None => Rect::default(),
        };
        let mut scripts: Vec<String> = Vec::new();
        scripts.push(merge_scripts(&initialization_scripts));
        let config = WebViewConfig {
            id: id.clone(),
            style: Style {
                bounds: if is_child {
                    bounds
                } else {
                    None
                },
                visible: None,
                background_color,
            },
            javascript_enabled: !javascript_disabled,
            autoplay,
            initialization_scripts: scripts,
            transparent,
            window_id: pl_attrs.window_id.unwrap_or(0),
            devtools,
            content: first_content(html, url, headers),
            user_agent,
            callbacks: Callbacks {
                navigation_request: handlers.navigation,
                title_change: handlers.document_title_changed,
                download_start: handlers.download_started,
                download_end: handlers.download_completed,
                page_begin: true,
                page_end: true,
                window_new: handlers.new_window,
            },
        };
        let creation = Creation {
            id: id.clone(),
            protocols: custom_protocols,
            stage: Stage::Build,
        };
        let webview = InnerWebView::fresh(id, initial_bounds, is_child, handlers);
        NewWebView { config, webview, creation }
    }
}

} // verus!
