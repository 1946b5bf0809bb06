//! What callers are told about auth URLs and deep links.
use vstd::prelude::*;

verus! {

/// One permission that an app asks for: a path and what it may do there.
#[derive(Debug)]
pub struct Capability {
    pub path: String,
    pub permission: String,
}

/// The details of an auth URL.
#[derive(Debug)]
pub struct PubkyAuthDetails {
    pub relay: String,
    pub capabilities: Vec<Capability>,
    pub secret: String,
    /// Auth URL intent. Legacy URLs (`pubkyauth:///?...`) have no intent host
    /// and are treated as "signin".
    pub kind: String,
    /// Homeserver public key (bare z-base32) from the `hs` param of signup links.
    pub homeserver: Option<String>,
    /// Signup token from the `st` param of signup links.
    pub signup_token: Option<String>,
    /// Grant client id from the `cid` param of grant auth links.
    pub client_id: Option<String>,
    /// Grant client public key from the `cpk` param of grant auth links.
    pub client_public_key: Option<String>,
    /// x-callback-url source app name.
    pub x_source: Option<String>,
    /// x-callback-url success callback.
    pub x_success: Option<String>,
    /// x-callback-url error callback.
    pub x_error: Option<String>,
    /// x-callback-url cancel callback.
    pub x_cancel: Option<String>,
}

/// The details of a deep link of any intent. What the intent has no use for is absent.
#[derive(Debug)]
pub struct PubkyDeepLinkDetails {
    pub scheme: String,
    pub kind: String,
    pub url: String,
    pub relay: Option<String>,
    pub capabilities: Option<Vec<Capability>>,
    pub secret: Option<String>,
    pub homeserver: Option<String>,
    pub signup_token: Option<String>,
    pub client_id: Option<String>,
    pub client_public_key: Option<String>,
    pub x_source: Option<String>,
    pub x_success: Option<String>,
    pub x_error: Option<String>,
    pub x_cancel: Option<String>,
}

pub struct CapabilityView {
    pub path: Seq<char>,
    pub permission: Seq<char>,
}

pub struct PubkyAuthDetailsView {
    pub relay: Seq<char>,
    pub capabilities: Seq<CapabilityView>,
    pub secret: Seq<char>,
    pub kind: Seq<char>,
    pub homeserver: Option<Seq<char>>,
    pub signup_token: Option<Seq<char>>,
    pub client_id: Option<Seq<char>>,
    pub client_public_key: Option<Seq<char>>,
    pub x_source: Option<Seq<char>>,
    pub x_success: Option<Seq<char>>,
    pub x_error: Option<Seq<char>>,
    pub x_cancel: Option<Seq<char>>,
}

pub struct PubkyDeepLinkDetailsView {
    pub scheme: Seq<char>,
    pub kind: Seq<char>,
    pub url: Seq<char>,
    pub relay: Option<Seq<char>>,
    pub capabilities: Option<Seq<CapabilityView>>,
    pub secret: Option<Seq<char>>,
    pub homeserver: Option<Seq<char>>,
    pub signup_token: Option<Seq<char>>,
    pub client_id: Option<Seq<char>>,
    pub client_public_key: Option<Seq<char>>,
    pub x_source: Option<Seq<char>>,
    pub x_success: Option<Seq<char>>,
    pub x_error: Option<Seq<char>>,
    pub x_cancel: Option<Seq<char>>,
}

impl DeepView for Capability {
    type V = CapabilityView;

    open spec fn deep_view(&self) -> CapabilityView {
        CapabilityView { path: self.path@, permission: self.permission@ }
    }
}

impl View for PubkyAuthDetails {
    type V = PubkyAuthDetailsView;

    open spec fn view(&self) -> PubkyAuthDetailsView {
        PubkyAuthDetailsView {
            relay: self.relay@,
            capabilities: self.capabilities.deep_view(),
            secret: self.secret@,
            kind: self.kind@,
            homeserver: self.homeserver.deep_view(),
            signup_token: self.signup_token.deep_view(),
            client_id: self.client_id.deep_view(),
            client_public_key: self.client_public_key.deep_view(),
            x_source: self.x_source.deep_view(),
            x_success: self.x_success.deep_view(),
            x_error: self.x_error.deep_view(),
            x_cancel: self.x_cancel.deep_view(),
        }
    }
}

impl View for PubkyDeepLinkDetails {
    type V = PubkyDeepLinkDetailsView;

    open spec fn view(&self) -> PubkyDeepLinkDetailsView {
        PubkyDeepLinkDetailsView {
            scheme: self.scheme@,
            kind: self.kind@,
            url: self.url@,
            relay: self.relay.deep_view(),
            capabilities: self.capabilities.deep_view(),
            secret: self.secret.deep_view(),
            homeserver: self.homeserver.deep_view(),
            signup_token: self.signup_token.deep_view(),
            client_id: self.client_id.deep_view(),
            client_public_key: self.client_public_key.deep_view(),
            x_source: self.x_source.deep_view(),
            x_success: self.x_success.deep_view(),
            x_error: self.x_error.deep_view(),
            x_cancel: self.x_cancel.deep_view(),
        }
    }
}

} // verus!
