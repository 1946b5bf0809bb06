//! What a parsed Pubky deep link holds, as plain values.
//!
//! The `pubky` crate parses the text. The readers below each take the text itself, so that nothing
//! but plain values passes between that crate and this one.
use crate::text;
use pubky::deep_links::{DeepLink, XCallbackParams};
use std::str::FromStr;
use vstd::prelude::*;

verus! {

/// The part of a link that names its relay channel and what the app asks for.
#[derive(Debug)]
pub struct RelayParams {
    /// Base HTTP relay URL.
    pub relay: String,
    /// The text of each capability asked for, in the link's order.
    pub capabilities: Vec<String>,
    /// Secret of the relay channel.
    pub secret: [u8; 32],
}

/// The part of a link that names the homeserver to sign up at.
#[derive(Debug)]
pub struct AccountParams {
    /// Homeserver public key, bare z-base32.
    pub homeserver: String,
    /// Signup token, where the link carries one.
    pub signup_token: Option<String>,
}

/// The part of a grant link that names the app asking for the grant.
#[derive(Debug)]
pub struct ClientParams {
    /// Application identifier.
    pub client_id: String,
    /// Client public key, bare z-base32.
    pub client_pk: String,
}

/// The parameters of a link, by its intent.
#[derive(Debug)]
pub enum LinkParams {
    Signin(RelayParams),
    Signup(RelayParams, AccountParams),
    DirectSignup(AccountParams),
    SigninGrant(RelayParams, ClientParams),
    SignupGrant(RelayParams, AccountParams, ClientParams),
    SeedExport([u8; 32]),
}

/// The x-callback-url metadata of a link.
#[derive(Debug)]
pub struct Callbacks {
    pub x_source: Option<String>,
    pub x_success: Option<String>,
    pub x_error: Option<String>,
    pub x_cancel: Option<String>,
}

/// A deep link as plain values.
#[derive(Debug)]
pub struct Link {
    /// URI scheme.
    pub scheme: String,
    /// The whole link in its canonical spelling.
    pub url: String,
    pub params: LinkParams,
    pub callbacks: Callbacks,
}

pub struct RelayParamsView {
    pub relay: Seq<char>,
    pub capabilities: Seq<Seq<char>>,
    pub secret: Seq<u8>,
}

pub struct AccountParamsView {
    pub homeserver: Seq<char>,
    pub signup_token: Option<Seq<char>>,
}

pub struct ClientParamsView {
    pub client_id: Seq<char>,
    pub client_pk: Seq<char>,
}

pub enum LinkParamsView {
    Signin(RelayParamsView),
    Signup(RelayParamsView, AccountParamsView),
    DirectSignup(AccountParamsView),
    SigninGrant(RelayParamsView, ClientParamsView),
    SignupGrant(RelayParamsView, AccountParamsView, ClientParamsView),
    SeedExport(Seq<u8>),
}

pub struct CallbacksView {
    pub x_source: Option<Seq<char>>,
    pub x_success: Option<Seq<char>>,
    pub x_error: Option<Seq<char>>,
    pub x_cancel: Option<Seq<char>>,
}

pub struct LinkView {
    pub scheme: Seq<char>,
    pub url: Seq<char>,
    pub params: LinkParamsView,
    pub callbacks: CallbacksView,
}

impl View for RelayParams {
    type V = RelayParamsView;

    open spec fn view(&self) -> RelayParamsView {
        RelayParamsView {
            relay: self.relay@,
            capabilities: self.capabilities.deep_view(),
            secret: self.secret@,
        }
    }
}

impl View for AccountParams {
    type V = AccountParamsView;

    open spec fn view(&self) -> AccountParamsView {
        AccountParamsView {
            homeserver: self.homeserver@,
            signup_token: self.signup_token.deep_view(),
        }
    }
}

impl View for ClientParams {
    type V = ClientParamsView;

    open spec fn view(&self) -> ClientParamsView {
        ClientParamsView { client_id: self.client_id@, client_pk: self.client_pk@ }
    }
}

impl View for LinkParams {
    type V = LinkParamsView;

    open spec fn view(&self) -> LinkParamsView {
        match self {
            LinkParams::Signin(relay) => LinkParamsView::Signin(relay@),
            LinkParams::Signup(relay, account) => LinkParamsView::Signup(relay@, account@),
            LinkParams::DirectSignup(account) => LinkParamsView::DirectSignup(account@),
            LinkParams::SigninGrant(relay, client) => LinkParamsView::SigninGrant(relay@, client@),
            LinkParams::SignupGrant(relay, account, client) => LinkParamsView::SignupGrant(
                relay@,
                account@,
                client@,
            ),
            LinkParams::SeedExport(secret) => LinkParamsView::SeedExport(secret@),
        }
    }
}

impl View for Callbacks {
    type V = CallbacksView;

    open spec fn view(&self) -> CallbacksView {
        CallbacksView {
            x_source: self.x_source.deep_view(),
            x_success: self.x_success.deep_view(),
            x_error: self.x_error.deep_view(),
            x_cancel: self.x_cancel.deep_view(),
        }
    }
}

impl View for Link {
    type V = LinkView;

    open spec fn view(&self) -> LinkView {
        LinkView {
            scheme: self.scheme@,
            url: self.url@,
            params: self.params@,
            callbacks: self.callbacks@,
        }
    }
}

/// The intent of a link, by the parameters that it carries.
pub open spec fn intent_name(params: LinkParamsView) -> Seq<char> {
    match params {
        LinkParamsView::Signin(_) => "signin"@,
        LinkParamsView::Signup(_, _) => "signup"@,
        LinkParamsView::DirectSignup(_) => "direct_signup"@,
        LinkParamsView::SigninGrant(_, _) => "signin_grant"@,
        LinkParamsView::SignupGrant(_, _, _) => "signup_grant"@,
        LinkParamsView::SeedExport(_) => "secret_export"@,
    }
}

/// No two intents have the same name.
pub proof fn lemma_intents_differ()
    ensures
        "signin"@ != "signup"@,
        "signin_grant"@ != "signup_grant"@,
        "direct_signup"@ != "secret_export"@,
        "signin"@.len() == 6,
        "signup"@.len() == 6,
        "signin_grant"@.len() == 12,
        "signup_grant"@.len() == 12,
        "direct_signup"@.len() == 13,
        "secret_export"@.len() == 13,
{
    reveal_strlit("signin");
    reveal_strlit("signup");
    reveal_strlit("signin_grant");
    reveal_strlit("signup_grant");
    reveal_strlit("direct_signup");
    reveal_strlit("secret_export");
    assert("signin"@[4] != "signup"@[4]);
    assert("signin_grant"@[4] != "signup_grant"@[4]);
    assert("direct_signup"@[0] != "secret_export"@[0]);
}

impl LinkParams {
    /// The intent of a link with these parameters.
    pub fn intent(&self) -> (r: &'static str)
        ensures
            r@ == intent_name(self@),
    {
        match self {
            LinkParams::Signin(_) => "signin",
            LinkParams::Signup(_, _) => "signup",
            LinkParams::DirectSignup(_) => "direct_signup",
            LinkParams::SigninGrant(_, _) => "signin_grant",
            LinkParams::SignupGrant(_, _, _) => "signup_grant",
            LinkParams::SeedExport(_) => "secret_export",
        }
    }
}

/// What `DeepLink::from_str` makes of a text: a link, or the text of its error. It depends on
/// nothing but the text.
pub uninterp spec fn parsed_link(url: Seq<char>) -> Result<LinkView, Seq<char>>;

/// Calls `DeepLink::from_str`, and `TypedDeepLink::intent` on the link, which is the constant name
/// that belongs to the link's kind. A text that is refused is answered with the error as it
/// displays itself.
#[verifier::external_body]
fn parsed_intent(url: &str) -> (r: Result<String, String>)
    ensures
        match r {
            Ok(intent) => parsed_link(url@) matches Ok(link) && intent@ == intent_name(link.params),
            Err(message) => parsed_link(url@) == Err::<LinkView, Seq<char>>(message@),
        },
{
    let intent = match DeepLink::from_str(url).map_err(|error| error.to_string())? {
        DeepLink::Signin(link) => link.intent(),
        DeepLink::Signup(link) => link.intent(),
        DeepLink::DirectSignup(link) => link.intent(),
        DeepLink::SigninGrant(link) => link.intent(),
        DeepLink::SignupGrant(link) => link.intent(),
        DeepLink::SeedExport(link) => link.intent(),
    };
    Ok(intent.to_string())
}

/// Calls `DeepLink::from_str` and reads a signin link: its scheme and the link itself as they
/// display themselves, its callbacks, and its parameters: the relay and each capability as they
/// display themselves. `None` for every other kind, and for a text that is refused.
#[verifier::external_body]
fn signin_link(url: &str) -> (r: Option<Link>)
    ensures
        match r {
            Some(link) => link@.params is Signin && parsed_link(url@) == Ok::<LinkView, Seq<char>>(
                link@,
            ),
            None => !(parsed_link(url@) matches Ok(link) && link.params is Signin),
        },
{
    let Ok(DeepLink::Signin(link)) = DeepLink::from_str(url) else { return None };
    let p = link.params();
    let XCallbackParams { x_source, x_success, x_error, x_cancel } = link.x_callback().clone();
    let relay = RelayParams {
        relay: p.relay.to_string(),
        capabilities: p.capabilities.iter().map(ToString::to_string).collect(),
        secret: p.secret,
    };
    let params = LinkParams::Signin(relay);
    let callbacks = Callbacks { x_source, x_success, x_error, x_cancel };
    Some(Link { scheme: link.scheme().to_string(), url: link.to_string(), params, callbacks })
}

/// Calls `DeepLink::from_str` and reads a signup link: its scheme and the link itself as they
/// display themselves, its callbacks, and its parameters: the relay and each capability as they
/// display themselves, the homeserver's key by `PublicKey::z32`. `None` for every other kind, and
/// for a text that is refused.
#[verifier::external_body]
fn signup_link(url: &str) -> (r: Option<Link>)
    ensures
        match r {
            Some(link) => link@.params is Signup && parsed_link(url@) == Ok::<LinkView, Seq<char>>(
                link@,
            ),
            None => !(parsed_link(url@) matches Ok(link) && link.params is Signup),
        },
{
    let Ok(DeepLink::Signup(link)) = DeepLink::from_str(url) else { return None };
    let p = link.params();
    let XCallbackParams { x_source, x_success, x_error, x_cancel } = link.x_callback().clone();
    let relay = RelayParams {
        relay: p.relay.to_string(),
        capabilities: p.capabilities.iter().map(ToString::to_string).collect(),
        secret: p.secret,
    };
    let params = LinkParams::Signup(
        relay,
        AccountParams { homeserver: p.homeserver.z32(), signup_token: p.signup_token.clone() },
    );
    let callbacks = Callbacks { x_source, x_success, x_error, x_cancel };
    Some(Link { scheme: link.scheme().to_string(), url: link.to_string(), params, callbacks })
}

/// Calls `DeepLink::from_str` and reads a direct signup link: its scheme and the link itself as
/// they display themselves, its callbacks, and its parameters: the homeserver's key by
/// `PublicKey::z32`. `None` for every other kind, and for a text that is refused.
#[verifier::external_body]
fn direct_signup_link(url: &str) -> (r: Option<Link>)
    ensures
        match r {
            Some(link) => link@.params is DirectSignup && parsed_link(url@) == Ok::<
                LinkView,
                Seq<char>,
            >(link@),
            None => !(parsed_link(url@) matches Ok(link) && link.params is DirectSignup),
        },
{
    let Ok(DeepLink::DirectSignup(link)) = DeepLink::from_str(url) else { return None };
    let p = link.params();
    let XCallbackParams { x_source, x_success, x_error, x_cancel } = link.x_callback().clone();
    let params = LinkParams::DirectSignup(
        AccountParams { homeserver: p.homeserver.z32(), signup_token: p.signup_token.clone() },
    );
    let callbacks = Callbacks { x_source, x_success, x_error, x_cancel };
    Some(Link { scheme: link.scheme().to_string(), url: link.to_string(), params, callbacks })
}

/// Calls `DeepLink::from_str` and reads a grant signin link: its scheme and the link itself as
/// they display themselves, its callbacks, and its parameters: the relay, each capability and the
/// client id as they display themselves, the client's key by `PublicKey::z32`. `None` for every
/// other kind, and for a text that is refused.
#[verifier::external_body]
fn signin_grant_link(url: &str) -> (r: Option<Link>)
    ensures
        match r {
            Some(link) => link@.params is SigninGrant && parsed_link(url@) == Ok::<
                LinkView,
                Seq<char>,
            >(link@),
            None => !(parsed_link(url@) matches Ok(link) && link.params is SigninGrant),
        },
{
    let Ok(DeepLink::SigninGrant(link)) = DeepLink::from_str(url) else { return None };
    let p = link.params();
    let XCallbackParams { x_source, x_success, x_error, x_cancel } = link.x_callback().clone();
    let relay = RelayParams {
        relay: p.relay.to_string(),
        capabilities: p.capabilities.iter().map(ToString::to_string).collect(),
        secret: p.secret,
    };
    let params = LinkParams::SigninGrant(
        relay,
        ClientParams { client_id: p.client_id.to_string(), client_pk: p.client_pk.z32() },
    );
    let callbacks = Callbacks { x_source, x_success, x_error, x_cancel };
    Some(Link { scheme: link.scheme().to_string(), url: link.to_string(), params, callbacks })
}

/// Calls `DeepLink::from_str` and reads a grant signup link: its scheme and the link itself as
/// they display themselves, its callbacks, and its parameters: the relay, each capability and the
/// client id as they display themselves, the keys by `PublicKey::z32`. `None` for every other
/// kind, and for a text that is refused.
#[verifier::external_body]
fn signup_grant_link(url: &str) -> (r: Option<Link>)
    ensures
        match r {
            Some(link) => link@.params is SignupGrant && parsed_link(url@) == Ok::<
                LinkView,
                Seq<char>,
            >(link@),
            None => !(parsed_link(url@) matches Ok(link) && link.params is SignupGrant),
        },
{
    let Ok(DeepLink::SignupGrant(link)) = DeepLink::from_str(url) else { return None };
    let p = link.params();
    let XCallbackParams { x_source, x_success, x_error, x_cancel } = link.x_callback().clone();
    let relay = RelayParams {
        relay: p.relay.to_string(),
        capabilities: p.capabilities.iter().map(ToString::to_string).collect(),
        secret: p.secret,
    };
    let params = LinkParams::SignupGrant(
        relay,
        AccountParams { homeserver: p.homeserver.z32(), signup_token: p.signup_token.clone() },
        ClientParams { client_id: p.client_id.to_string(), client_pk: p.client_pk.z32() },
    );
    let callbacks = Callbacks { x_source, x_success, x_error, x_cancel };
    Some(Link { scheme: link.scheme().to_string(), url: link.to_string(), params, callbacks })
}

/// Calls `DeepLink::from_str` and reads a seed export link: its scheme and the link itself as they
/// display themselves, its callbacks, and its parameters: the secret. `None` for every other kind,
/// and for a text that is refused.
#[verifier::external_body]
fn seed_export_link(url: &str) -> (r: Option<Link>)
    ensures
        match r {
            Some(link) => link@.params is SeedExport && parsed_link(url@) == Ok::<
                LinkView,
                Seq<char>,
            >(link@),
            None => !(parsed_link(url@) matches Ok(link) && link.params is SeedExport),
        },
{
    let Ok(DeepLink::SeedExport(link)) = DeepLink::from_str(url) else { return None };
    let p = link.params();
    let XCallbackParams { x_source, x_success, x_error, x_cancel } = link.x_callback().clone();
    let params = LinkParams::SeedExport(p.secret);
    let callbacks = Callbacks { x_source, x_success, x_error, x_cancel };
    Some(Link { scheme: link.scheme().to_string(), url: link.to_string(), params, callbacks })
}

impl Link {
    /// Parses `url` as a deep link. The result is the link as plain values, or the message of the
    /// refusal.
    pub fn parse(url: &str) -> (r: Result<Link, String>)
        ensures
            match r {
                Ok(link) => parsed_link(url@) == Ok::<LinkView, Seq<char>>(link@),
                Err(message) => parsed_link(url@) == Err::<LinkView, Seq<char>>(message@),
            },
    {
        let intent: String = match parsed_intent(url) {
            Ok(intent) => intent,
            Err(message) => return Err(message),
        };
        proof {
            lemma_intents_differ();
        }
        let link: Option<Link> = if text::same(intent.as_str(), "signin") {
            signin_link(url)
        } else if text::same(intent.as_str(), "signup") {
            signup_link(url)
        } else if text::same(intent.as_str(), "direct_signup") {
            direct_signup_link(url)
        } else if text::same(intent.as_str(), "signin_grant") {
            signin_grant_link(url)
        } else if text::same(intent.as_str(), "signup_grant") {
            signup_grant_link(url)
        } else {
            seed_export_link(url)
        };
        match link {
            Some(link) => Ok(link),
            None => vstd::pervasive::unreached(),
        }
    }
}

} // verus!
