//! Reads auth URLs and deep links.
use crate::base64url;
use crate::deep_link::{
    self, AccountParamsView, Callbacks, ClientParamsView, Link, LinkParams, LinkParamsView, LinkView,
    RelayParamsView,
};
use crate::text;
use crate::types::{
    Capability, CapabilityView, PubkyAuthDetails, PubkyAuthDetailsView, PubkyDeepLinkDetails,
    PubkyDeepLinkDetailsView,
};
use vstd::prelude::*;

verus! {

/// A capability's text taken apart at its last colon. Without a colon, all of it is the path.
pub open spec fn capability_of(capability: Seq<char>) -> CapabilityView {
    match text::parted_at_last(capability, ':') {
        Some((path, permission)) => CapabilityView { path, permission },
        None => CapabilityView { path: capability, permission: Seq::empty() },
    }
}

/// Each capability's text taken apart, in order.
pub open spec fn capabilities_of(capabilities: Seq<Seq<char>>) -> Seq<CapabilityView> {
    capabilities.map_values(|capability: Seq<char>| capability_of(capability))
}

/// The relay channel and the capabilities of an auth link; other links have none.
pub open spec fn relay_of(params: LinkParamsView) -> Option<RelayParamsView> {
    match params {
        LinkParamsView::Signin(relay) => Some(relay),
        LinkParamsView::Signup(relay, _) => Some(relay),
        LinkParamsView::SigninGrant(relay, _) => Some(relay),
        LinkParamsView::SignupGrant(relay, _, _) => Some(relay),
        LinkParamsView::DirectSignup(_) => None,
        LinkParamsView::SeedExport(_) => None,
    }
}

/// The homeserver and signup token of a link that signs up.
pub open spec fn account_of(params: LinkParamsView) -> Option<AccountParamsView> {
    match params {
        LinkParamsView::Signup(_, account) => Some(account),
        LinkParamsView::DirectSignup(account) => Some(account),
        LinkParamsView::SignupGrant(_, account, _) => Some(account),
        _ => None,
    }
}

/// The app that a grant link asks for.
pub open spec fn client_of(params: LinkParamsView) -> Option<ClientParamsView> {
    match params {
        LinkParamsView::SigninGrant(_, client) => Some(client),
        LinkParamsView::SignupGrant(_, _, client) => Some(client),
        _ => None,
    }
}

/// The secret that a link carries: that of its relay channel, or the seed that it exports.
pub open spec fn secret_of(params: LinkParamsView) -> Option<Seq<u8>> {
    match params {
        LinkParamsView::SeedExport(secret) => Some(secret),
        _ => match relay_of(params) {
            Some(relay) => Some(relay.secret),
            None => None,
        },
    }
}

/// What is told of a link.
pub open spec fn details_of(link: LinkView) -> PubkyDeepLinkDetailsView {
    PubkyDeepLinkDetailsView {
        scheme: link.scheme,
        kind: deep_link::intent_name(link.params),
        url: link.url,
        relay: match relay_of(link.params) {
            Some(relay) => Some(relay.relay),
            None => None,
        },
        capabilities: match relay_of(link.params) {
            Some(relay) => Some(capabilities_of(relay.capabilities)),
            None => None,
        },
        secret: match secret_of(link.params) {
            Some(secret) => Some(base64url::base64url(secret)),
            None => None,
        },
        homeserver: match account_of(link.params) {
            Some(account) => Some(account.homeserver),
            None => None,
        },
        signup_token: match account_of(link.params) {
            Some(account) => account.signup_token,
            None => None,
        },
        client_id: match client_of(link.params) {
            Some(client) => Some(client.client_id),
            None => None,
        },
        client_public_key: match client_of(link.params) {
            Some(client) => Some(client.client_pk),
            None => None,
        },
        x_source: link.callbacks.x_source,
        x_success: link.callbacks.x_success,
        x_error: link.callbacks.x_error,
        x_cancel: link.callbacks.x_cancel,
    }
}

/// The kinds of link that an auth URL may be.
pub open spec fn is_auth_kind(kind: Seq<char>) -> bool {
    ||| kind == "signin"@
    ||| kind == "signup"@
    ||| kind == "signin_grant"@
    ||| kind == "signup_grant"@
}

/// The answer to a link of a kind that an auth URL may not be.
pub open spec fn refused_kind(kind: Seq<char>) -> Seq<char> {
    "Invalid auth URL intent '"@ + kind + "'"@
}

/// What is told of an auth URL whose link has the given details, or why it is refused.
pub open spec fn auth_details_of(details: PubkyDeepLinkDetailsView) -> Result<
    PubkyAuthDetailsView,
    Seq<char>,
> {
    if !is_auth_kind(details.kind) {
        Err(refused_kind(details.kind))
    } else if details.relay is None {
        Err("Missing relay"@)
    } else if details.secret is None {
        Err("Missing secret"@)
    } else {
        Ok(
            PubkyAuthDetailsView {
                relay: details.relay->0,
                capabilities: match details.capabilities {
                    Some(capabilities) => capabilities,
                    None => Seq::empty(),
                },
                secret: details.secret->0,
                kind: details.kind,
                homeserver: details.homeserver,
                signup_token: details.signup_token,
                client_id: details.client_id,
                client_public_key: details.client_public_key,
                x_source: details.x_source,
                x_success: details.x_success,
                x_error: details.x_error,
                x_cancel: details.x_cancel,
            },
        )
    }
}

/// Takes each capability's text apart, in order.
pub fn convert_capabilities(capabilities: &Vec<String>) -> (r: Vec<Capability>)
    ensures
        r.deep_view() == capabilities_of(capabilities.deep_view()),
{
    let mut converted: Vec<Capability> = Vec::new();
    for i in 0..capabilities.len()
        invariant
            converted.deep_view() == capabilities_of(capabilities.deep_view().take(i as int)),
    {
        let capability: &str = capabilities[i].as_str();
        let (path, permission): (&str, &str) = match text::split_at_last(capability, ':') {
            Some(parts) => parts,
            None => (capability, ""),
        };
        let ghost before = converted.deep_view();
        converted.push(Capability { path: path.to_owned(), permission: permission.to_owned() });
        proof {
            reveal_strlit("");
            assert(""@ == Seq::<char>::empty());
            let texts = capabilities.deep_view();
            assert(texts.take(i + 1) == texts.take(i as int).push(texts[i as int]));
            assert(converted.deep_view() == before.push(capability_of(texts[i as int])));
        }
    }
    proof {
        assert(capabilities.deep_view().take(capabilities.len() as int)
            == capabilities.deep_view());
    }
    converted
}

/// A copy of an optional text.
fn copy_text(value: &Option<String>) -> (r: Option<String>)
    ensures
        r.deep_view() == value.deep_view(),
{
    match value {
        Some(text) => Some(text.clone()),
        None => None,
    }
}

/// The details of a link that opens a relay channel.
pub fn auth_deep_link_details(
    scheme: &str,
    kind: &str,
    url: String,
    relay: String,
    capabilities: &Vec<String>,
    secret: &[u8; 32],
    homeserver: Option<String>,
    signup_token: Option<String>,
    client_id: Option<String>,
    client_public_key: Option<String>,
    callbacks: &Callbacks,
) -> (r: PubkyDeepLinkDetails)
    ensures
        r@ == (PubkyDeepLinkDetailsView {
            scheme: scheme@,
            kind: kind@,
            url: url@,
            relay: Some(relay@),
            capabilities: Some(capabilities_of(capabilities.deep_view())),
            secret: Some(base64url::base64url(secret@)),
            homeserver: homeserver.deep_view(),
            signup_token: signup_token.deep_view(),
            client_id: client_id.deep_view(),
            client_public_key: client_public_key.deep_view(),
            x_source: callbacks@.x_source,
            x_success: callbacks@.x_success,
            x_error: callbacks@.x_error,
            x_cancel: callbacks@.x_cancel,
        }),
{
    PubkyDeepLinkDetails {
        scheme: scheme.to_owned(),
        kind: kind.to_owned(),
        url,
        relay: Some(relay),
        capabilities: Some(convert_capabilities(capabilities)),
        secret: Some(base64url::encode(secret)),
        homeserver,
        signup_token,
        client_id,
        client_public_key,
        x_source: copy_text(&callbacks.x_source),
        x_success: copy_text(&callbacks.x_success),
        x_error: copy_text(&callbacks.x_error),
        x_cancel: copy_text(&callbacks.x_cancel),
    }
}

/// The details of a link that opens no relay channel.
pub fn non_auth_deep_link_details(
    scheme: &str,
    kind: &str,
    url: String,
    homeserver: Option<String>,
    signup_token: Option<String>,
    secret: Option<String>,
    client_id: Option<String>,
    client_public_key: Option<String>,
    callbacks: &Callbacks,
) -> (r: PubkyDeepLinkDetails)
    ensures
        r@ == (PubkyDeepLinkDetailsView {
            scheme: scheme@,
            kind: kind@,
            url: url@,
            relay: None,
            capabilities: None,
            secret: secret.deep_view(),
            homeserver: homeserver.deep_view(),
            signup_token: signup_token.deep_view(),
            client_id: client_id.deep_view(),
            client_public_key: client_public_key.deep_view(),
            x_source: callbacks@.x_source,
            x_success: callbacks@.x_success,
            x_error: callbacks@.x_error,
            x_cancel: callbacks@.x_cancel,
        }),
{
    PubkyDeepLinkDetails {
        scheme: scheme.to_owned(),
        kind: kind.to_owned(),
        url,
        relay: None,
        capabilities: None,
        secret,
        homeserver,
        signup_token,
        client_id,
        client_public_key,
        x_source: copy_text(&callbacks.x_source),
        x_success: copy_text(&callbacks.x_success),
        x_error: copy_text(&callbacks.x_error),
        x_cancel: copy_text(&callbacks.x_cancel),
    }
}

/// The details of a link, by its intent.
pub fn deep_link_details(link: &Link) -> (r: PubkyDeepLinkDetails)
    ensures
        r@ == details_of(link@),
{
    let scheme: &str = link.scheme.as_str();
    let kind: &str = link.params.intent();
    let url: String = link.url.clone();
    let callbacks: &Callbacks = &link.callbacks;
    match &link.params {
        LinkParams::Signin(relay) => auth_deep_link_details(
            scheme,
            kind,
            url,
            relay.relay.clone(),
            &relay.capabilities,
            &relay.secret,
            None,
            None,
            None,
            None,
            callbacks,
        ),
        LinkParams::Signup(relay, account) => auth_deep_link_details(
            scheme,
            kind,
            url,
            relay.relay.clone(),
            &relay.capabilities,
            &relay.secret,
            Some(account.homeserver.clone()),
            copy_text(&account.signup_token),
            None,
            None,
            callbacks,
        ),
        LinkParams::DirectSignup(account) => non_auth_deep_link_details(
            scheme,
            kind,
            url,
            Some(account.homeserver.clone()),
            copy_text(&account.signup_token),
            None,
            None,
            None,
            callbacks,
        ),
        LinkParams::SigninGrant(relay, client) => auth_deep_link_details(
            scheme,
            kind,
            url,
            relay.relay.clone(),
            &relay.capabilities,
            &relay.secret,
            None,
            None,
            Some(client.client_id.clone()),
            Some(client.client_pk.clone()),
            callbacks,
        ),
        LinkParams::SignupGrant(relay, account, client) => auth_deep_link_details(
            scheme,
            kind,
            url,
            relay.relay.clone(),
            &relay.capabilities,
            &relay.secret,
            Some(account.homeserver.clone()),
            copy_text(&account.signup_token),
            Some(client.client_id.clone()),
            Some(client.client_pk.clone()),
            callbacks,
        ),
        LinkParams::SeedExport(secret) => non_auth_deep_link_details(
            scheme,
            kind,
            url,
            None,
            None,
            Some(base64url::encode(secret)),
            None,
            None,
            callbacks,
        ),
    }
}

/// Parses `url_str` as a deep link of any intent and tells what it holds. A text that is no deep
/// link is answered with the parser's message.
pub fn parse_pubky_deep_link(url_str: &str) -> (r: Result<PubkyDeepLinkDetails, String>)
    ensures
        match (deep_link::parsed_link(url_str@), r) {
            (Ok(link), Ok(details)) => details@ == details_of(link),
            (Err(message), Err(answer)) => answer@ == message,
            _ => false,
        },
{
    match Link::parse(url_str) {
        Ok(link) => Ok(deep_link_details(&link)),
        Err(message) => Err(message),
    }
}

/// Reads a link's details as those of an auth URL. Refused are a link of another kind, and a link
/// without a relay or without a secret, in this order.
pub fn auth_details(details: PubkyDeepLinkDetails) -> (r: Result<PubkyAuthDetails, String>)
    ensures
        match (auth_details_of(details@), r) {
            (Ok(expected), Ok(auth)) => auth@ == expected,
            (Err(message), Err(answer)) => answer@ == message,
            _ => false,
        },
{
    let kind: &str = details.kind.as_str();
    if !(text::same(kind, "signin") || text::same(kind, "signup") || text::same(
        kind,
        "signin_grant",
    ) || text::same(kind, "signup_grant")) {
        let mut message: String = "Invalid auth URL intent '".to_owned();
        message.append(kind);
        message.append("'");
        return Err(message);
    }
    let relay: String = match details.relay {
        Some(relay) => relay,
        None => return Err("Missing relay".to_owned()),
    };
    let capabilities: Vec<Capability> = match details.capabilities {
        Some(capabilities) => capabilities,
        None => Vec::new(),
    };
    let secret: String = match details.secret {
        Some(secret) => secret,
        None => return Err("Missing secret".to_owned()),
    };
    proof {
        if details.capabilities is None {
            assert(capabilities.deep_view() == Seq::<CapabilityView>::empty());
        }
    }
    Ok(
        PubkyAuthDetails {
            relay,
            capabilities,
            secret,
            kind: details.kind,
            homeserver: details.homeserver,
            signup_token: details.signup_token,
            client_id: details.client_id,
            client_public_key: details.client_public_key,
            x_source: details.x_source,
            x_success: details.x_success,
            x_error: details.x_error,
            x_cancel: details.x_cancel,
        },
    )
}

/// Parses `url_str` as an auth URL: a deep link that signs in or up over a relay channel. Every
/// such link is accepted. A text that is no deep link is answered with the parser's message, and a
/// deep link of another kind with its kind.
pub fn parse_pubky_auth_url(url_str: &str) -> (r: Result<PubkyAuthDetails, String>)
    ensures
        match (deep_link::parsed_link(url_str@), r) {
            (Ok(link), Ok(auth)) => {
                &&& relay_of(link.params) is Some
                &&& auth_details_of(details_of(link)) == Ok::<PubkyAuthDetailsView, Seq<char>>(
                    auth@,
                )
            },
            (Ok(link), Err(answer)) => {
                &&& relay_of(link.params) is None
                &&& answer@ == refused_kind(deep_link::intent_name(link.params))
            },
            (Err(message), Err(answer)) => answer@ == message,
            (Err(_), Ok(_)) => false,
        },
{
    match parse_pubky_deep_link(url_str) {
        Ok(details) => {
            proof {
                law_auth_links_are_auth_urls(deep_link::parsed_link(url_str@)->Ok_0);
            }
            auth_details(details)
        },
        Err(message) => Err(message),
    }
}

/// A link is a valid auth URL exactly if it opens a relay channel, and is refused for its kind
/// otherwise: no link is ever found to lack its relay or its secret.
pub proof fn law_auth_links_are_auth_urls(link: LinkView)
    ensures
        auth_details_of(details_of(link)) is Ok <==> relay_of(link.params) is Some,
        auth_details_of(details_of(link)) is Err ==> auth_details_of(details_of(link)) == Err::<
            PubkyAuthDetailsView,
            Seq<char>,
        >(refused_kind(deep_link::intent_name(link.params))),
{
    deep_link::lemma_intents_differ();
}

/// The auth details and the deep link details of an auth link agree in all that they both tell.
pub proof fn law_auth_details_agree_with_link_details(link: LinkView)
    requires
        relay_of(link.params) is Some,
    ensures
        ({
            let details = details_of(link);
            let auth = auth_details_of(details)->Ok_0;
            &&& auth_details_of(details) is Ok
            &&& details.relay == Some(auth.relay)
            &&& details.capabilities == Some(auth.capabilities)
            &&& details.secret == Some(auth.secret)
            &&& details.kind == auth.kind
            &&& details.homeserver == auth.homeserver
            &&& details.signup_token == auth.signup_token
            &&& details.client_id == auth.client_id
            &&& details.client_public_key == auth.client_public_key
            &&& details.x_source == auth.x_source
            &&& details.x_success == auth.x_success
            &&& details.x_error == auth.x_error
            &&& details.x_cancel == auth.x_cancel
        }),
{
    law_auth_links_are_auth_urls(link);
}

/// The kind of a link decides what is told of it: relay and capabilities of auth links, a
/// homeserver of links that sign up, a client of grant links, a secret of all but direct signup
/// links, and a signup token only beside a homeserver.
pub proof fn law_kind_decides_what_is_told(link: LinkView)
    ensures
        ({
            let details = details_of(link);
            let kind = details.kind;
            &&& details.relay is Some <==> is_auth_kind(kind)
            &&& details.capabilities is Some <==> is_auth_kind(kind)
            &&& details.homeserver is Some <==> (kind == "signup"@ || kind == "direct_signup"@
                || kind == "signup_grant"@)
            &&& details.signup_token is Some ==> details.homeserver is Some
            &&& details.client_id is Some <==> (kind == "signin_grant"@ || kind == "signup_grant"@)
            &&& details.client_public_key is Some <==> details.client_id is Some
            &&& details.secret is None <==> kind == "direct_signup"@
        }),
{
    deep_link::lemma_intents_differ();
}

/// Taking a capability apart loses nothing but the colon in the middle, and what it permits
/// contains none.
pub proof fn law_capability_keeps_its_text(capability: Seq<char>)
    ensures
        ({
            let parts = capability_of(capability);
            &&& capability.contains(':') ==> capability == parts.path.push(':') + parts.permission
            &&& !capability.contains(':') ==> capability == parts.path + parts.permission
            &&& !parts.permission.contains(':')
        }),
{
    text::lemma_parted_at_last(capability, ':');
    match text::parted_at_last(capability, ':') {
        Some((path, permission)) => {
            assert((path.push(':') + permission)[path.len() as int] == ':');
        },
        None => {
            assert(capability == capability + Seq::<char>::empty());
        },
    }
}

} // verus!
