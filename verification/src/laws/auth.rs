//! Laws of auth URLs and deep links.
use crate::auth;
use crate::base64url;
use crate::deep_link::{AccountParams, Callbacks, ClientParams, Link, LinkParams, RelayParams};
use crate::types::{Capability, PubkyAuthDetails, PubkyDeepLinkDetails};
use vstd::prelude::*;

verus! {

/// `capability` is `text` taken apart at its last colon.
pub open spec fn is_split_of(capability: Capability, text: Seq<char>) -> bool {
    &&& !capability.permission@.contains(':')
    &&& if text.contains(':') {
        text == capability.path@ + seq![':'] + capability.permission@
    } else {
        text == capability.path@ && capability.permission@.len() == 0
    }
}

/// `capabilities` are `texts` taken apart at their last colons, one for one and in order.
pub open spec fn are_splits_of(capabilities: Seq<Capability>, texts: Seq<String>) -> bool {
    &&& capabilities.len() == texts.len()
    &&& forall|i: int|
        0 <= i < texts.len() ==> is_split_of(#[trigger] capabilities[i], texts[i]@)
}

/// An absent text.
pub open spec fn is_absent(value: Option<String>) -> bool {
    value is None
}

/// A text that is there, and is `text`.
pub open spec fn is_text(value: Option<String>, text: Seq<char>) -> bool {
    value is Some && value->0@ == text
}

/// Two texts, both absent or both there and the same.
pub open spec fn same_text(a: Option<String>, b: Option<String>) -> bool {
    match (a, b) {
        (Some(a), Some(b)) => a@ == b@,
        (None, None) => true,
        _ => false,
    }
}

/// One capability is taken apart at its last colon.
proof fn lemma_split(capability: Capability, text: Seq<char>)
    requires
        capability.deep_view() == auth::capability_of(text),
    ensures
        is_split_of(capability, text),
{
    auth::law_capability_keeps_its_text(text);
    crate::text::lemma_parted_at_last(text, ':');
    match crate::text::parted_at_last(text, ':') {
        Some((path, permission)) => {
            assert(path.push(':') == path + seq![':']);
            assert((path.push(':') + permission)[path.len() as int] == ':');
        },
        None => {},
    }
}

/// All capabilities are.
proof fn lemma_splits(capabilities: Vec<Capability>, texts: Vec<String>)
    requires
        capabilities.deep_view() == auth::capabilities_of(texts.deep_view()),
    ensures
        are_splits_of(capabilities@, texts@),
{
    assert(capabilities.deep_view().len() == texts.deep_view().len());
    assert forall|i: int| 0 <= i < texts@.len() implies is_split_of(
        #[trigger] capabilities@[i],
        texts@[i]@,
    ) by {
        assert(capabilities.deep_view()[i] == auth::capability_of(texts.deep_view()[i]));
        lemma_split(capabilities@[i], texts@[i]@);
    }
}

/// Capabilities are taken apart one for one and in order, each at its last colon. Nothing of them
/// is lost.
pub proof fn law_capabilities_are_split_in_order(texts: Vec<String>, r: Vec<Capability>)
    requires
        call_ensures(auth::convert_capabilities, (&texts,), r),
    ensures
        are_splits_of(r@, texts@),
{
    lemma_splits(r, texts);
}

/// What a link of any kind says about itself is told under its own name: its scheme, its URL, and
/// each of its callbacks.
pub proof fn law_every_link_tells_its_url_and_callbacks(link: Link, r: PubkyDeepLinkDetails)
    requires
        call_ensures(auth::deep_link_details, (&link,), r),
    ensures
        r.scheme@ == link.scheme@,
        r.url@ == link.url@,
        same_text(r.x_source, link.callbacks.x_source),
        same_text(r.x_success, link.callbacks.x_success),
        same_text(r.x_error, link.callbacks.x_error),
        same_text(r.x_cancel, link.callbacks.x_cancel),
{
}

/// The intent of a link is named by its kind.
pub proof fn law_intent_is_named_by_the_kind(params: LinkParams, r: &'static str)
    requires
        call_ensures(LinkParams::intent, (&params,), r),
    ensures
        match params {
            LinkParams::Signin(_) => r@ == "signin"@,
            LinkParams::Signup(_, _) => r@ == "signup"@,
            LinkParams::DirectSignup(_) => r@ == "direct_signup"@,
            LinkParams::SigninGrant(_, _) => r@ == "signin_grant"@,
            LinkParams::SignupGrant(_, _, _) => r@ == "signup_grant"@,
            LinkParams::SeedExport(_) => r@ == "secret_export"@,
        },
{
}

/// `r` tells of the relay channel `relay`: its relay, its capabilities taken apart, its secret.
pub open spec fn tells_relay(r: PubkyDeepLinkDetails, relay: RelayParams) -> bool {
    &&& is_text(r.relay, relay.relay@)
    &&& r.capabilities is Some
    &&& are_splits_of(r.capabilities->0@, relay.capabilities@)
    &&& is_text(r.secret, base64url::base64url(relay.secret@))
}

/// `r` tells of no relay channel.
pub open spec fn tells_no_relay(r: PubkyDeepLinkDetails) -> bool {
    is_absent(r.relay) && r.capabilities is None
}

/// `r` tells of the homeserver and the signup token of `account`.
pub open spec fn tells_account(r: PubkyDeepLinkDetails, account: AccountParams) -> bool {
    is_text(r.homeserver, account.homeserver@) && same_text(r.signup_token, account.signup_token)
}

/// `r` tells of no homeserver to sign up at.
pub open spec fn tells_no_account(r: PubkyDeepLinkDetails) -> bool {
    is_absent(r.homeserver) && is_absent(r.signup_token)
}

/// `r` tells of the id and the key of `client`.
pub open spec fn tells_client(r: PubkyDeepLinkDetails, client: ClientParams) -> bool {
    is_text(r.client_id, client.client_id@) && is_text(r.client_public_key, client.client_pk@)
}

/// `r` tells of no client.
pub open spec fn tells_no_client(r: PubkyDeepLinkDetails) -> bool {
    is_absent(r.client_id) && is_absent(r.client_public_key)
}

/// What is told of a link, kind by kind, is its own parameters, each under its own name, and
/// nothing that it does not carry.
pub proof fn law_every_kind_tells_its_own_parameters(link: Link, r: PubkyDeepLinkDetails)
    requires
        call_ensures(auth::deep_link_details, (&link,), r),
    ensures
        match link.params {
            LinkParams::Signin(relay) => {
                &&& r.kind@ == "signin"@
                &&& tells_relay(r, relay)
                &&& tells_no_account(r)
                &&& tells_no_client(r)
            },
            LinkParams::Signup(relay, account) => {
                &&& r.kind@ == "signup"@
                &&& tells_relay(r, relay)
                &&& tells_account(r, account)
                &&& tells_no_client(r)
            },
            LinkParams::DirectSignup(account) => {
                &&& r.kind@ == "direct_signup"@
                &&& tells_no_relay(r)
                &&& is_absent(r.secret)
                &&& tells_account(r, account)
                &&& tells_no_client(r)
            },
            LinkParams::SigninGrant(relay, client) => {
                &&& r.kind@ == "signin_grant"@
                &&& tells_relay(r, relay)
                &&& tells_no_account(r)
                &&& tells_client(r, client)
            },
            LinkParams::SignupGrant(relay, account, client) => {
                &&& r.kind@ == "signup_grant"@
                &&& tells_relay(r, relay)
                &&& tells_account(r, account)
                &&& tells_client(r, client)
            },
            LinkParams::SeedExport(secret) => {
                &&& r.kind@ == "secret_export"@
                &&& tells_no_relay(r)
                &&& is_text(r.secret, base64url::base64url(secret@))
                &&& tells_no_account(r)
                &&& tells_no_client(r)
            },
        },
{
    match link.params {
        LinkParams::Signin(relay) => {
            lemma_splits(r.capabilities->0, relay.capabilities);
        },
        LinkParams::Signup(relay, account) => {
            lemma_splits(r.capabilities->0, relay.capabilities);
        },
        LinkParams::SigninGrant(relay, client) => {
            lemma_splits(r.capabilities->0, relay.capabilities);
        },
        LinkParams::SignupGrant(relay, account, client) => {
            lemma_splits(r.capabilities->0, relay.capabilities);
        },
        _ => {},
    }
}

/// The details that a link with a relay channel is told by are the arguments, each in its place.
pub proof fn law_auth_link_details_are_the_arguments(
    scheme: &str,
    kind: &str,
    url: String,
    relay: RelayParams,
    homeserver: Option<String>,
    signup_token: Option<String>,
    client_id: Option<String>,
    client_public_key: Option<String>,
    callbacks: Callbacks,
    r: PubkyDeepLinkDetails,
)
    requires
        call_ensures(
            auth::auth_deep_link_details,
            (
                scheme,
                kind,
                url,
                relay.relay,
                &relay.capabilities,
                &relay.secret,
                homeserver,
                signup_token,
                client_id,
                client_public_key,
                &callbacks,
            ),
            r,
        ),
    ensures
        r.scheme@ == scheme@,
        r.kind@ == kind@,
        r.url@ == url@,
        tells_relay(r, relay),
        same_text(r.homeserver, homeserver),
        same_text(r.signup_token, signup_token),
        same_text(r.client_id, client_id),
        same_text(r.client_public_key, client_public_key),
        same_text(r.x_source, callbacks.x_source),
        same_text(r.x_success, callbacks.x_success),
        same_text(r.x_error, callbacks.x_error),
        same_text(r.x_cancel, callbacks.x_cancel),
{
    lemma_splits(r.capabilities->0, relay.capabilities);
}

/// The details that a link without a relay channel is told by are the arguments, each in its
/// place.
pub proof fn law_non_auth_link_details_are_the_arguments(
    scheme: &str,
    kind: &str,
    url: String,
    homeserver: Option<String>,
    signup_token: Option<String>,
    secret: Option<String>,
    client_id: Option<String>,
    client_public_key: Option<String>,
    callbacks: Callbacks,
    r: PubkyDeepLinkDetails,
)
    requires
        call_ensures(
            auth::non_auth_deep_link_details,
            (
                scheme,
                kind,
                url,
                homeserver,
                signup_token,
                secret,
                client_id,
                client_public_key,
                &callbacks,
            ),
            r,
        ),
    ensures
        r.scheme@ == scheme@,
        r.kind@ == kind@,
        r.url@ == url@,
        tells_no_relay(r),
        same_text(r.secret, secret),
        same_text(r.homeserver, homeserver),
        same_text(r.signup_token, signup_token),
        same_text(r.client_id, client_id),
        same_text(r.client_public_key, client_public_key),
        same_text(r.x_source, callbacks.x_source),
        same_text(r.x_success, callbacks.x_success),
        same_text(r.x_error, callbacks.x_error),
        same_text(r.x_cancel, callbacks.x_cancel),
{
}

/// The four kinds of link that an auth URL may be, by name.
pub open spec fn signs_in_or_up(kind: Seq<char>) -> bool {
    kind == "signin"@ || kind == "signup"@ || kind == "signin_grant"@ || kind == "signup_grant"@
}

/// Capabilities, both told, or none where none were told.
pub open spec fn same_capabilities(told: Option<Vec<Capability>>, r: Vec<Capability>) -> bool {
    let expected = match told {
        Some(capabilities) => capabilities@,
        None => Seq::empty(),
    };
    &&& r@.len() == expected.len()
    &&& forall|i: int|
        #![trigger r@[i]]
        0 <= i < r@.len() ==> r@[i].path@ == expected[i].path@ && r@[i].permission@
            == expected[i].permission@
}

/// `r` tells of an auth URL what `details` tell of the link, each value under the same name.
pub open spec fn tells_the_same(r: PubkyAuthDetails, details: PubkyDeepLinkDetails) -> bool {
    &&& is_text(details.relay, r.relay@)
    &&& same_capabilities(details.capabilities, r.capabilities)
    &&& is_text(details.secret, r.secret@)
    &&& r.kind@ == details.kind@
    &&& same_text(r.homeserver, details.homeserver)
    &&& same_text(r.signup_token, details.signup_token)
    &&& same_text(r.client_id, details.client_id)
    &&& same_text(r.client_public_key, details.client_public_key)
    &&& same_text(r.x_source, details.x_source)
    &&& same_text(r.x_success, details.x_success)
    &&& same_text(r.x_error, details.x_error)
    &&& same_text(r.x_cancel, details.x_cancel)
}

/// Capabilities with equal views have equal texts.
proof fn lemma_same_capabilities(told: Option<Vec<Capability>>, r: Vec<Capability>)
    requires
        r.deep_view() == match told {
            Some(capabilities) => capabilities.deep_view(),
            None => Seq::empty(),
        },
    ensures
        same_capabilities(told, r),
{
    assert(r.deep_view().len() == r@.len());
    assert forall|i: int| 0 <= i < r@.len() implies #[trigger] r.deep_view()[i]
        == r@[i].deep_view() by {}
    if let Some(capabilities) = told {
        assert(capabilities.deep_view().len() == capabilities@.len());
        assert forall|i: int| 0 <= i < r@.len() implies (#[trigger] r@[i]).path@
            == capabilities@[i].path@ && r@[i].permission@ == capabilities@[i].permission@ by {
            assert(r.deep_view()[i] == capabilities.deep_view()[i]);
        }
    }
}

/// Details are those of an auth URL exactly if the link signs in or up and has a relay and a
/// secret. They are then told unchanged. Otherwise the answer says what is wrong, the kind before
/// the relay and the relay before the secret.
pub proof fn law_auth_details_tell_what_the_link_tells(
    details: PubkyDeepLinkDetails,
    r: Result<PubkyAuthDetails, String>,
)
    requires
        call_ensures(auth::auth_details, (details,), r),
    ensures
        r is Ok <==> signs_in_or_up(details.kind@) && details.relay is Some && details.secret
            is Some,
        r matches Ok(auth) ==> tells_the_same(auth, details),
        r matches Err(answer) ==> answer@ == if !signs_in_or_up(details.kind@) {
            "Invalid auth URL intent '"@ + details.kind@ + "'"@
        } else if details.relay is None {
            "Missing relay"@
        } else {
            "Missing secret"@
        },
{
    if let Ok(auth) = r {
        lemma_same_capabilities(details.capabilities, auth.capabilities);
    }
}

/// One text read as a deep link and as an auth URL: it is an auth URL exactly if it is a deep
/// link that signs in or up, and both readings tell the same. A text that is no deep link has the
/// same answer in both, and a deep link of another kind is refused with its kind.
pub proof fn law_both_readings_of_a_text_agree(
    url: &str,
    link: Result<PubkyDeepLinkDetails, String>,
    auth: Result<PubkyAuthDetails, String>,
)
    requires
        call_ensures(auth::parse_pubky_deep_link, (url,), link),
        call_ensures(auth::parse_pubky_auth_url, (url,), auth),
    ensures
        match (link, auth) {
            (Ok(link), Ok(auth)) => signs_in_or_up(link.kind@) && tells_the_same(auth, link),
            (Ok(link), Err(answer)) => !signs_in_or_up(link.kind@) && answer@
                == "Invalid auth URL intent '"@ + link.kind@ + "'"@,
            (Err(message), Err(answer)) => answer@ == message@,
            (Err(_), Ok(_)) => false,
        },
{
    crate::deep_link::lemma_intents_differ();
    if let (Ok(link), Ok(auth)) = (link, auth) {
        lemma_same_capabilities(link.capabilities, auth.capabilities);
    }
}

/// Reading a text as a deep link is parsing it and telling of the link that comes out.
pub proof fn law_a_text_is_told_by_its_link(
    url: &str,
    link: Link,
    parsed: Result<Link, String>,
    told: PubkyDeepLinkDetails,
    r: Result<PubkyDeepLinkDetails, String>,
)
    requires
        call_ensures(Link::parse, (url,), parsed),
        parsed == Ok::<Link, String>(link),
        call_ensures(auth::deep_link_details, (&link,), told),
        call_ensures(auth::parse_pubky_deep_link, (url,), r),
    ensures
        r matches Ok(details) && details.scheme@ == told.scheme@ && details.kind@ == told.kind@
            && details.url@ == told.url@ && same_text(details.relay, told.relay) && same_text(
            details.secret,
            told.secret,
        ) && same_text(details.homeserver, told.homeserver) && same_text(
            details.signup_token,
            told.signup_token,
        ) && same_text(details.client_id, told.client_id) && same_text(
            details.client_public_key,
            told.client_public_key,
        ) && same_text(details.x_source, told.x_source) && same_text(
            details.x_success,
            told.x_success,
        ) && same_text(details.x_error, told.x_error) && same_text(details.x_cancel, told.x_cancel)
            && details.capabilities.deep_view() == told.capabilities.deep_view(),
{
}

/// A text that is no deep link is answered with the parser's message.
pub proof fn law_a_refused_text_has_the_parsers_answer(
    url: &str,
    parsed: Result<Link, String>,
    r: Result<PubkyDeepLinkDetails, String>,
)
    requires
        call_ensures(Link::parse, (url,), parsed),
        call_ensures(auth::parse_pubky_deep_link, (url,), r),
    ensures
        r is Err <==> parsed is Err,
        parsed matches Err(message) ==> r->Err_0@ == message@,
{
}

/// A parsed link holds what the parser found in the text, each value in its place, and a refusal
/// is the parser's.
pub proof fn law_a_parsed_link_is_the_parsers(url: &str, r: Result<Link, String>)
    requires
        call_ensures(Link::parse, (url,), r),
    ensures
        match (crate::deep_link::parsed_link(url@), r) {
            (Ok(found), Ok(link)) => {
                &&& link.scheme@ == found.scheme
                &&& link.url@ == found.url
                &&& link.params@ == found.params
                &&& link.callbacks.x_source.deep_view() == found.callbacks.x_source
                &&& link.callbacks.x_success.deep_view() == found.callbacks.x_success
                &&& link.callbacks.x_error.deep_view() == found.callbacks.x_error
                &&& link.callbacks.x_cancel.deep_view() == found.callbacks.x_cancel
            },
            (Err(message), Err(answer)) => answer@ == message,
            _ => false,
        },
{
}

/// A secret is written in 43 characters, all of them safe in a URL.
pub proof fn law_a_secret_is_written_url_safe(secret: [u8; 32], i: int)
    requires
        0 <= i < 43,
    ensures
        base64url::base64url(secret@).len() == 43,
        ({
            let c = base64url::base64url(secret@)[i];
            'A' <= c <= 'Z' || 'a' <= c <= 'z' || '0' <= c <= '9' || c == '-' || c == '_'
        }),
{
    let bits = base64url::six_bits(secret@, i);
    assert(0 <= bits < 64);
    assert(base64url::base64url(secret@)[i] == base64url::digit(bits));
}

} // verus!
