use pubkycore::auth::{
    auth_details, convert_capabilities, deep_link_details, parse_pubky_auth_url,
    parse_pubky_deep_link,
};
use pubkycore::deep_link::{
    AccountParams, Callbacks, ClientParams, Link, LinkParams, RelayParams,
};
use pubkycore::types::{Capability, PubkyDeepLinkDetails};

const SECRET: &str = "AAECAwQFBgcICQoLDA0ODxAREhMUFRYXGBkaGxwdHh8";
const KEY: &str = "5jsjx1o6fzu6aeeo697r3i5rx15zq41kikcye8wtwdqm4nb4tryo";
const RELAY: &str = "https://httprelay.pubky.app/inbox";

fn auth_url(head: &str, more: &str) -> String {
    format!("{head}?caps=/pub/pubky.app/:rw,/pub/other/:r&secret={SECRET}&relay={RELAY}{more}")
}

fn counted() -> [u8; 32] {
    let mut bytes = [0u8; 32];
    for (i, byte) in bytes.iter_mut().enumerate() {
        *byte = i as u8;
    }
    bytes
}

fn pairs(capabilities: &[Capability]) -> Vec<(&str, &str)> {
    capabilities
        .iter()
        .map(|capability| (capability.path.as_str(), capability.permission.as_str()))
        .collect()
}

fn no_callbacks() -> Callbacks {
    Callbacks { x_source: None, x_success: None, x_error: None, x_cancel: None }
}

fn link(params: LinkParams) -> Link {
    Link {
        scheme: "pubkyauth".to_string(),
        url: "pubkyauth://somewhere".to_string(),
        params,
        callbacks: no_callbacks(),
    }
}

fn relay_params() -> RelayParams {
    RelayParams {
        relay: RELAY.to_string(),
        capabilities: vec!["/:rw".to_string()],
        secret: [255; 32],
    }
}

fn account() -> AccountParams {
    AccountParams { homeserver: KEY.to_string(), signup_token: Some("token".to_string()) }
}

fn client() -> ClientParams {
    ClientParams { client_id: "my.app".to_string(), client_pk: KEY.to_string() }
}

fn details() -> PubkyDeepLinkDetails {
    deep_link_details(&link(LinkParams::Signin(relay_params())))
}

#[test]
fn a_signin_link_is_read() {
    let url = auth_url("pubkyauth://signin", "");
    let link = parse_pubky_deep_link(&url).unwrap();
    assert_eq!(link.scheme, "pubkyauth");
    assert_eq!(link.kind, "signin");
    assert_eq!(
        link.url,
        format!(
            "pubkyauth://signin?caps=%2Fpub%2Fpubky.app%2F%3Arw%2C%2Fpub%2Fother%2F%3Ar\
             &relay=https%3A%2F%2Fhttprelay.pubky.app%2Finbox&secret={SECRET}"
        )
    );
    assert_eq!(link.relay.as_deref(), Some(RELAY));
    assert_eq!(
        pairs(&link.capabilities.unwrap()),
        vec![("/pub/pubky.app/", "rw"), ("/pub/other/", "r")]
    );
    assert_eq!(link.secret.as_deref(), Some(SECRET));
    assert_eq!(link.homeserver, None);
    assert_eq!(link.signup_token, None);
    assert_eq!(link.client_id, None);
    assert_eq!(link.client_public_key, None);
    assert_eq!(link.x_source, None);

    let auth = parse_pubky_auth_url(&url).unwrap();
    assert_eq!(auth.kind, "signin");
    assert_eq!(auth.relay, RELAY);
    assert_eq!(auth.secret, SECRET);
    assert_eq!(
        pairs(&auth.capabilities),
        vec![("/pub/pubky.app/", "rw"), ("/pub/other/", "r")]
    );
}

#[test]
fn a_legacy_url_without_intent_is_a_signin() {
    let auth = parse_pubky_auth_url(&auth_url("pubkyauth:///", "")).unwrap();
    assert_eq!(auth.kind, "signin");
    assert_eq!(auth.relay, RELAY);
}

#[test]
fn the_deprecated_scheme_is_reported() {
    let link = parse_pubky_deep_link(&auth_url("pubkyring://signin", "")).unwrap();
    assert_eq!(link.scheme, "pubkyring");
    assert!(link.url.starts_with("pubkyring://signin?"));
}

#[test]
fn a_signup_link_names_its_homeserver() {
    let url = auth_url("pubkyauth://signup", &format!("&hs={KEY}&st=1234"));
    let auth = parse_pubky_auth_url(&url).unwrap();
    assert_eq!(auth.kind, "signup");
    assert_eq!(auth.homeserver.as_deref(), Some(KEY));
    assert_eq!(auth.signup_token.as_deref(), Some("1234"));
    assert_eq!(auth.client_id, None);

    let url = auth_url("pubkyauth://signup", &format!("&hs={KEY}"));
    let auth = parse_pubky_auth_url(&url).unwrap();
    assert_eq!(auth.homeserver.as_deref(), Some(KEY));
    assert_eq!(auth.signup_token, None);
}

#[test]
fn grant_links_name_their_client() {
    let url = auth_url("pubkyauth://signin_grant", &format!("&cid=my.app&cpk={KEY}"));
    let auth = parse_pubky_auth_url(&url).unwrap();
    assert_eq!(auth.kind, "signin_grant");
    assert_eq!(auth.client_id.as_deref(), Some("my.app"));
    assert_eq!(auth.client_public_key.as_deref(), Some(KEY));
    assert_eq!(auth.homeserver, None);

    let url = auth_url(
        "pubkyauth://signup_grant",
        &format!("&hs={KEY}&st=1234&cid=my.app&cpk={KEY}"),
    );
    let auth = parse_pubky_auth_url(&url).unwrap();
    assert_eq!(auth.kind, "signup_grant");
    assert_eq!(auth.client_id.as_deref(), Some("my.app"));
    assert_eq!(auth.homeserver.as_deref(), Some(KEY));
    assert_eq!(auth.signup_token.as_deref(), Some("1234"));
}

#[test]
fn callbacks_are_passed_on() {
    let url = auth_url(
        "pubkyauth://signin",
        "&x-source=My%20App&x-success=app%3A%2F%2Fok&x-error=app%3A%2F%2Fno&x-cancel=app%3A%2F%2Foff",
    );
    let link = parse_pubky_deep_link(&url).unwrap();
    assert_eq!(link.x_source.as_deref(), Some("My App"));
    assert_eq!(link.x_success.as_deref(), Some("app://ok"));
    assert_eq!(link.x_error.as_deref(), Some("app://no"));
    assert_eq!(link.x_cancel.as_deref(), Some("app://off"));
    let auth = parse_pubky_auth_url(&url).unwrap();
    assert_eq!(auth.x_source.as_deref(), Some("My App"));
    assert_eq!(auth.x_success.as_deref(), Some("app://ok"));
    assert_eq!(auth.x_error.as_deref(), Some("app://no"));
    assert_eq!(auth.x_cancel.as_deref(), Some("app://off"));
}

#[test]
fn links_that_open_no_channel_are_no_auth_urls() {
    let url = format!("pubkyauth://direct_signup?hs={KEY}&st=1234");
    let link = parse_pubky_deep_link(&url).unwrap();
    assert_eq!(link.kind, "direct_signup");
    assert_eq!(link.homeserver.as_deref(), Some(KEY));
    assert_eq!(link.signup_token.as_deref(), Some("1234"));
    assert!(link.relay.is_none());
    assert!(link.capabilities.is_none());
    assert!(link.secret.is_none());
    assert_eq!(
        parse_pubky_auth_url(&url).unwrap_err(),
        "Invalid auth URL intent 'direct_signup'"
    );

    let url = format!("pubkyauth://secret_export?secret={SECRET}");
    let link = parse_pubky_deep_link(&url).unwrap();
    assert_eq!(link.kind, "secret_export");
    assert_eq!(link.secret.as_deref(), Some(SECRET));
    assert!(link.relay.is_none());
    assert!(link.capabilities.is_none());
    assert_eq!(link.url, url);
    assert_eq!(
        parse_pubky_auth_url(&url).unwrap_err(),
        "Invalid auth URL intent 'secret_export'"
    );
}

#[test]
fn the_parsers_message_answers_what_is_no_deep_link() {
    for (url, message) in [
        ("https://signin?caps=/:rw", "Invalid schema. Expected pubkyauth or pubkyring"),
        ("pubkyauth://elsewhere", "Invalid intent. Expected Intent not recognized."),
        ("pubkyauth://signin?relay=x", "Missing query parameter caps"),
        ("not a url", "Failed to parse URL"),
    ] {
        assert_eq!(parse_pubky_deep_link(url).unwrap_err(), message);
        assert_eq!(parse_pubky_auth_url(url).unwrap_err(), message);
    }
}

#[test]
fn secrets_are_written_in_url_safe_base64_without_padding() {
    let export = deep_link_details(&link(LinkParams::SeedExport(counted())));
    assert_eq!(export.secret.as_deref(), Some(SECRET));
    let mut changed = counted();
    changed[31] ^= 1;
    let other = deep_link_details(&link(LinkParams::SeedExport(changed)));
    assert_ne!(other.secret, export.secret);
    let signin = details();
    assert_eq!(
        signin.secret.as_deref(),
        Some("__________________________________________8")
    );
}

#[test]
fn each_intent_tells_what_it_has() {
    let signup = deep_link_details(&link(LinkParams::Signup(relay_params(), account())));
    assert_eq!(signup.kind, "signup");
    assert_eq!(signup.relay.as_deref(), Some(RELAY));
    assert_eq!(signup.homeserver.as_deref(), Some(KEY));
    assert_eq!(signup.signup_token.as_deref(), Some("token"));
    assert_eq!(signup.client_id, None);

    let direct = deep_link_details(&link(LinkParams::DirectSignup(account())));
    assert_eq!(direct.kind, "direct_signup");
    assert_eq!(direct.relay, None);
    assert_eq!(direct.secret, None);
    assert_eq!(direct.homeserver.as_deref(), Some(KEY));

    let grant = deep_link_details(&link(LinkParams::SignupGrant(
        relay_params(),
        account(),
        client(),
    )));
    assert_eq!(grant.kind, "signup_grant");
    assert_eq!(grant.homeserver.as_deref(), Some(KEY));
    assert_eq!(grant.client_id.as_deref(), Some("my.app"));
    assert_eq!(grant.client_public_key.as_deref(), Some(KEY));

    let grant = deep_link_details(&link(LinkParams::SigninGrant(relay_params(), client())));
    assert_eq!(grant.kind, "signin_grant");
    assert_eq!(grant.homeserver, None);
    assert_eq!(grant.client_id.as_deref(), Some("my.app"));
    assert_eq!(grant.url, "pubkyauth://somewhere");
}

#[test]
fn auth_details_need_a_relay_and_a_secret() {
    let mut without_both = details();
    without_both.relay = None;
    without_both.secret = None;
    assert_eq!(auth_details(without_both).unwrap_err(), "Missing relay");

    let mut without_secret = details();
    without_secret.secret = None;
    assert_eq!(auth_details(without_secret).unwrap_err(), "Missing secret");

    let mut without_capabilities = details();
    without_capabilities.capabilities = None;
    assert!(auth_details(without_capabilities).unwrap().capabilities.is_empty());

    let mut of_another_kind = details();
    of_another_kind.kind = "Signin".to_string();
    of_another_kind.relay = None;
    assert_eq!(
        auth_details(of_another_kind).unwrap_err(),
        "Invalid auth URL intent 'Signin'"
    );
}

#[test]
fn capabilities_are_taken_apart_at_their_last_colon() {
    let texts = ["/pub/:rw", "/a:b:r", "/plain", "", ":", "/ü/:w", "/x:"];
    let converted = convert_capabilities(&texts.iter().map(|text| text.to_string()).collect());
    assert_eq!(
        pairs(&converted),
        vec![
            ("/pub/", "rw"),
            ("/a:b", "r"),
            ("/plain", ""),
            ("", ""),
            ("", ""),
            ("/ü/", "w"),
            ("/x", ""),
        ]
    );
}
