use pubkycore::failure::{Failure, FailureKind};
use pubkycore::grant_resume::{
    await_resuming, current, find_value, forget, is_current, is_relay_transport_failure, remember,
    remember_relay, resume_delay, GrantFlowState, GrantFlows, MAX_BACKOFF, MAX_OUTAGE,
    QUICK_FAILURE, RESUME_WINDOW, SECOND,
};

const URL: &str = "pubkyauth://signin_grant?caps=&relay=https%3A%2F%2Frelay.example%2Finbox";
const QUERY: &str = "caps=&relay=https%3A%2F%2Frelay.example%2Finbox&relay=other";
const RELAY: &str = "https://relay.example/inbox";

fn state(url: &str) -> Option<GrantFlowState> {
    Some(GrantFlowState { authorization_url: url.to_string(), client_key_secret: [3; 32] })
}

fn transport(url: Option<&str>) -> Failure {
    Failure {
        kind: FailureKind::Transport { url: url.map(str::to_string) },
        text: "could not connect".to_string(),
    }
}

fn started(now: u128) -> GrantFlows {
    let mut flows = GrantFlows::new();
    remember(&mut flows, QUERY, state(URL), now);
    flows
}

#[test]
fn a_started_flow_is_pending_with_its_decoded_relay() {
    let flows = started(5);
    let pending = current(&flows).unwrap();
    assert_eq!(pending.generation, 1);
    assert_eq!(pending.relay, RELAY);
    assert_eq!(pending.started, 5);
    assert_eq!(pending.state.authorization_url, URL);
    assert_eq!(pending.state.client_key_secret, [3; 32]);
    assert!(is_current(&flows, 1));
    assert!(!is_current(&flows, 0));
}

#[test]
fn a_flow_without_relay_or_state_is_not_saved_but_still_supersedes() {
    let mut flows = started(0);
    remember(&mut flows, "caps=&relays=x", state(URL), 1);
    assert!(current(&flows).is_none());
    assert!(is_current(&flows, 2));
    remember(&mut flows, QUERY, None, 2);
    assert!(current(&flows).is_none());
    assert!(is_current(&flows, 3));
    remember_relay(&mut flows, Some(RELAY.to_string()), state(URL), 3);
    assert_eq!(current(&flows).unwrap().generation, 4);
}

#[test]
fn the_first_value_of_a_key_counts() {
    let pairs = vec![
        ("a".to_string(), "1".to_string()),
        ("relay".to_string(), "2".to_string()),
        ("relay".to_string(), "3".to_string()),
    ];
    assert_eq!(find_value(&pairs, "relay").as_deref(), Some("2"));
    assert_eq!(find_value(&pairs, "rela"), None);
    assert_eq!(find_value(&Vec::new(), "relay"), None);
}

#[test]
fn forgetting_drops_only_its_own_generation() {
    let mut flows = started(0);
    remember(&mut flows, QUERY, state(URL), 1);
    forget(&mut flows, 1);
    assert_eq!(current(&flows).unwrap().generation, 2);
    forget(&mut flows, 2);
    assert!(current(&flows).is_none());
    forget(&mut flows, 2);
    assert!(current(&flows).is_none());
    assert!(is_current(&flows, 2));
}

#[test]
fn only_a_transport_failure_at_the_relay_counts() {
    for relay in [RELAY, "https://relay.example/inbox/", "https://relay.example/inbox///"] {
        assert!(is_relay_transport_failure(&transport(Some(RELAY)), relay));
        assert!(is_relay_transport_failure(
            &transport(Some("https://relay.example/inbox/abc")),
            relay
        ));
        assert!(is_relay_transport_failure(
            &transport(Some("https://relay.example/inbox/")),
            relay
        ));
        assert!(!is_relay_transport_failure(
            &transport(Some("https://relay.example/inboxes")),
            relay
        ));
        assert!(!is_relay_transport_failure(
            &transport(Some("https://homeserver.example/session")),
            relay
        ));
        assert!(!is_relay_transport_failure(&transport(Some("https://relay")), relay));
        assert!(!is_relay_transport_failure(&transport(None), relay));
        for kind in [
            FailureKind::Authentication,
            FailureKind::Server { status: 500 },
            FailureKind::Other,
        ] {
            let failure = Failure { kind, text: RELAY.to_string() };
            assert!(!is_relay_transport_failure(&failure, relay));
        }
    }
}

#[test]
fn waits_double_up_to_eight_seconds() {
    let waits: Vec<Option<u128>> = (0..6).map(|n| resume_delay(n, 0, 0)).collect();
    assert_eq!(
        waits,
        vec![
            Some(SECOND),
            Some(2 * SECOND),
            Some(4 * SECOND),
            Some(8 * SECOND),
            Some(8 * SECOND),
            Some(MAX_BACKOFF)
        ]
    );
    let last = RESUME_WINDOW - 1;
    assert_eq!(resume_delay(u32::MAX, MAX_OUTAGE - 1, last), Some(MAX_BACKOFF));
    assert!(last + MAX_BACKOFF < 180 * SECOND);
}

#[test]
fn an_outage_or_a_flow_that_lasts_too_long_is_given_up() {
    assert_eq!(resume_delay(0, MAX_OUTAGE, 0), None);
    assert_eq!(resume_delay(0, 0, RESUME_WINDOW), None);
    assert_eq!(QUICK_FAILURE, 5 * SECOND);
    assert_eq!(MAX_OUTAGE, 90 * SECOND);
    assert_eq!(RESUME_WINDOW, 170 * SECOND);
}

#[test]
fn a_dead_poll_is_rejoined_and_an_approval_ends_it() {
    let mut flows = started(0);
    let mut resume = await_resuming(&flows, URL, 1);
    assert_eq!(resume.clock.listening_since, 0);
    // A poll that was held open: no outage, and the shortest wait.
    let failed = resume.failed(&mut flows, &transport(Some(RELAY)), 30 * SECOND);
    assert_eq!(failed, Some(SECOND));
    assert_eq!(resume.clock.outage_since, None);
    assert!(resume.rejoins(&flows));
    resume.restored(31 * SECOND);
    // Two listeners that died on arrival: an outage since the first of them started.
    let failed = resume.failed(&mut flows, &transport(Some(RELAY)), 32 * SECOND);
    assert_eq!(failed, Some(2 * SECOND));
    resume.restored(34 * SECOND);
    let failed = resume.failed(&mut flows, &transport(Some(RELAY)), 35 * SECOND);
    assert_eq!(failed, Some(4 * SECOND));
    assert_eq!(resume.clock.outage_since, Some(31 * SECOND));
    assert_eq!(resume.clock.quick_failures, 2);
    assert!(current(&flows).is_some());
    resume.approved(&mut flows);
    assert!(current(&flows).is_none());
}

#[test]
fn a_failure_elsewhere_is_final_and_drops_the_flow() {
    let mut flows = started(0);
    let mut resume = await_resuming(&flows, URL, 0);
    let elsewhere = transport(Some("https://homeserver.example/session"));
    assert_eq!(resume.failed(&mut flows, &elsewhere, SECOND), None);
    assert!(current(&flows).is_none());
}

#[test]
fn a_long_outage_is_given_up_and_drops_the_flow() {
    let mut flows = started(0);
    let mut resume = await_resuming(&flows, URL, 0);
    let mut now = 0;
    let mut rejoins = 0;
    loop {
        now += SECOND;
        match resume.failed(&mut flows, &transport(Some(RELAY)), now) {
            Some(delay) => now += delay,
            None => break,
        }
        assert!(resume.rejoins(&flows));
        resume.restored(now);
        rejoins += 1;
    }
    // Waits of 2, 4 and then 8 seconds, each followed by a listener that lives for one.
    assert_eq!(rejoins, 11);
    assert_eq!(now, 90 * SECOND);
    assert!(current(&flows).is_none());
}

#[test]
fn a_superseded_loop_stops_and_leaves_the_new_flow_alone() {
    let mut flows = started(0);
    let mut resume = await_resuming(&flows, URL, 0);
    assert_eq!(resume.failed(&mut flows, &transport(Some(RELAY)), SECOND), Some(2 * SECOND));
    remember(&mut flows, QUERY, state("pubkyauth://signin_grant?other"), 2 * SECOND);
    assert!(!resume.rejoins(&flows));
    assert_eq!(resume.failed(&mut flows, &transport(Some(RELAY)), 3 * SECOND), None);
    resume.restore_failed(&mut flows);
    assert_eq!(current(&flows).unwrap().generation, 2);
}

#[test]
fn a_flow_whose_restore_fails_is_dropped() {
    let mut flows = started(0);
    let resume = await_resuming(&flows, URL, 0);
    resume.restore_failed(&mut flows);
    assert!(current(&flows).is_none());
}

#[test]
fn a_flow_that_is_not_the_saved_one_is_not_resumed() {
    let mut flows = started(0);
    let mut resume = await_resuming(&flows, "pubkyauth://signin_grant?other", 7);
    assert!(resume.pending.is_none());
    assert_eq!(resume.clock.listening_since, 7);
    assert_eq!(resume.failed(&mut flows, &transport(Some(RELAY)), SECOND), None);
    assert!(!resume.rejoins(&flows));
    resume.approved(&mut flows);
    assert!(current(&flows).is_some());
}
