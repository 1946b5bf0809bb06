use pubky::errors::{AuthError, RequestError};
use pubky::{Error, StatusCode};
use pubkycore::failure::{Failure, FailureKind};
use pubkycore::session_cache::{
    cached, clear, forget, import, is_session_rejected, refreshed_session, remember, session_for,
    with_session, CallPhase, CallVerdict, SessionCache, SessionOpError, SessionSource,
    MAX_CACHED_SESSIONS, SESSION_REJECTED,
};

fn failure(error: Error) -> Failure {
    let kind = match &error {
        Error::Authentication(_) => FailureKind::Authentication,
        Error::Request(RequestError::Server { status, .. }) => {
            FailureKind::Server { status: status.as_u16() }
        }
        Error::Request(RequestError::Transport(transport)) => FailureKind::Transport {
            url: transport.url().map(|url| url.to_string()),
        },
        _ => FailureKind::Other,
    };
    Failure { kind, text: error.to_string() }
}

fn server(status: StatusCode) -> Failure {
    failure(Error::Request(RequestError::Server {
        status,
        message: String::new(),
    }))
}

fn kept(sessions: &SessionCache<u64>, secrets: &[&str]) -> Vec<Option<u64>> {
    secrets.iter().map(|secret| cached(sessions, secret)).collect()
}

#[test]
fn only_a_refused_session_is_marked() {
    let refused =
        SessionOpError::Op(server(StatusCode::UNAUTHORIZED)).into_message("Failed to put");
    assert!(refused.starts_with(SESSION_REJECTED), "{refused}");
    assert!(refused.contains("Failed to put"), "{refused}");

    for busy in [
        StatusCode::INTERNAL_SERVER_ERROR,
        StatusCode::BAD_GATEWAY,
        StatusCode::TOO_MANY_REQUESTS,
        StatusCode::INSUFFICIENT_STORAGE,
    ] {
        let message = SessionOpError::Op(server(busy)).into_message("Failed to put");
        assert!(!message.contains(SESSION_REJECTED), "{busy}: {message}");
        assert!(message.starts_with("Failed to put"), "{busy}: {message}");
    }
}

#[test]
fn a_rejection_reported_under_the_writes_own_verb_is_still_marked() {
    let message = SessionOpError::Op(failure(Error::Authentication(AuthError::RequestExpired)))
        .into_message("Failed to delete");

    assert!(message.starts_with(SESSION_REJECTED), "{message}");
    assert!(message.contains("(authentication)"), "{message}");
}

#[test]
fn the_marker_still_reads_as_an_expiry_to_an_older_consumer() {
    let message = SessionOpError::Op(server(StatusCode::FORBIDDEN)).into_message("Failed to put");
    let lowered = message.to_lowercase();

    assert!(lowered.contains("session"), "{message}");
    assert!(lowered.contains("invalid"), "{message}");
}

#[test]
fn an_import_message_is_never_reclassified() {
    let message = SessionOpError::Import("Failed to import session: whatever".to_string())
        .into_message("Failed to put");

    assert_eq!(message, "Failed to import session: whatever");
}

#[test]
fn rejects_are_the_statuses_a_new_session_could_fix() {
    assert!(is_session_rejected(&server(StatusCode::UNAUTHORIZED)));
    assert!(is_session_rejected(&server(StatusCode::FORBIDDEN)));
    assert!(is_session_rejected(&failure(Error::Authentication(
        AuthError::RequestExpired
    ))));
}

#[test]
fn a_busy_or_full_homeserver_is_not_a_rejected_session() {
    assert!(!is_session_rejected(&server(StatusCode::TOO_MANY_REQUESTS)));
    assert!(!is_session_rejected(&server(
        StatusCode::INSUFFICIENT_STORAGE
    )));
    assert!(!is_session_rejected(&server(StatusCode::NOT_FOUND)));
    assert!(!is_session_rejected(&server(
        StatusCode::INTERNAL_SERVER_ERROR
    )));
}

#[test]
fn a_transport_failure_is_not_a_rejected_session() {
    assert!(!is_session_rejected(&failure(Error::Parse(
        url::ParseError::EmptyHost
    ))));
}

#[test]
fn a_transport_failure_that_names_its_url_is_no_rejection_either() {
    let offline = Failure {
        kind: FailureKind::Transport { url: Some("https://relay.example/401".to_string()) },
        text: "offline".to_string(),
    };
    assert!(!is_session_rejected(&offline));
    assert_eq!(
        SessionOpError::Op(offline).into_message("Failed to get"),
        "Failed to get: offline"
    );
}

#[test]
fn messages_are_worded_exactly() {
    let refused = Failure { kind: FailureKind::Server { status: 403 }, text: "no".to_string() };
    assert_eq!(
        SessionOpError::Op(refused).into_message("Failed to put"),
        "Session rejected: the homeserver refused this session as invalid: Failed to put: no"
    );
    let expired = Failure { kind: FailureKind::Authentication, text: "expired".to_string() };
    assert_eq!(
        SessionOpError::Op(expired).into_message("Failed to put"),
        "Session rejected: the homeserver refused this session as invalid: Failed to put: expired \
         (authentication)"
    );
    assert_eq!(
        SessionOpError::Op(server(StatusCode::BAD_GATEWAY)).into_message("Failed to put"),
        "Failed to put: Request failed: Server responded with an error: 502 Bad Gateway - "
    );
}

#[test]
fn a_failure_that_quotes_the_marker_is_not_marked() {
    for (verb, text) in [
        ("Failed to put", "Session rejected"),
        ("Session", "rejected"),
        ("", "Session rejected"),
        ("Session rejecte", "d"),
    ] {
        let busy = Failure {
            kind: FailureKind::Server { status: 500 },
            text: text.to_string(),
        };
        let message = SessionOpError::Op(busy).into_message(verb);
        assert_eq!(message, format!("{verb}: {text}"));
        assert!(!message.starts_with(SESSION_REJECTED), "{message}");
    }
}

#[test]
fn a_failed_import_is_classified_at_its_source() {
    let mut sessions: SessionCache<u64> = SessionCache::new();
    let trouble = import(&mut sessions, "alice", Err(server(StatusCode::INTERNAL_SERVER_ERROR)));
    assert_eq!(
        trouble.unwrap_err(),
        "Failed to import session: Request failed: Server responded with an error: \
         500 Internal Server Error - "
    );
    let refused = import(&mut sessions, "alice", Err(server(StatusCode::UNAUTHORIZED)));
    assert_eq!(
        refused.unwrap_err(),
        "Session rejected: the homeserver refused this session as invalid: Request failed: \
         Server responded with an error: 401 Unauthorized - "
    );
    let expired = Failure { kind: FailureKind::Authentication, text: "expired".to_string() };
    assert_eq!(
        import(&mut sessions, "alice", Err(expired)).unwrap_err(),
        "Session rejected: the homeserver refused this session as invalid: expired (authentication)"
    );
    assert_eq!(cached(&sessions, "alice"), None);
}

#[test]
fn a_session_is_imported_once_and_found_again() {
    let mut sessions: SessionCache<u64> = SessionCache::new();
    assert!(matches!(session_for(&sessions, "alice"), SessionSource::Import));
    assert_eq!(import(&mut sessions, "alice", Ok(7)).unwrap(), 7);
    assert!(matches!(session_for(&sessions, "alice"), SessionSource::Cached(7)));
    assert!(matches!(session_for(&sessions, "bob"), SessionSource::Import));
}

#[test]
fn a_refresh_drops_what_is_kept() {
    let mut sessions: SessionCache<u64> = SessionCache::new();
    remember(&mut sessions, "alice", &7);
    remember(&mut sessions, "bob", &8);
    assert!(matches!(refreshed_session(&mut sessions, "alice"), SessionSource::Import));
    assert_eq!(kept(&sessions, &["alice", "bob"]), vec![None, Some(8)]);
}

#[test]
fn overflow_drops_the_lot() {
    let mut sessions: SessionCache<u64> = SessionCache::new();
    assert_eq!(MAX_CACHED_SESSIONS, 4);
    let secrets = ["a", "b", "c", "d"];
    for (i, secret) in secrets.iter().enumerate() {
        remember(&mut sessions, secret, &(i as u64));
    }
    assert_eq!(kept(&sessions, &secrets), vec![Some(0), Some(1), Some(2), Some(3)]);
    remember(&mut sessions, "b", &9);
    assert_eq!(kept(&sessions, &secrets), vec![Some(0), Some(9), Some(2), Some(3)]);
    remember(&mut sessions, "e", &4);
    assert_eq!(kept(&sessions, &secrets), vec![None, None, None, None]);
    assert_eq!(cached(&sessions, "e"), Some(4));
}

#[test]
fn forgetting_undoes_remembering() {
    let mut sessions: SessionCache<u64> = SessionCache::new();
    remember(&mut sessions, "alice", &1);
    remember(&mut sessions, "bob", &2);
    forget(&mut sessions, "bob");
    forget(&mut sessions, "nobody");
    assert_eq!(kept(&sessions, &["alice", "bob"]), vec![Some(1), None]);
    clear(&mut sessions);
    assert_eq!(cached(&sessions, "alice"), None);
}

#[test]
fn a_cold_call_imports_and_runs_once() {
    let mut sessions: SessionCache<u64> = SessionCache::new();
    let (mut call, source) = with_session(&sessions, "alice");
    assert!(matches!(source, SessionSource::Import));
    assert_eq!(call.phase, CallPhase::Importing);
    assert_eq!(call.imported(&mut sessions, Ok(7)).unwrap(), 7);
    assert_eq!(call.phase, CallPhase::RunningImported);
    let verdict: CallVerdict<&str> =
        call.completed(&mut sessions, Err(server(StatusCode::UNAUTHORIZED)));
    assert!(matches!(
        verdict,
        CallVerdict::Finish(Err(SessionOpError::Op(Failure {
            kind: FailureKind::Server { status: 401 },
            ..
        })))
    ));
    assert_eq!(call.phase, CallPhase::Done);
    assert_eq!(cached(&sessions, "alice"), Some(7));
}

#[test]
fn a_cold_call_reports_a_failed_import() {
    let mut sessions: SessionCache<u64> = SessionCache::new();
    let (mut call, _) = with_session(&sessions, "alice");
    let error = call.imported(&mut sessions, Err(server(StatusCode::FORBIDDEN))).unwrap_err();
    assert_eq!(call.phase, CallPhase::Done);
    assert!(error.into_message("Failed to put").starts_with(SESSION_REJECTED));
}

#[test]
fn a_refused_kept_session_is_imported_again_and_the_call_made_once_more() {
    let mut sessions: SessionCache<u64> = SessionCache::new();
    remember(&mut sessions, "alice", &7);
    remember(&mut sessions, "bob", &8);
    let (mut call, source) = with_session(&sessions, "alice");
    assert!(matches!(source, SessionSource::Cached(7)));
    assert_eq!(call.phase, CallPhase::RunningCached);

    let verdict: CallVerdict<&str> =
        call.completed(&mut sessions, Err(server(StatusCode::UNAUTHORIZED)));
    assert!(matches!(verdict, CallVerdict::Reimport));
    assert_eq!(kept(&sessions, &["alice", "bob"]), vec![None, Some(8)]);

    assert_eq!(call.imported(&mut sessions, Ok(9)).unwrap(), 9);
    assert_eq!(kept(&sessions, &["alice", "bob"]), vec![Some(9), Some(8)]);

    let verdict = call.completed(&mut sessions, Ok("written"));
    assert!(matches!(verdict, CallVerdict::Finish(Ok("written"))));
    assert_eq!(call.phase, CallPhase::Done);
}

#[test]
fn a_busy_homeserver_costs_no_second_request() {
    let mut sessions: SessionCache<u64> = SessionCache::new();
    remember(&mut sessions, "alice", &7);
    let (mut call, _) = with_session(&sessions, "alice");
    let verdict: CallVerdict<&str> =
        call.completed(&mut sessions, Err(server(StatusCode::TOO_MANY_REQUESTS)));
    assert!(matches!(verdict, CallVerdict::Finish(Err(SessionOpError::Op(_)))));
    assert_eq!(call.phase, CallPhase::Done);
    assert_eq!(cached(&sessions, "alice"), Some(7));
}
