//! Laws of kept sessions and of the calls made with them.
use crate::failure::{Failure, FailureKind};
use crate::session_cache;
use crate::session_cache::{
    CallVerdict, SessionCache, SessionCall, SessionOpError, SessionSource,
};
use vstd::prelude::*;

verus! {

/// What a homeserver fails a request with that no longer accepts the session: a failed
/// authentication, or the status "unauthorized" or "forbidden".
pub open spec fn refuses_the_session(failure: Failure) -> bool {
    match failure.kind {
        FailureKind::Authentication => true,
        FailureKind::Server { status } => status == 401 || status == 403,
        FailureKind::Transport { url } => false,
        FailureKind::Other => false,
    }
}

/// How a refusal of the session is worded, with the given detail.
pub open spec fn refusal(failure: Failure, detail: Seq<char>) -> Seq<char> {
    let sentence =
        "Session rejected: the homeserver refused this session as invalid: "@ + detail;
    if failure.kind is Authentication {
        sentence + " (authentication)"@
    } else {
        sentence
    }
}

/// How the failure of an import is worded.
pub open spec fn import_report(failure: Failure) -> Seq<char> {
    if refuses_the_session(failure) {
        refusal(failure, failure.text@)
    } else {
        "Failed to import session: "@ + failure.text@
    }
}

/// `after` is what is kept after a session was kept for `secret` in `before`: the others stay
/// while there is room for four or the secret is known, and all go otherwise.
pub open spec fn keeps_within_four<S>(
    before: Map<Seq<char>, S>,
    secret: Seq<char>,
    after: Map<Seq<char>, S>,
) -> bool {
    &&& after.contains_key(secret)
    &&& forall|other: Seq<char>|
        other != secret ==> {
            &&& #[trigger] after.contains_key(other) <==> before.contains_key(other) && (
            before.contains_key(secret) || before.len() < 4)
            &&& after.contains_key(other) ==> after[other] == before[other]
        }
}

/// `after` is `before` with nothing kept for `secret`, and everything else as it was.
pub open spec fn loses_only<S>(
    before: Map<Seq<char>, S>,
    secret: Seq<char>,
    after: Map<Seq<char>, S>,
) -> bool {
    &&& !after.contains_key(secret)
    &&& forall|other: Seq<char>|
        other != secret ==> {
            &&& #[trigger] after.contains_key(other) <==> before.contains_key(other)
            &&& after.contains_key(other) ==> after[other] == before[other]
        }
}

/// The messages are worded in full as their parts are.
proof fn lemma_wording(failure: Failure, verb: Seq<char>)
    ensures
        session_cache::import_message(failure) == import_report(failure),
        session_cache::op_message(failure, verb) == if refuses_the_session(failure) {
            refusal(failure, verb + ": "@ + failure.text@)
        } else {
            verb + ": "@ + failure.text@
        },
{
    reveal_strlit("Session rejected");
    reveal_strlit(": the homeserver refused this session as invalid: ");
    reveal_strlit("Session rejected: the homeserver refused this session as invalid: ");
    reveal_strlit("Failed to import session");
    reveal_strlit("Failed to import session: ");
    reveal_strlit(": ");
    assert("Session rejected"@ + ": the homeserver refused this session as invalid: "@
        =~= "Session rejected: the homeserver refused this session as invalid: "@);
    assert("Failed to import session"@ + ": "@ =~= "Failed to import session: "@);
    assert(session_cache::import_message(failure) =~= import_report(failure));
    assert(session_cache::op_message(failure, verb) =~= if refuses_the_session(failure) {
        refusal(failure, verb + ": "@ + failure.text@)
    } else {
        verb + ": "@ + failure.text@
    });
}

/// Only a failed authentication and the statuses "unauthorized" and "forbidden" are refusals of
/// the session. No other status is, and no failure that is not the homeserver's answer.
pub proof fn law_a_refusal_is_unauthorized_or_forbidden(failure: Failure, r: bool)
    requires
        call_ensures(session_cache::is_session_rejected, (&failure,), r),
    ensures
        failure.kind is Authentication ==> r,
        failure.kind matches FailureKind::Server { status } ==> (r <==> status == 401 || status
            == 403),
        failure.kind is Transport ==> !r,
        failure.kind is Other ==> !r,
{
}

/// The message of a failed call: that of a failed import is passed on; any other is worded by the
/// caller's verb and the failure's own text, and a refusal of the session says so around it.
pub proof fn law_a_message_is_the_verb_and_the_failure(
    error: SessionOpError,
    verb: &str,
    r: String,
)
    requires
        call_ensures(SessionOpError::into_message, (error, verb), r),
    ensures
        match error {
            SessionOpError::Import(message) => r@ == message@,
            SessionOpError::Op(failure) => r@ == if refuses_the_session(failure) {
                refusal(failure, verb@ + ": "@ + failure.text@)
            } else {
                verb@ + ": "@ + failure.text@
            },
        },
{
    if let SessionOpError::Op(failure) = error {
        lemma_wording(failure, verb@);
    }
}

/// A new cache holds a session for no secret.
pub proof fn law_a_new_cache_is_empty<S: Clone>(
    sessions: SessionCache<S>,
    secret: &str,
    r: Option<S>,
)
    requires
        call_ensures(SessionCache::<S>::new, (), sessions),
        call_ensures(session_cache::cached::<S>, (&sessions, secret), r),
    ensures
        r is None,
{
}

/// A session that was kept is what is found for its secret afterwards, as a clone, whatever was
/// kept before.
pub proof fn law_a_kept_session_is_found<S: Clone>()
    ensures
        forall|
            sessions: &mut SessionCache<S>,
            secret: &str,
            session: &S,
            after: SessionCache<S>,
            r: Option<S>,
        |
            #[trigger] call_ensures(session_cache::remember::<S>, (sessions, secret, session), ())
                && #[trigger] call_ensures(session_cache::cached::<S>, (&after, secret), r)
                && after == *final(sessions) && sessions.wf() ==> {
                &&& r is Some
                &&& exists|kept: S| #[trigger] cloned(*session, kept) && cloned(kept, r->0)
            },
{
    assert forall|
        sessions: &mut SessionCache<S>,
        secret: &str,
        session: &S,
        after: SessionCache<S>,
        r: Option<S>,
    |
        #[trigger] call_ensures(session_cache::remember::<S>, (sessions, secret, session), ())
            && #[trigger] call_ensures(session_cache::cached::<S>, (&after, secret), r) && after
            == *final(sessions) && sessions.wf() implies {
        &&& r is Some
        &&& exists|kept: S| #[trigger] cloned(*session, kept) && cloned(kept, r->0)
    } by {
        let kept = after@[secret@];
        assert(cloned(*session, kept) && cloned(kept, r->0));
    }
}

/// Keeping a session leaves the others as they are while there is room for four or its secret is
/// known already, and drops them all otherwise. The cache never holds more than four.
pub proof fn law_keeping_a_session_spares_the_others<S: Clone>()
    ensures
        forall|sessions: &mut SessionCache<S>, secret: &str, session: &S|
            #[trigger] call_ensures(session_cache::remember::<S>, (sessions, secret, session), ())
                && sessions.wf() ==> {
                &&& keeps_within_four(sessions@, secret@, final(sessions)@)
                &&& final(sessions)@.len() <= 4
                &&& cloned(*session, final(sessions)@[secret@])
            },
{
}

/// A session that was dropped is not found any more, and every other still is.
pub proof fn law_a_dropped_session_is_not_found<S: Clone>()
    ensures
        forall|
            sessions: &mut SessionCache<S>,
            secret: &str,
            after: SessionCache<S>,
            other: &str,
            r: Option<S>,
        |
            #[trigger] call_ensures(session_cache::forget::<S>, (sessions, secret), ())
                && #[trigger] call_ensures(session_cache::cached::<S>, (&after, other), r) && after
                == *final(sessions) && sessions.wf() ==> match r {
                Some(session) => other@ != secret@ && sessions@.contains_key(other@) && cloned(
                    sessions@[other@],
                    session,
                ),
                None => other@ == secret@ || !sessions@.contains_key(other@),
            },
        forall|sessions: &mut SessionCache<S>, secret: &str|
            #[trigger] call_ensures(session_cache::forget::<S>, (sessions, secret), ())
                && sessions.wf() ==> loses_only(sessions@, secret@, final(sessions)@),
{
}

/// After a switch of the network no session is found for any secret.
pub proof fn law_a_cleared_cache_is_empty<S: Clone>()
    ensures
        forall|sessions: &mut SessionCache<S>, after: SessionCache<S>, secret: &str, r: Option<S>|
            #[trigger] call_ensures(session_cache::clear::<S>, (sessions,), ())
                && #[trigger] call_ensures(session_cache::cached::<S>, (&after, secret), r) && after
                == *final(sessions) ==> r is None,
{
}

/// The outcome of an import: a session is handed on and kept, a failure is reported and leaves
/// the cache as it was.
pub proof fn law_an_import_is_kept_or_reported<S: Clone>()
    ensures
        forall|
            sessions: &mut SessionCache<S>,
            secret: &str,
            outcome: Result<S, Failure>,
            r: Result<S, String>,
        |
            #[trigger] call_ensures(session_cache::import::<S>, (sessions, secret, outcome), r)
                && sessions.wf() ==> match outcome {
                Ok(session) => {
                    &&& r == Ok::<S, String>(session)
                    &&& keeps_within_four(sessions@, secret@, final(sessions)@)
                    &&& cloned(session, final(sessions)@[secret@])
                },
                Err(failure) => {
                    &&& r is Err
                    &&& r->Err_0@ == import_report(failure)
                    &&& final(sessions)@ == sessions@
                },
            },
{
    assert forall|
        sessions: &mut SessionCache<S>,
        secret: &str,
        outcome: Result<S, Failure>,
        r: Result<S, String>,
    |
        #[trigger] call_ensures(session_cache::import::<S>, (sessions, secret, outcome), r)
            && sessions.wf() implies match outcome {
        Ok(session) => {
            &&& r == Ok::<S, String>(session)
            &&& keeps_within_four(sessions@, secret@, final(sessions)@)
            &&& cloned(session, final(sessions)@[secret@])
        },
        Err(failure) => {
            &&& r is Err
            &&& r->Err_0@ == import_report(failure)
            &&& final(sessions)@ == sessions@
        },
    } by {
        if let Err(failure) = outcome {
            lemma_wording(failure, Seq::empty());
        }
    }
}

/// A session is imported exactly where none is found for the secret.
pub proof fn law_a_found_session_is_not_imported<S: Clone>(
    sessions: SessionCache<S>,
    secret: &str,
    found: Option<S>,
    r: SessionSource<S>,
)
    requires
        call_ensures(session_cache::cached::<S>, (&sessions, secret), found),
        call_ensures(session_cache::session_for::<S>, (&sessions, secret), r),
    ensures
        r is Import <==> found is None,
        r matches SessionSource::Cached(session) ==> cloned(sessions@[secret@], session),
{
}

/// A session that is to be asked for afresh is always imported, and the one that was kept is
/// gone.
pub proof fn law_a_refreshed_session_is_imported<S>()
    ensures
        forall|sessions: &mut SessionCache<S>, secret: &str, r: SessionSource<S>|
            #[trigger] call_ensures(session_cache::refreshed_session::<S>, (sessions, secret), r)
                && sessions.wf() ==> r is Import && loses_only(
                sessions@,
                secret@,
                final(sessions)@,
            ),
{
}

/// A call begins with the session that is found for its secret, or by importing one.
pub proof fn law_a_call_begins_with_the_found_session<S: Clone>(
    sessions: SessionCache<S>,
    secret: &str,
    found: Option<S>,
    r: (SessionCall, SessionSource<S>),
)
    requires
        call_ensures(session_cache::cached::<S>, (&sessions, secret), found),
        call_ensures(session_cache::with_session::<S>, (&sessions, secret), r),
    ensures
        r.0.secret@ == secret@,
        found is Some ==> r.1 is Cached && r.0.phase is RunningCached,
        found is None ==> r.1 is Import && r.0.phase is Importing,
        r.1 matches SessionSource::Cached(session) ==> cloned(sessions@[secret@], session),
{
}

/// A call on a kept session that the homeserver refuses drops that session, no other, and imports
/// it again. Every other outcome is the call's result, whatever status or failure it is: nothing
/// is imported, and nothing that is kept is dropped.
pub proof fn law_only_a_refused_kept_session_is_imported_again<S, T>()
    ensures
        forall|
            call: &mut SessionCall,
            sessions: &mut SessionCache<S>,
            outcome: Result<T, Failure>,
            r: CallVerdict<T>,
        |
            #[trigger] call_ensures(
                SessionCall::completed::<S, T>,
                (call, sessions, outcome),
                r,
            ) && call.phase is RunningCached && sessions.wf() ==> {
                &&& final(call).secret@ == call.secret@
                &&& match outcome {
                    Ok(value) => {
                        &&& r == CallVerdict::Finish(Ok::<T, SessionOpError>(value))
                        &&& final(call).phase is Done
                        &&& final(sessions)@ == sessions@
                    },
                    Err(failure) => if refuses_the_session(failure) {
                        &&& r is Reimport
                        &&& final(call).phase is Importing
                        &&& loses_only(sessions@, call.secret@, final(sessions)@)
                    } else {
                        &&& r == CallVerdict::Finish(
                            Err::<T, SessionOpError>(SessionOpError::Op(failure)),
                        )
                        &&& final(call).phase is Done
                        &&& final(sessions)@ == sessions@
                    },
                }
            },
{
}

/// A call on a session that was just imported has the outcome of its operation as its result,
/// refused or not, and what is kept stays.
pub proof fn law_an_imported_session_is_not_imported_again<S, T>()
    ensures
        forall|
            call: &mut SessionCall,
            sessions: &mut SessionCache<S>,
            outcome: Result<T, Failure>,
            r: CallVerdict<T>,
        |
            #[trigger] call_ensures(
                SessionCall::completed::<S, T>,
                (call, sessions, outcome),
                r,
            ) && call.phase is RunningImported && sessions.wf() ==> {
                &&& final(call).secret@ == call.secret@
                &&& final(call).phase is Done
                &&& final(sessions)@ == sessions@
                &&& r == CallVerdict::Finish(
                    match outcome {
                        Ok(value) => Ok::<T, SessionOpError>(value),
                        Err(failure) => Err(SessionOpError::Op(failure)),
                    },
                )
            },
{
}

/// A call that has imported its session runs with that session, which is kept for the call's own
/// secret. A call that could not has the report of the import as its result.
pub proof fn law_a_call_runs_with_the_imported_session<S: Clone>()
    ensures
        forall|
            call: &mut SessionCall,
            sessions: &mut SessionCache<S>,
            outcome: Result<S, Failure>,
            r: Result<S, SessionOpError>,
        |
            #[trigger] call_ensures(SessionCall::imported::<S>, (call, sessions, outcome), r)
                && call.phase is Importing && sessions.wf() ==> {
                &&& final(call).secret@ == call.secret@
                &&& match outcome {
                    Ok(session) => {
                        &&& r == Ok::<S, SessionOpError>(session)
                        &&& final(call).phase is RunningImported
                        &&& keeps_within_four(sessions@, call.secret@, final(sessions)@)
                        &&& cloned(session, final(sessions)@[call.secret@])
                    },
                    Err(failure) => {
                        &&& r is Err
                        &&& r->Err_0 is Import
                        &&& r->Err_0->Import_0@ == import_report(failure)
                        &&& final(call).phase is Done
                        &&& final(sessions)@ == sessions@
                    },
                }
            },
{
    assert forall|
        call: &mut SessionCall,
        sessions: &mut SessionCache<S>,
        outcome: Result<S, Failure>,
        r: Result<S, SessionOpError>,
    |
        #[trigger] call_ensures(SessionCall::imported::<S>, (call, sessions, outcome), r)
            && call.phase is Importing && sessions.wf() && outcome is Err implies r is Err
        && r->Err_0 is Import && r->Err_0->Import_0@ == import_report(outcome->Err_0) by {
        lemma_wording(outcome->Err_0, Seq::empty());
    }
}

} // verus!
