//! Reuse of imported sessions across authenticated calls.
//!
//! Importing a session costs a round trip to the homeserver that revalidates it. An imported
//! session is kept, so that the round trip is paid once per secret instead of once per call. The
//! homeserver checks the session on every call anyway: when it refuses a kept session, the session
//! is dropped, imported again, and the call is made once more.
use crate::failure::{Failure, FailureKind};
use crate::text;
use vstd::hash_map::StringHashMap;
use vstd::prelude::*;

verus! {

/// Sessions kept at once. One signed-in identity is the normal case; the cap only exists so that
/// an app signing in and out repeatedly, each time with a new secret, does not grow the map for
/// the life of the process. Overflow drops the lot, which costs one import per surviving session
/// and nothing else.
pub const MAX_CACHED_SESSIONS: usize = 4;

/// The one wording that means "this session is finished: sign in again".
///
/// It begins exactly the messages of failures in which the homeserver refused the session.
/// Everything else is a reason to retry, and says so by not carrying this.
pub const SESSION_REJECTED: &'static str = "Session rejected";

/// The sessions that are kept, by their secret.
#[verifier::reject_recursive_types(S)]
pub struct SessionCache<S> {
    sessions: StringHashMap<S>,
}

impl<S> View for SessionCache<S> {
    type V = Map<Seq<char>, S>;

    closed spec fn view(&self) -> Map<Seq<char>, S> {
        self.sessions@
    }
}

impl<S> SessionCache<S> {
    /// No more sessions are kept than the cap allows.
    pub open spec fn wf(&self) -> bool {
        &&& self@.dom().finite()
        &&& self@.len() <= MAX_CACHED_SESSIONS
    }

    /// A cache without sessions.
    pub fn new() -> (r: Self)
        ensures
            r.wf(),
            r@ == Map::<Seq<char>, S>::empty(),
    {
        SessionCache { sessions: StringHashMap::new() }
    }
}

/// The sessions that are kept once `session` has been: where a new secret would exceed the cap,
/// only the new session.
pub open spec fn remembered<S>(
    sessions: Map<Seq<char>, S>,
    secret: Seq<char>,
    session: S,
) -> Map<Seq<char>, S> {
    if sessions.len() >= MAX_CACHED_SESSIONS && !sessions.contains_key(secret) {
        Map::<Seq<char>, S>::empty().insert(secret, session)
    } else {
        sessions.insert(secret, session)
    }
}

/// A clone of the session kept for `secret`.
pub fn cached<S: Clone>(sessions: &SessionCache<S>, secret: &str) -> (r: Option<S>)
    ensures
        match r {
            Some(session) => sessions@.contains_key(secret@) && cloned(
                sessions@[secret@],
                session,
            ),
            None => !sessions@.contains_key(secret@),
        },
{
    match sessions.sessions.get(secret) {
        Some(session) => Some(session.clone()),
        None => None,
    }
}

/// Keeps a clone of `session` for `secret`.
pub fn remember<S: Clone>(sessions: &mut SessionCache<S>, secret: &str, session: &S)
    requires
        old(sessions).wf(),
    ensures
        final(sessions).wf(),
        final(sessions)@.contains_key(secret@),
        cloned(*session, final(sessions)@[secret@]),
        final(sessions)@ == remembered(
            old(sessions)@,
            secret@,
            final(sessions)@[secret@],
        ),
{
    broadcast use vstd::hash_map::group_hash_map_axioms;

    if sessions.sessions.len() >= MAX_CACHED_SESSIONS && !sessions.sessions.contains_key(secret) {
        sessions.sessions.clear();
    }
    sessions.sessions.insert(secret.to_owned(), session.clone());
}

/// Drop one session, so the next call re-imports it.
pub fn forget<S>(sessions: &mut SessionCache<S>, secret: &str)
    requires
        old(sessions).wf(),
    ensures
        final(sessions).wf(),
        final(sessions)@ == old(sessions)@.remove(secret@),
{
    sessions.sessions.remove(secret);
}

/// Drop every session. To be called when the network is switched: those sessions belong to the
/// previous network's homeservers.
pub fn clear<S>(sessions: &mut SessionCache<S>)
    ensures
        final(sessions).wf(),
        final(sessions)@ == Map::<Seq<char>, S>::empty(),
{
    sessions.sessions.clear();
}

/// Did the homeserver refuse the session, as opposed to the request?
pub open spec fn session_rejected(kind: FailureKind) -> bool {
    match kind {
        FailureKind::Authentication => true,
        FailureKind::Server { status } => status == 401 || status == 403,
        _ => false,
    }
}

/// Did the homeserver refuse the *session*, as opposed to the request?
///
/// Deliberately narrow. Anything wider retries writes that failed for reasons a new session cannot
/// fix: a `429` retried here would double the load that caused it, and a `507` would spend a
/// second request arriving at the same full disk.
pub fn is_session_rejected(failure: &Failure) -> (r: bool)
    ensures
        r == session_rejected(failure.kind),
{
    match &failure.kind {
        FailureKind::Authentication => true,
        FailureKind::Server { status } => *status == 401 || *status == 403,
        FailureKind::Transport { .. } => false,
        FailureKind::Other => false,
    }
}

/// The message of a failure in which the homeserver refused the session.
pub open spec fn rejection_message(kind: FailureKind, detail: Seq<char>) -> Seq<char> {
    SESSION_REJECTED@ + ": the homeserver refused this session as invalid: "@ + detail + if kind
        is Authentication {
        " (authentication)"@
    } else {
        Seq::empty()
    }
}

/// `first` and `second` with a colon and a space in between.
pub open spec fn colon_separated(first: Seq<char>, second: Seq<char>) -> Seq<char> {
    first + ": "@ + second
}

/// The message of a failed import.
pub open spec fn import_message(failure: Failure) -> Seq<char> {
    if session_rejected(failure.kind) {
        rejection_message(failure.kind, failure.text@)
    } else {
        colon_separated("Failed to import session"@, failure.text@)
    }
}

/// The message of an operation that failed, under the caller's own verb.
pub open spec fn op_message(failure: Failure, verb: Seq<char>) -> Seq<char> {
    if session_rejected(failure.kind) {
        rejection_message(failure.kind, colon_separated(verb, failure.text@))
    } else {
        colon_separated(verb, failure.text@)
    }
}

/// Says that the homeserver refused the session.
fn rejected(failure: &Failure, detail: &str) -> (r: String)
    ensures
        r@ == rejection_message(failure.kind, detail@),
{
    let mut message: String = SESSION_REJECTED.to_owned();
    message.append(": the homeserver refused this session as invalid: ");
    message.append(detail);
    match &failure.kind {
        FailureKind::Authentication => message.append(" (authentication)"),
        _ => {},
    }
    message
}

/// Joins two texts with a colon and a space.
fn with_colon(first: &str, second: &str) -> (r: String)
    ensures
        r@ == colon_separated(first@, second@),
{
    let mut joined: String = first.to_owned();
    joined.append(": ");
    joined.append(second);
    joined
}

/// What went wrong in a call made with a session.
#[derive(Debug)]
pub enum SessionOpError {
    /// The session could not be imported at all. Already formatted: [`SESSION_REJECTED`] when the
    /// homeserver refused it, otherwise the wording of every failed import, because callers match
    /// on it.
    Import(String),
    /// The operation itself failed. Formatted by [`SessionOpError::into_message`] with the
    /// caller's own verb.
    Op(Failure),
}

impl SessionOpError {
    /// The message for this failure, under the caller's own `verb` ("Failed to put").
    ///
    /// A refusal of the session carries [`SESSION_REJECTED`] whatever the verb. The message of a
    /// failed import is passed on untouched.
    pub fn into_message(self, verb: &str) -> (r: String)
        ensures
            r@ == match self {
                SessionOpError::Import(message) => message@,
                SessionOpError::Op(failure) => op_message(failure, verb@),
            },
    {
        match self {
            SessionOpError::Import(message) => message,
            SessionOpError::Op(failure) => {
                let plain: String = with_colon(verb, failure.text.as_str());
                if is_session_rejected(&failure) {
                    rejected(&failure, plain.as_str())
                } else {
                    plain
                }
            },
        }
    }
}

/// Takes the outcome of importing `secret`. A session is kept and handed on; a failure becomes the
/// message that every caller reports.
pub fn import<S: Clone>(
    sessions: &mut SessionCache<S>,
    secret: &str,
    outcome: Result<S, Failure>,
) -> (r: Result<S, String>)
    requires
        old(sessions).wf(),
    ensures
        final(sessions).wf(),
        match outcome {
            Ok(session) => {
                &&& r == Ok::<S, String>(session)
                &&& final(sessions)@.contains_key(secret@)
                &&& cloned(session, final(sessions)@[secret@])
                &&& final(sessions)@ == remembered(
                    old(sessions)@,
                    secret@,
                    final(sessions)@[secret@],
                )
            },
            Err(failure) => {
                &&& r matches Err(message)
                &&& message@ == import_message(failure)
                &&& final(sessions)@ == old(sessions)@
            },
        },
{
    match outcome {
        Ok(session) => {
            remember(sessions, secret, &session);
            Ok(session)
        },
        Err(failure) => {
            if is_session_rejected(&failure) {
                Err(rejected(&failure, failure.text.as_str()))
            } else {
                Err(with_colon("Failed to import session", failure.text.as_str()))
            }
        },
    }
}

/// Where the session of a call comes from.
pub enum SessionSource<S> {
    /// A clone of the session that is kept.
    Cached(S),
    /// There is none: it has to be imported, and the outcome handed to [`import`].
    Import,
}

/// The session for `secret`, to be imported only if one is not already kept.
pub fn session_for<S: Clone>(sessions: &SessionCache<S>, secret: &str) -> (r: SessionSource<S>)
    ensures
        match r {
            SessionSource::Cached(session) => sessions@.contains_key(secret@) && cloned(
                sessions@[secret@],
                session,
            ),
            SessionSource::Import => !sessions@.contains_key(secret@),
        },
{
    match cached(sessions, secret) {
        Some(session) => SessionSource::Cached(session),
        None => SessionSource::Import,
    }
}

/// A session to be imported afresh, whatever is kept: what was kept for `secret` is dropped. For
/// callers whose whole purpose is to ask the homeserver, where a kept answer would be no answer.
pub fn refreshed_session<S>(sessions: &mut SessionCache<S>, secret: &str) -> (r: SessionSource<S>)
    requires
        old(sessions).wf(),
    ensures
        r is Import,
        final(sessions).wf(),
        final(sessions)@ == old(sessions)@.remove(secret@),
{
    forget(sessions, secret);
    SessionSource::Import
}

/// How far a call made with a session has come.
#[derive(Clone, Copy, Debug, PartialEq, Eq, Structural)]
pub enum CallPhase {
    /// The operation runs against the session that was kept.
    RunningCached,
    /// The session is being imported.
    Importing,
    /// The operation runs against a session that was just imported.
    RunningImported,
    /// The call has its result.
    Done,
}

/// What can happen to a call.
pub enum CallEvent {
    /// The session was imported.
    Imported,
    /// The session could not be imported.
    ImportFailed,
    /// The operation succeeded.
    Succeeded,
    /// The homeserver refused the session.
    Refused,
    /// The operation failed in another way.
    Failed,
}

/// Can `event` happen in `phase`?
pub open spec fn call_expects(phase: CallPhase, event: CallEvent) -> bool {
    match phase {
        CallPhase::RunningCached | CallPhase::RunningImported => event is Succeeded || event
            is Refused || event is Failed,
        CallPhase::Importing => event is Imported || event is ImportFailed,
        CallPhase::Done => false,
    }
}

/// The phase that `event` leads to. Only a refusal of a kept session leads to another import.
pub open spec fn call_after(phase: CallPhase, event: CallEvent) -> CallPhase {
    match (phase, event) {
        (CallPhase::RunningCached, CallEvent::Refused) => CallPhase::Importing,
        (CallPhase::Importing, CallEvent::Imported) => CallPhase::RunningImported,
        _ => CallPhase::Done,
    }
}

/// The event that the outcome of an import is.
pub open spec fn import_event<S>(outcome: Result<S, Failure>) -> CallEvent {
    match outcome {
        Ok(_) => CallEvent::Imported,
        Err(_) => CallEvent::ImportFailed,
    }
}

/// The event that the outcome of an operation is.
pub open spec fn op_event<T>(outcome: Result<T, Failure>) -> CallEvent {
    match outcome {
        Ok(_) => CallEvent::Succeeded,
        Err(failure) => if session_rejected(failure.kind) {
            CallEvent::Refused
        } else {
            CallEvent::Failed
        },
    }
}

/// A call made as the identity behind a secret.
pub struct SessionCall {
    pub secret: String,
    pub phase: CallPhase,
}

/// What to do once the operation of a call has run.
pub enum CallVerdict<T> {
    /// The call has this result.
    Finish(Result<T, SessionOpError>),
    /// Import the session again, and hand the outcome to [`SessionCall::imported`].
    Reimport,
}

/// Begins a call as the identity behind `secret`, reusing a kept session when there is one. With
/// a kept session the operation is to be run and its outcome handed to
/// [`SessionCall::completed`]; without, the session is to be imported and the outcome handed to
/// [`SessionCall::imported`].
///
/// The operation may have to run twice: once against the kept session, and once more against a
/// freshly imported one if the homeserver refused the first.
pub fn with_session<S: Clone>(sessions: &SessionCache<S>, secret: &str) -> (r: (
    SessionCall,
    SessionSource<S>,
))
    ensures
        r.0.secret@ == secret@,
        match r.1 {
            SessionSource::Cached(session) => {
                &&& sessions@.contains_key(secret@)
                &&& cloned(sessions@[secret@], session)
                &&& r.0.phase is RunningCached
            },
            SessionSource::Import => !sessions@.contains_key(secret@) && r.0.phase is Importing,
        },
{
    let source: SessionSource<S> = session_for(sessions, secret);
    let phase: CallPhase = match &source {
        SessionSource::Cached(_) => CallPhase::RunningCached,
        SessionSource::Import => CallPhase::Importing,
    };
    (SessionCall { secret: secret.to_owned(), phase }, source)
}

impl SessionCall {
    /// Takes the outcome of importing the session. A session is kept, and the operation is to be
    /// run against it; a failure is the result of the call.
    pub fn imported<S: Clone>(
        &mut self,
        sessions: &mut SessionCache<S>,
        outcome: Result<S, Failure>,
    ) -> (r: Result<S, SessionOpError>)
        requires
            old(self).phase is Importing,
            old(sessions).wf(),
        ensures
            final(self).secret == old(self).secret,
            final(self).phase == call_after(old(self).phase, import_event(outcome)),
            final(sessions).wf(),
            match outcome {
                Ok(session) => {
                    let secret = old(self).secret@;
                    &&& r == Ok::<S, SessionOpError>(session)
                    &&& final(sessions)@.contains_key(secret)
                    &&& cloned(session, final(sessions)@[secret])
                    &&& final(sessions)@ == remembered(
                        old(sessions)@,
                        secret,
                        final(sessions)@[secret],
                    )
                },
                Err(failure) => {
                    &&& r matches Err(SessionOpError::Import(message))
                    &&& message@ == import_message(failure)
                    &&& final(sessions)@ == old(sessions)@
                },
            },
    {
        match import(sessions, self.secret.as_str(), outcome) {
            Ok(session) => {
                self.phase = CallPhase::RunningImported;
                Ok(session)
            },
            Err(message) => {
                self.phase = CallPhase::Done;
                Err(SessionOpError::Import(message))
            },
        }
    }

    /// Takes the outcome of the operation. If the homeserver refused the session that was kept,
    /// that session is dropped and has to be imported again. Any other outcome is the result: a
    /// session that was just imported has been revalidated, so a refusal of it is real.
    pub fn completed<S, T>(
        &mut self,
        sessions: &mut SessionCache<S>,
        outcome: Result<T, Failure>,
    ) -> (r: CallVerdict<T>)
        requires
            old(self).phase is RunningCached || old(self).phase is RunningImported,
            old(sessions).wf(),
        ensures
            final(self).secret == old(self).secret,
            final(self).phase == call_after(old(self).phase, op_event(outcome)),
            final(sessions).wf(),
            match outcome {
                Ok(value) => {
                    &&& r == CallVerdict::Finish(Ok::<T, SessionOpError>(value))
                    &&& final(sessions)@ == old(sessions)@
                },
                Err(failure) => if old(self).phase is RunningCached && session_rejected(
                    failure.kind,
                ) {
                    &&& r is Reimport
                    &&& final(sessions)@ == old(sessions)@.remove(old(self).secret@)
                } else {
                    &&& r == CallVerdict::Finish(
                        Err::<T, SessionOpError>(SessionOpError::Op(failure)),
                    )
                    &&& final(sessions)@ == old(sessions)@
                },
            },
    {
        let phase: CallPhase = self.phase;
        self.phase = CallPhase::Done;
        match outcome {
            Ok(value) => CallVerdict::Finish(Ok(value)),
            Err(failure) => {
                if phase == CallPhase::RunningCached && is_session_rejected(&failure) {
                    let _ = refreshed_session(sessions, self.secret.as_str());
                    self.phase = CallPhase::Importing;
                    CallVerdict::Reimport
                } else {
                    CallVerdict::Finish(Err(SessionOpError::Op(failure)))
                }
            },
        }
    }
}

/// The events of a call that begins in `phase`, one after the other.
pub open spec fn is_course(phase: CallPhase, events: Seq<CallEvent>) -> bool
    decreases events.len(),
{
    events.len() > 0 ==> {
        &&& call_expects(phase, events[0])
        &&& is_course(call_after(phase, events[0]), events.drop_first())
    }
}

/// How often the session is imported in the course of a call.
pub open spec fn imports(events: Seq<CallEvent>) -> nat {
    events.filter(|event: CallEvent| event is Imported || event is ImportFailed).len()
}

/// How often the operation runs in the course of a call.
pub open spec fn runs(events: Seq<CallEvent>) -> nat {
    events.filter(
        |event: CallEvent| event is Succeeded || event is Refused || event is Failed,
    ).len()
}

/// In the course of a call the session is imported at most once and the operation runs at most
/// twice. It runs a second time only against a session that was imported after the homeserver had
/// refused the kept one, and a kept session is imported again only after such a refusal.
pub proof fn law_an_operation_runs_at_most_twice(phase: CallPhase, events: Seq<CallEvent>)
    requires
        phase is RunningCached || phase is Importing,
        is_course(phase, events),
    ensures
        imports(events) <= 1,
        runs(events) <= 2,
        runs(events) == 2 ==> phase is RunningCached && events[0] is Refused && events[1]
            is Imported,
        phase is RunningCached && imports(events) == 1 ==> events[0] is Refused,
{
    reveal_with_fuel(is_course, 5);
    reveal_with_fuel(Seq::filter, 5);
    assert(events.len() <= 3);
}

/// The message of a failed import begins with the marker exactly if the homeserver refused the
/// session.
pub proof fn law_only_a_refused_import_is_marked(failure: Failure)
    ensures
        text::begins_with(import_message(failure), SESSION_REJECTED@) <==> session_rejected(
            failure.kind,
        ),
{
    reveal_strlit("Session rejected");
    reveal_strlit("Failed to import session");
    let message = import_message(failure);
    let marker = SESSION_REJECTED@;
    if session_rejected(failure.kind) {
        assert(message.take(marker.len() as int) == marker);
    } else {
        assert(message.take(marker.len() as int)[0] == 'F');
        assert(marker[0] == 'S');
    }
}

/// The message of a failed operation begins with the marker exactly if the homeserver refused the
/// session, whatever the failure says about itself. Only a caller whose own verb begins with the
/// marker would mark another failure.
pub proof fn law_only_a_refused_operation_is_marked(failure: Failure, verb: Seq<char>)
    requires
        session_rejected(failure.kind) || !text::begins_with(verb, SESSION_REJECTED@),
    ensures
        text::begins_with(op_message(failure, verb), SESSION_REJECTED@) <==> session_rejected(
            failure.kind,
        ),
{
    reveal_strlit("Session rejected");
    reveal_strlit(": ");
    let message = op_message(failure, verb);
    let marker = SESSION_REJECTED@;
    let length = marker.len() as int;
    if session_rejected(failure.kind) {
        assert(message.take(length) == marker);
    } else if verb.len() >= length {
        assert(message.take(length) == verb.take(length));
    } else if text::begins_with(message, marker) {
        // The colon after the verb stands where the marker has another character.
        let at = verb.len() as int;
        assert(message.take(length)[at] == ':');
        assert(marker[at] != ':');
    }
}

/// A rejection spells out "session" and "invalid", and keeps its detail.
proof fn lemma_rejection_parts(kind: FailureKind, detail: Seq<char>)
    ensures
        text::has_part(rejection_message(kind, detail), "session"@),
        text::has_part(rejection_message(kind, detail), "invalid"@),
        text::has_part(rejection_message(kind, detail), detail),
{
    reveal_strlit("Session rejected");
    reveal_strlit(": the homeserver refused this session as invalid: ");
    reveal_strlit("session");
    reveal_strlit("invalid");
    let message = rejection_message(kind, detail);
    assert(message.subrange(46, 46int + "session"@.len()) == "session"@);
    assert(message.subrange(57, 57int + "invalid"@.len()) == "invalid"@);
    assert(message.subrange(66, 66int + detail.len()) == detail);
}

/// A refused session is reported in words that contain "session" and "invalid", by which
/// consumers that do not know the marker recognise it. The caller's wording is kept.
pub proof fn law_a_refusal_reads_as_an_invalid_session(failure: Failure, verb: Seq<char>)
    requires
        session_rejected(failure.kind),
    ensures
        text::has_part(import_message(failure), "session"@),
        text::has_part(import_message(failure), "invalid"@),
        text::has_part(import_message(failure), failure.text@),
        text::has_part(op_message(failure, verb), "session"@),
        text::has_part(op_message(failure, verb), "invalid"@),
        text::has_part(op_message(failure, verb), colon_separated(verb, failure.text@)),
{
    lemma_rejection_parts(failure.kind, failure.text@);
    lemma_rejection_parts(failure.kind, colon_separated(verb, failure.text@));
}

/// What was kept is found again, and keeping it for a secret that is known, or while there is
/// room, disturbs no other session. Otherwise it is the only one left.
pub proof fn law_remember_keeps_the_session<S>(
    sessions: Map<Seq<char>, S>,
    secret: Seq<char>,
    session: S,
    other: Seq<char>,
)
    requires
        other != secret,
    ensures
        ({
            let after = remembered(sessions, secret, session);
            &&& after.contains_key(secret)
            &&& after[secret] == session
            &&& sessions.contains_key(secret) || sessions.len() < MAX_CACHED_SESSIONS ==> (
            after.contains_key(other) == sessions.contains_key(other) && (sessions.contains_key(
                other,
            ) ==> after[other] == sessions[other]))
            &&& !sessions.contains_key(secret) && sessions.len() >= MAX_CACHED_SESSIONS
                ==> !after.contains_key(other)
        }),
{
}

/// Keeping a session never makes the cache outgrow its cap.
pub proof fn law_cache_stays_within_its_cap<S>(
    sessions: Map<Seq<char>, S>,
    secret: Seq<char>,
    session: S,
)
    requires
        sessions.dom().finite(),
        sessions.len() <= MAX_CACHED_SESSIONS,
    ensures
        remembered(sessions, secret, session).dom().finite(),
        remembered(sessions, secret, session).len() <= MAX_CACHED_SESSIONS,
{
}

/// Forgetting a session that was kept while there was room restores what was there before.
pub proof fn law_forget_undoes_remember<S>(
    sessions: Map<Seq<char>, S>,
    secret: Seq<char>,
    session: S,
)
    requires
        !sessions.contains_key(secret),
        sessions.len() < MAX_CACHED_SESSIONS,
    ensures
        remembered(sessions, secret, session).remove(secret) == sessions,
{
    assert(remembered(sessions, secret, session).remove(secret) =~= sessions);
}

} // verus!
