//! Laws of pending grant flows and of the loop that resumes them.
use crate::failure::{Failure, FailureKind};
use crate::grant_resume;
use crate::grant_resume::{
    GrantFlowState, GrantFlows, GrantFlowsView, PendingGrantFlow, ResumeClock, ResumeLoop,
};
use crate::text;
use vstd::prelude::*;

verus! {

/// The nanoseconds from `then` to `now`, none if `then` is still to come.
pub open spec fn time_since(then: u128, now: u128) -> int {
    if then <= now {
        now - then
    } else {
        0
    }
}

/// The nanoseconds to wait after the given number of quick failures in a row: one second, two,
/// four, and from the third on eight.
pub open spec fn wait_after(quick_failures: int) -> int {
    if quick_failures == 0 {
        1_000_000_000
    } else if quick_failures == 1 {
        2_000_000_000
    } else if quick_failures == 2 {
        4_000_000_000
    } else {
        8_000_000_000
    }
}

/// `wait` is what is granted after the given number of quick failures in a row: nothing once the
/// outage has lasted 90 seconds or the flow is 170 seconds old.
pub open spec fn is_granted(
    wait: Option<u128>,
    quick_failures: int,
    outage: int,
    since_start: int,
) -> bool {
    match wait {
        Some(wait) => outage < 90_000_000_000 && since_start < 170_000_000_000 && wait
            == wait_after(quick_failures),
        None => outage >= 90_000_000_000 || since_start >= 170_000_000_000,
    }
}

/// `base` is `relay` without the slashes at its end.
pub open spec fn is_base(base: Seq<char>, relay: Seq<char>) -> bool {
    &&& base.len() <= relay.len()
    &&& base == relay.take(base.len() as int)
    &&& forall|i: int| base.len() <= i < relay.len() ==> relay[i] == '/'
    &&& base.len() > 0 ==> base.last() != '/'
}

/// Is `url` that of `base`, or of something below it?
pub open spec fn is_at_or_below(url: Seq<char>, base: Seq<char>) -> bool {
    ||| url == base
    ||| url.len() > base.len() && url.take(base.len() as int) == base && url[base.len() as int]
        == '/'
}

/// The request did not get through to `relay`, slashes at its end aside, or to something below it.
pub open spec fn misses_the_relay(failure: Failure, relay: Seq<char>) -> bool {
    failure.kind matches FailureKind::Transport { url: Some(url) } && exists|base: Seq<char>|
        #[trigger] is_base(base, relay) && is_at_or_below(url@, base)
}

/// Two clocks that tell the same.
pub open spec fn same_clock(a: ResumeClock, b: ResumeClock) -> bool {
    &&& a.listening_since == b.listening_since
    &&& a.quick_failures == b.quick_failures
    &&& a.outage_since == b.outage_since
}

/// `after` is `before` with nothing saved for `generation`, and all else as it was.
pub open spec fn loses_only(
    before: GrantFlowsView,
    generation: u64,
    after: GrantFlowsView,
) -> bool {
    &&& after.generation == before.generation
    &&& match before.pending {
        Some(pending) => if pending.generation == generation {
            after.pending is None
        } else {
            after.pending == Some(pending)
        },
        None => after.pending is None,
    }
}

/// `after` is `before` with nothing saved of the flow that `resume` awaits, and all else as it
/// was.
pub open spec fn loses_the_flow_of(
    before: GrantFlowsView,
    resume: ResumeLoop,
    after: GrantFlowsView,
) -> bool {
    match resume.pending {
        Some(pending) => loses_only(before, pending.generation, after),
        None => after == before,
    }
}

/// Two flows of which the same is saved.
pub open spec fn same_flow(a: PendingGrantFlow, b: PendingGrantFlow) -> bool {
    &&& a.generation == b.generation
    &&& a.state.authorization_url@ == b.state.authorization_url@
    &&& a.state.client_key_secret@ == b.state.client_key_secret@
    &&& a.relay@ == b.relay@
    &&& a.started == b.started
}

/// The doubled second with its limit is the wait in seconds.
proof fn lemma_waits(quick_failures: nat)
    ensures
        grant_resume::backoff(quick_failures) == wait_after(quick_failures as int),
{
    vstd::arithmetic::power2::lemma2_to64();
    if quick_failures > 3 {
        vstd::arithmetic::power2::lemma_pow2_strictly_increases(3, quick_failures);
    }
}

/// A relay has one base, and a text that begins with the base and a slash is below it.
proof fn lemma_misses_the_relay(failure: Failure, relay: Seq<char>)
    ensures
        grant_resume::relay_transport_failure(failure.kind, relay) == misses_the_relay(
            failure,
            relay,
        ),
{
    let base = text::trimmed_end(relay, '/');
    crate::laws::text::law_trimming_takes_off_the_unwanted_end(relay, '/');
    reveal_strlit("/");
    assert(is_base(base, relay));
    assert forall|other: Seq<char>| #[trigger] is_base(other, relay) implies other == base by {
        if other.len() < base.len() {
            assert(base.last() == relay[base.len() - 1]);
        } else if base.len() < other.len() {
            assert(other.last() == relay[other.len() - 1]);
        }
    }
    if let FailureKind::Transport { url: Some(url) } = failure.kind {
        let url = url@;
        let length = base.len() as int;
        if text::begins_with(url, base + "/"@) {
            assert(url.take(length + 1)[length] == url[length]);
            assert(url.take(length) == url.take(length + 1).take(length));
            assert((base + "/"@).take(length) == base);
        }
        if url.len() > length && url.take(length) == base && url[length] == '/' {
            assert(url.take(length + 1) == url.take(length).push('/'));
            assert(base.push('/') == base + "/"@);
        }
    }
}

/// The wait before a restore: one second, doubled with each quick failure up to eight. There is
/// none once the outage has lasted 90 seconds or the flow is 170 seconds old.
pub proof fn law_waits_double_up_to_eight_seconds(
    quick_failures: u32,
    outage: u128,
    since_start: u128,
    r: Option<u128>,
)
    requires
        call_ensures(grant_resume::resume_delay, (quick_failures, outage, since_start), r),
    ensures
        is_granted(r, quick_failures as int, outage as int, since_start as int),
{
    lemma_waits(quick_failures as nat);
}

/// A listener that was held open for five seconds ends every outage that came before: the flow is
/// given up only because of its own age, and the wait is one second otherwise.
pub proof fn law_a_held_listener_ends_the_outage(clock: ResumeClock, started: u128, now: u128)
    requires
        time_since(clock.listening_since, now) >= 5_000_000_000,
    ensures
        clock.after_failure(now).outage(now) == 0,
        clock.after_failure(now).outage_since is None,
        clock.after_failure(now).quick_failures == 0,
        clock.after_failure(now).delay(started, now) is None <==> time_since(started, now)
            >= 170_000_000_000,
        clock.after_failure(now).delay(started, now) matches Some(wait) ==> wait == 1_000_000_000,
{
    lemma_waits(0);
}

/// A listener that died within five seconds of its start continues the outage that is going on,
/// or begins one at its own start.
pub proof fn law_a_quick_failure_continues_the_outage(clock: ResumeClock, started: u128, now: u128)
    requires
        time_since(clock.listening_since, now) < 5_000_000_000,
    ensures
        clock.quick_failures < u32::MAX ==> clock.after_failure(now).quick_failures
            == clock.quick_failures + 1,
        clock.quick_failures == u32::MAX ==> clock.after_failure(now).quick_failures == u32::MAX,
        clock.outage_since is Some ==> clock.after_failure(now).outage_since == clock.outage_since,
        clock.outage_since is None ==> clock.after_failure(now).outage_since == Some(
            clock.listening_since,
        ),
        clock.outage_since matches Some(since) ==> clock.after_failure(now).outage(now)
            == time_since(since, now),
        clock.outage_since is None ==> clock.after_failure(now).outage(now) == time_since(
            clock.listening_since,
            now,
        ),
{
}

/// A failure is the relay's exactly if a request did not get through to the relay's address, or to
/// something below it. Slashes at the end of the address do not count.
pub proof fn law_a_relay_failure_is_at_or_below_the_relay(failure: Failure, relay: &str, r: bool)
    requires
        call_ensures(grant_resume::is_relay_transport_failure, (&failure, relay), r),
    ensures
        r <==> misses_the_relay(failure, relay@),
{
    lemma_misses_the_relay(failure, relay@);
}

/// The first pair with the key is the one with no such pair before it.
proof fn lemma_first_value(pairs: Seq<(Seq<char>, Seq<char>)>, key: Seq<char>, at: int)
    requires
        0 <= at <= pairs.len(),
        forall|i: int| 0 <= i < at ==> (#[trigger] pairs[i]).0 != key,
    ensures
        at < pairs.len() && pairs[at].0 == key ==> grant_resume::first_value(pairs, key) == Some(
            pairs[at].1,
        ),
        at == pairs.len() ==> grant_resume::first_value(pairs, key) is None,
    decreases pairs.len(),
{
    if at > 0 {
        let rest = pairs.drop_first();
        assert forall|i: int| 0 <= i < at - 1 implies (#[trigger] rest[i]).0 != key by {
            assert(rest[i] == pairs[i + 1]);
        }
        assert(pairs[0].0 != key);
        lemma_first_value(rest, key, at - 1);
    }
}

/// Of several pairs with the wanted key the first counts, and nothing is found where there is
/// none.
pub proof fn law_the_first_pair_counts(
    pairs: Vec<(String, String)>,
    key: &str,
    r: Option<String>,
    at: int,
)
    requires
        call_ensures(grant_resume::find_value, (&pairs, key), r),
        0 <= at <= pairs@.len(),
        forall|i: int| 0 <= i < at ==> (#[trigger] pairs@[i]).0@ != key@,
    ensures
        at < pairs@.len() && pairs@[at].0@ == key@ ==> r is Some && r->0@ == pairs@[at].1@,
        at == pairs@.len() ==> r is None,
{
    let views = pairs.deep_view();
    assert(views.len() == pairs@.len());
    assert forall|i: int| 0 <= i < views.len() implies #[trigger] views[i] == (
        pairs@[i].0@,
        pairs@[i].1@,
    ) by {}
    assert forall|i: int| 0 <= i < at implies (#[trigger] views[i]).0 != key@ by {
        assert(pairs@[i].0@ != key@);
    }
    lemma_first_value(views, key@, at);
}

/// Before the first flow nothing is saved, and no flow but number zero counts as current.
pub proof fn law_there_is_no_flow_at_first(
    flows: GrantFlows,
    saved: Option<PendingGrantFlow>,
    generation: u64,
    r: bool,
)
    requires
        call_ensures(GrantFlows::new, (), flows),
        call_ensures(grant_resume::current, (&flows,), saved),
        call_ensures(grant_resume::is_current, (&flows, generation), r),
    ensures
        saved is None,
        r <==> generation == 0,
{
}

/// What is saved of a flow that was just started is its own state, its own relay and its own
/// start, whatever was saved before. Nothing is saved without a state or without a relay.
pub proof fn law_a_started_flow_is_saved_as_given()
    ensures
        forall|
            flows: &mut GrantFlows,
            relay: Option<String>,
            state: Option<GrantFlowState>,
            now: u128,
            after: GrantFlows,
            r: Option<PendingGrantFlow>,
        |
            #[trigger] call_ensures(grant_resume::remember_relay, (flows, relay, state, now), ())
                && #[trigger] call_ensures(grant_resume::current, (&after,), r) && after
                == *final(flows) && flows@.generation < u64::MAX ==> match (state, relay) {
                (Some(state), Some(relay)) => {
                    &&& r is Some
                    &&& r->0.generation == flows@.generation + 1
                    &&& r->0.state.authorization_url@ == state.authorization_url@
                    &&& r->0.state.client_key_secret@ == state.client_key_secret@
                    &&& r->0.relay@ == relay@
                    &&& r->0.started == now
                },
                _ => r is None,
            },
{
}

/// The contents after a flow was started, in terms of what it was started with alone: they do not
/// depend on what was saved before.
pub proof fn law_what_is_saved_depends_on_the_started_flow_alone(
    flows: GrantFlowsView,
    relay: Option<Seq<char>>,
    state: Option<grant_resume::GrantFlowStateView>,
    now: u128,
)
    requires
        flows.generation < u64::MAX,
    ensures
        flows.remembered(relay, state, now).generation == flows.generation + 1,
        flows.remembered(relay, state, now).pending is Some <==> state is Some && relay is Some,
        flows.remembered(relay, state, now).pending matches Some(saved) ==> {
            &&& saved.generation == flows.generation + 1
            &&& saved.state == state->0
            &&& saved.relay == relay->0
            &&& saved.started == now
        },
{
}

/// Starting a flow makes it the current one, and no other.
pub proof fn law_a_started_flow_is_the_current_one()
    ensures
        forall|
            flows: &mut GrantFlows,
            relay: Option<String>,
            state: Option<GrantFlowState>,
            now: u128,
            after: GrantFlows,
            generation: u64,
            r: bool,
        |
            #[trigger] call_ensures(grant_resume::remember_relay, (flows, relay, state, now), ())
                && #[trigger] call_ensures(grant_resume::is_current, (&after, generation), r)
                && after == *final(flows) && flows@.generation < u64::MAX ==> (r <==> generation
                == flows@.generation + 1),
        forall|
            flows: &mut GrantFlows,
            query: &str,
            state: Option<GrantFlowState>,
            now: u128,
            after: GrantFlows,
            generation: u64,
            r: bool,
        |
            #[trigger] call_ensures(grant_resume::remember, (flows, query, state, now), ())
                && #[trigger] call_ensures(grant_resume::is_current, (&after, generation), r)
                && after == *final(flows) && flows@.generation < u64::MAX ==> (r <==> generation
                == flows@.generation + 1),
{
}

/// The first pair for a relay is the one at `at`, or there is none if `at` is past the last pair.
spec fn names_the_relay(pairs: Seq<(Seq<char>, Seq<char>)>, at: int) -> bool {
    &&& at < pairs.len() && pairs[at].0 == "relay"@ ==> grant_resume::first_value(
        pairs,
        "relay"@,
    ) == Some(pairs[at].1)
    &&& at == pairs.len() ==> grant_resume::first_value(pairs, "relay"@) is None
}

/// A flow that is started by its authorization URL is saved with the first relay that the query
/// names, with its own state and its own start, whatever was saved before. Nothing is saved where
/// the query names no relay, or without a state.
pub proof fn law_a_started_flow_has_the_relay_of_its_url(at: int)
    ensures
        forall|
            flows: &mut GrantFlows,
            query: &str,
            state: Option<GrantFlowState>,
            now: u128,
            after: GrantFlows,
            r: Option<PendingGrantFlow>,
        |
            #[trigger] call_ensures(grant_resume::remember, (flows, query, state, now), ())
                && #[trigger] call_ensures(grant_resume::current, (&after,), r) && after
                == *final(flows) && flows@.generation < u64::MAX && 0 <= at
                <= grant_resume::form_pairs(query@).len() && (forall|i: int|
                0 <= i < at ==> (#[trigger] grant_resume::form_pairs(query@)[i]).0 != "relay"@)
                ==> {
                let pairs = grant_resume::form_pairs(query@);
                &&& at == pairs.len() ==> r is None
                &&& state is None ==> r is None
                &&& at < pairs.len() && pairs[at].0 == "relay"@ && state is Some ==> {
                    &&& r is Some
                    &&& r->0.generation == flows@.generation + 1
                    &&& r->0.state.authorization_url@ == state->0.authorization_url@
                    &&& r->0.state.client_key_secret@ == state->0.client_key_secret@
                    &&& r->0.relay@ == pairs[at].1
                    &&& r->0.started == now
                }
            },
{
    assert forall|query: &str|
        #![trigger grant_resume::form_pairs(query@)]
        0 <= at <= grant_resume::form_pairs(query@).len() && (forall|i: int|
            0 <= i < at ==> (#[trigger] grant_resume::form_pairs(query@)[i]).0
                != "relay"@) implies names_the_relay(grant_resume::form_pairs(query@), at) by {
        lemma_first_value(grant_resume::form_pairs(query@), "relay"@, at);
    }
}

/// Forgetting drops what is saved of the given flow and of no other. Which flow is current does
/// not change.
pub proof fn law_only_the_given_flow_is_forgotten()
    ensures
        forall|flows: &mut GrantFlows, generation: u64|
            #[trigger] call_ensures(grant_resume::forget, (flows, generation), ()) ==> loses_only(
                flows@,
                generation,
                final(flows)@,
            ),
        forall|
            flows: &mut GrantFlows,
            generation: u64,
            before: GrantFlows,
            saved: Option<PendingGrantFlow>,
            after: GrantFlows,
            r: Option<PendingGrantFlow>,
        |
            #[trigger] call_ensures(grant_resume::forget, (flows, generation), ())
                && #[trigger] call_ensures(grant_resume::current, (&before,), saved) && before
                == *flows && #[trigger] call_ensures(grant_resume::current, (&after,), r) && after
                == *final(flows) ==> match (saved, r) {
                (Some(saved), Some(r)) => saved.generation != generation && same_flow(r, saved),
                (Some(saved), None) => saved.generation == generation,
                (None, Some(_)) => false,
                (None, None) => true,
            },
{
}

/// An awaited flow is resumed from what is saved of it, by its own URL; what is saved of another
/// is not taken. Its listener counts from the flow's start, and there was no failure yet.
pub proof fn law_only_the_awaited_flow_is_resumed(
    flows: GrantFlows,
    flow_url: &str,
    now: u128,
    saved: Option<PendingGrantFlow>,
    r: ResumeLoop,
)
    requires
        call_ensures(grant_resume::current, (&flows,), saved),
        call_ensures(grant_resume::await_resuming, (&flows, flow_url, now), r),
    ensures
        r.pending is Some <==> saved is Some && saved->0.state.authorization_url@ == flow_url@,
        r.pending matches Some(pending) ==> same_flow(pending, saved->0),
        r.clock.listening_since == if r.pending is Some {
            saved->0.started
        } else {
            now
        },
        r.clock.quick_failures == 0,
        r.clock.outage_since is None,
{
}

/// A flow that was started is awaited with its own relay, state and start, if it is awaited by its
/// own URL.
pub proof fn law_a_started_flow_can_be_awaited()
    ensures
        forall|
            flows: &mut GrantFlows,
            relay: Option<String>,
            state: Option<GrantFlowState>,
            started: u128,
            after: GrantFlows,
            flow_url: &str,
            now: u128,
            r: ResumeLoop,
        |
            #[trigger] call_ensures(
                grant_resume::remember_relay,
                (flows, relay, state, started),
                (),
            ) && #[trigger] call_ensures(
                grant_resume::await_resuming,
                (&after, flow_url, now),
                r,
            ) && after == *final(flows) && flows@.generation < u64::MAX && relay is Some && state
                is Some && flow_url@ == state->0.authorization_url@ ==> {
                &&& r.pending is Some
                &&& r.pending->0.state.client_key_secret@ == state->0.client_key_secret@
                &&& r.pending->0.relay@ == relay->0@
                &&& r.pending->0.started == started
                &&& r.clock.listening_since == started
            },
{
}

/// A failure ends the loop at once unless the flow's state is saved, no other flow was started
/// since, and it is the flow's own relay that was not reached. The clock stays as it was, and what
/// is saved of the flow is dropped.
pub proof fn law_other_failures_end_the_loop()
    ensures
        forall|
            resume: &mut ResumeLoop,
            flows: &mut GrantFlows,
            failure: &Failure,
            now: u128,
            r: Option<u128>,
        |
            #[trigger] call_ensures(ResumeLoop::failed, (resume, flows, failure, now), r) && (
            resume.pending is None || resume.pending->0.generation != flows@.generation
                || !misses_the_relay(*failure, resume.pending->0.relay@)) ==> {
                &&& r is None
                &&& final(resume).pending == resume.pending
                &&& same_clock(final(resume).clock, resume.clock)
                &&& loses_the_flow_of(flows@, *resume, final(flows)@)
            },
{
    assert forall|
        resume: &mut ResumeLoop,
        flows: &mut GrantFlows,
        failure: &Failure,
        now: u128,
        r: Option<u128>,
    |
        #[trigger] call_ensures(ResumeLoop::failed, (resume, flows, failure, now), r) && (
        resume.pending is None || resume.pending->0.generation != flows@.generation
            || !misses_the_relay(*failure, resume.pending->0.relay@)) implies {
        &&& r is None
        &&& final(resume).pending == resume.pending
        &&& same_clock(final(resume).clock, resume.clock)
        &&& loses_the_flow_of(flows@, *resume, final(flows)@)
    } by {
        if resume.pending is Some {
            lemma_misses_the_relay(*failure, resume.pending->0.relay@);
        }
    }
}

/// `resume` awaits the current flow, and `failure` is one of that flow's own relay.
pub open spec fn can_be_resumed(
    resume: ResumeLoop,
    flows: GrantFlowsView,
    failure: Failure,
) -> bool {
    &&& resume.pending matches Some(pending)
    &&& pending.generation == flows.generation
    &&& misses_the_relay(failure, pending.relay@)
}

/// Where the relay was not reached by a listener that had been held open for five seconds, no
/// outage is counted, whatever came before: the loop ends only if the flow is 170 seconds old, and
/// waits one second otherwise.
pub proof fn law_a_held_listener_is_restored_after_a_second()
    ensures
        forall|
            resume: &mut ResumeLoop,
            flows: &mut GrantFlows,
            failure: &Failure,
            now: u128,
            r: Option<u128>,
        |
            #[trigger] call_ensures(ResumeLoop::failed, (resume, flows, failure, now), r)
                && can_be_resumed(*resume, flows@, *failure) && time_since(
                resume.clock.listening_since,
                now,
            ) >= 5_000_000_000 ==> {
                &&& r is None <==> time_since(resume.pending->0.started, now) >= 170_000_000_000
                &&& r is Some ==> r->0 == 1_000_000_000
                &&& final(resume).clock.listening_since == resume.clock.listening_since
                &&& final(resume).clock.quick_failures == 0
                &&& final(resume).clock.outage_since is None
            },
{
    assert forall|
        resume: &mut ResumeLoop,
        flows: &mut GrantFlows,
        failure: &Failure,
        now: u128,
        r: Option<u128>,
    |
        #[trigger] call_ensures(ResumeLoop::failed, (resume, flows, failure, now), r)
            && can_be_resumed(*resume, flows@, *failure) && time_since(
            resume.clock.listening_since,
            now,
        ) >= 5_000_000_000 implies {
        &&& r is None <==> time_since(resume.pending->0.started, now) >= 170_000_000_000
        &&& r is Some ==> r->0 == 1_000_000_000
        &&& final(resume).clock.listening_since == resume.clock.listening_since
        &&& final(resume).clock.quick_failures == 0
        &&& final(resume).clock.outage_since is None
    } by {
        lemma_misses_the_relay(*failure, resume.pending->0.relay@);
        lemma_waits(0);
    }
}

/// Where the relay was not reached by a listener that died within five seconds of its start, one
/// more quick failure is counted, and the outage goes on since its beginning, or begins with this
/// listener. The wait is the one that is granted for that.
pub proof fn law_a_quick_failure_is_waited_out()
    ensures
        forall|
            resume: &mut ResumeLoop,
            flows: &mut GrantFlows,
            failure: &Failure,
            now: u128,
            r: Option<u128>,
        |
            #[trigger] call_ensures(ResumeLoop::failed, (resume, flows, failure, now), r)
                && can_be_resumed(*resume, flows@, *failure) && time_since(
                resume.clock.listening_since,
                now,
            ) < 5_000_000_000 ==> {
                let since = match resume.clock.outage_since {
                    Some(since) => since,
                    None => resume.clock.listening_since,
                };
                &&& final(resume).clock.listening_since == resume.clock.listening_since
                &&& resume.clock.quick_failures < u32::MAX ==> final(resume).clock.quick_failures
                    == resume.clock.quick_failures + 1
                &&& resume.clock.quick_failures == u32::MAX ==> final(resume).clock.quick_failures
                    == u32::MAX
                &&& final(resume).clock.outage_since == Some(since)
                &&& is_granted(
                    r,
                    resume.clock.quick_failures + 1,
                    time_since(since, now),
                    time_since(resume.pending->0.started, now),
                )
            },
{
    assert forall|
        resume: &mut ResumeLoop,
        flows: &mut GrantFlows,
        failure: &Failure,
        now: u128,
        r: Option<u128>,
    |
        #[trigger] call_ensures(ResumeLoop::failed, (resume, flows, failure, now), r)
            && can_be_resumed(*resume, flows@, *failure) && time_since(
            resume.clock.listening_since,
            now,
        ) < 5_000_000_000 implies {
        let since = match resume.clock.outage_since {
            Some(since) => since,
            None => resume.clock.listening_since,
        };
        &&& final(resume).clock.listening_since == resume.clock.listening_since
        &&& resume.clock.quick_failures < u32::MAX ==> final(resume).clock.quick_failures
            == resume.clock.quick_failures + 1
        &&& resume.clock.quick_failures == u32::MAX ==> final(resume).clock.quick_failures
            == u32::MAX
        &&& final(resume).clock.outage_since == Some(since)
        &&& is_granted(
            r,
            resume.clock.quick_failures + 1,
            time_since(since, now),
            time_since(resume.pending->0.started, now),
        )
    } by {
        lemma_misses_the_relay(*failure, resume.pending->0.relay@);
        lemma_waits(final(resume).clock.quick_failures as nat);
    }
}

/// While a loop waits, everything that is saved stays; when it gives up, what is saved of its own
/// flow is dropped and nothing else. Either way it still awaits the same flow.
pub proof fn law_giving_up_drops_the_flow()
    ensures
        forall|
            resume: &mut ResumeLoop,
            flows: &mut GrantFlows,
            failure: &Failure,
            now: u128,
            r: Option<u128>,
        |
            #[trigger] call_ensures(ResumeLoop::failed, (resume, flows, failure, now), r) ==> {
                &&& final(resume).pending == resume.pending
                &&& r is Some ==> final(flows)@ == flows@
                &&& r is None ==> loses_the_flow_of(flows@, *resume, final(flows)@)
            },
{
}

/// After the wait a loop goes on exactly if its flow is still the current one.
pub proof fn law_only_the_current_flow_is_rejoined(
    resume: ResumeLoop,
    flows: GrantFlows,
    generation: u64,
    current: bool,
    r: bool,
)
    requires
        resume.pending is Some ==> generation == resume.pending->0.generation,
        call_ensures(grant_resume::is_current, (&flows, generation), current),
        call_ensures(ResumeLoop::rejoins, (&resume, &flows), r),
    ensures
        r <==> resume.pending is Some && current,
        current <==> flows@.generation == generation,
{
}

/// A loop is not rejoined any more once another flow was started.
pub proof fn law_a_loop_is_not_rejoined_after_another_start()
    ensures
        forall|
            flows: &mut GrantFlows,
            relay: Option<String>,
            state: Option<GrantFlowState>,
            now: u128,
            after: GrantFlows,
            resume: ResumeLoop,
            r: bool,
        |
            #[trigger] call_ensures(grant_resume::remember_relay, (flows, relay, state, now), ())
                && #[trigger] call_ensures(ResumeLoop::rejoins, (&resume, &after), r) && after
                == *final(flows) && flows@.generation < u64::MAX && resume.pending is Some
                && resume.pending->0.generation <= flows@.generation ==> !r,
{
}

/// A restored listener counts from its own start. What is known of the outage stays, and the flow
/// is the same.
pub proof fn law_a_restored_listener_counts_from_its_start()
    ensures
        forall|resume: &mut ResumeLoop, now: u128|
            #[trigger] call_ensures(ResumeLoop::restored, (resume, now), ()) ==> {
                &&& final(resume).pending == resume.pending
                &&& final(resume).clock.listening_since == now
                &&& final(resume).clock.quick_failures == resume.clock.quick_failures
                &&& final(resume).clock.outage_since == resume.clock.outage_since
            },
{
}

/// Once a flow was approved or could not be restored, what is saved of it is dropped, and nothing
/// of any other flow.
pub proof fn law_an_ended_flow_is_dropped()
    ensures
        forall|resume: &ResumeLoop, flows: &mut GrantFlows|
            #[trigger] call_ensures(ResumeLoop::approved, (resume, flows), ())
                ==> loses_the_flow_of(flows@, *resume, final(flows)@),
        forall|resume: &ResumeLoop, flows: &mut GrantFlows|
            #[trigger] call_ensures(ResumeLoop::restore_failed, (resume, flows), ())
                ==> loses_the_flow_of(flows@, *resume, final(flows)@),
{
}

} // verus!
