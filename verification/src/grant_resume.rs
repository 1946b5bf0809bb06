//! Keeps a pending grant sign-in alive when its relay long-poll dies.
//!
//! The relay inbox is store-and-forward: an approval posted while nobody is polling stays there
//! for about five minutes, until the consumer acknowledges it. A poller gives up after a few
//! transport failures in a row, and the approval then lands in an inbox nobody is reading.
//! Rejoining the *same* channel once the relay can be reached again collects that approval without
//! the user having to approve twice.
//!
//! Times are nanoseconds on a monotonic clock of the caller's.
use crate::failure::{Failure, FailureKind};
use crate::text;
use vstd::prelude::*;

verus! {

/// One second.
pub const SECOND: u128 = 1_000_000_000;

/// A listener that fails this soon after starting never held a long-poll open: that is an outage,
/// not a poll cut short.
pub const QUICK_FAILURE: u128 = 5_000_000_000;

/// How long an outage is waited out. Long enough for a system resolver that keeps failing for a
/// while after a network cut; still short enough that an offline device hears about it well before
/// the caller gives up.
pub const MAX_OUTAGE: u128 = 90_000_000_000;

/// The longest wait before a restore.
pub const MAX_BACKOFF: u128 = 8_000_000_000;

/// Just under a three-minute approval timeout of the caller's: finishing first lets the caller
/// report the relay failure. Well inside the inbox's hold of about five minutes.
pub const RESUME_WINDOW: u128 = 170_000_000_000;

/// What is saved of a local grant flow: enough to listen on its relay channel again.
pub struct GrantFlowState {
    /// The authorization URL shown to the signer.
    pub authorization_url: String,
    /// Secret bytes of the client keypair that the URL names.
    pub client_key_secret: [u8; 32],
}

/// What a restore needs. Holds the relay secret and the client key, so it is dropped as soon as
/// its flow ends.
pub struct PendingGrantFlow {
    pub generation: u64,
    pub state: GrantFlowState,
    pub relay: String,
    pub started: u128,
}

/// The flow that was started last, and how many were started before.
pub struct GrantFlows {
    generation: u64,
    pending: Option<PendingGrantFlow>,
}

pub struct GrantFlowStateView {
    pub authorization_url: Seq<char>,
    pub client_key_secret: Seq<u8>,
}

pub struct PendingGrantFlowView {
    pub generation: u64,
    pub state: GrantFlowStateView,
    pub relay: Seq<char>,
    pub started: u128,
}

pub struct GrantFlowsView {
    pub generation: u64,
    pub pending: Option<PendingGrantFlowView>,
}

impl DeepView for GrantFlowState {
    type V = GrantFlowStateView;

    open spec fn deep_view(&self) -> GrantFlowStateView {
        GrantFlowStateView {
            authorization_url: self.authorization_url@,
            client_key_secret: self.client_key_secret@,
        }
    }
}

impl DeepView for PendingGrantFlow {
    type V = PendingGrantFlowView;

    open spec fn deep_view(&self) -> PendingGrantFlowView {
        PendingGrantFlowView {
            generation: self.generation,
            state: self.state.deep_view(),
            relay: self.relay@,
            started: self.started,
        }
    }
}

impl View for GrantFlows {
    type V = GrantFlowsView;

    closed spec fn view(&self) -> GrantFlowsView {
        GrantFlowsView { generation: self.generation, pending: self.pending.deep_view() }
    }
}

impl Clone for GrantFlowState {
    fn clone(&self) -> (r: Self)
        ensures
            r == *self,
    {
        GrantFlowState {
            authorization_url: self.authorization_url.clone(),
            client_key_secret: self.client_key_secret,
        }
    }
}

impl Clone for PendingGrantFlow {
    fn clone(&self) -> (r: Self)
        ensures
            r == *self,
    {
        PendingGrantFlow {
            generation: self.generation,
            state: self.state.clone(),
            relay: self.relay.clone(),
            started: self.started,
        }
    }
}

impl GrantFlowsView {
    /// A flow that is pending is the one that was started last.
    pub open spec fn wf(self) -> bool {
        match self.pending {
            Some(pending) => pending.generation == self.generation,
            None => true,
        }
    }

    /// These flows once another has been started.
    pub open spec fn remembered(
        self,
        relay: Option<Seq<char>>,
        state: Option<GrantFlowStateView>,
        now: u128,
    ) -> GrantFlowsView {
        let generation = (self.generation + 1) as u64;
        GrantFlowsView {
            generation,
            pending: match (state, relay) {
                (Some(state), Some(relay)) => Some(
                    PendingGrantFlowView { generation, state, relay, started: now },
                ),
                _ => None,
            },
        }
    }

    /// These flows without what is saved of the flow with the given generation.
    pub open spec fn forgotten(self, generation: u64) -> GrantFlowsView {
        GrantFlowsView {
            generation: self.generation,
            pending: match self.pending {
                Some(pending) if pending.generation == generation => None,
                other => other,
            },
        }
    }
}

impl GrantFlows {
    /// No flow was started yet.
    pub fn new() -> (r: Self)
        ensures
            r@ == (GrantFlowsView { generation: 0, pending: None }),
    {
        GrantFlows { generation: 0, pending: None }
    }
}

/// The value of the first pair with the given key.
pub open spec fn first_value(
    pairs: Seq<(Seq<char>, Seq<char>)>,
    key: Seq<char>,
) -> Option<Seq<char>>
    decreases pairs.len(),
{
    if pairs.len() == 0 {
        None
    } else if pairs[0].0 == key {
        Some(pairs[0].1)
    } else {
        first_value(pairs.drop_first(), key)
    }
}

/// Finds the value of the first pair with the given key.
pub fn find_value(pairs: &Vec<(String, String)>, key: &str) -> (r: Option<String>)
    ensures
        r.deep_view() == first_value(pairs.deep_view(), key@),
{
    let mut i: usize = 0;
    proof {
        assert(pairs.deep_view().skip(0) == pairs.deep_view());
    }
    while i < pairs.len()
        invariant
            i <= pairs.len(),
            first_value(pairs.deep_view(), key@) == first_value(
                pairs.deep_view().skip(i as int),
                key@,
            ),
        decreases pairs.len() - i,
    {
        proof {
            assert(pairs.deep_view().skip(i as int).drop_first() == pairs.deep_view().skip(i + 1));
            assert(pairs.deep_view().skip(i as int)[0] == pairs.deep_view()[i as int]);
        }
        if text::same(pairs[i].0.as_str(), key) {
            return Some(pairs[i].1.clone());
        }
        i = i + 1;
    }
    None
}

/// The name and value pairs of a query in the `application/x-www-form-urlencoded` syntax, decoded.
pub uninterp spec fn form_pairs(query: Seq<char>) -> Seq<(Seq<char>, Seq<char>)>;

/// Calls `url::form_urlencoded::parse`, which `Url::query_pairs` is: the decoded pairs, in order,
/// are a function of the query alone.
#[verifier::external_body]
fn query_pairs(query: &str) -> (r: Vec<(String, String)>)
    ensures
        r.deep_view() == form_pairs(query@),
{
    url::form_urlencoded::parse(query.as_bytes()).into_owned().collect()
}

/// Record a just-started flow, whose relay is known. Without a relay, or without state to save,
/// nothing is saved. Either way the flows started before are no longer current.
pub fn remember_relay(
    flows: &mut GrantFlows,
    relay: Option<String>,
    state: Option<GrantFlowState>,
    now: u128,
)
    requires
        old(flows)@.generation < u64::MAX,
    ensures
        final(flows)@ == old(flows)@.remembered(relay.deep_view(), state.deep_view(), now),
        final(flows)@.wf(),
{
    let generation: u64 = flows.generation + 1;
    flows.generation = generation;
    flows.pending = match (state, relay) {
        (Some(state), Some(relay)) => Some(
            PendingGrantFlow { generation, state, relay, started: now },
        ),
        _ => None,
    };
}

/// Record a just-started flow, by the query of its authorization URL and its saved state. Bumping
/// the generation is what stops a resume loop still running for an earlier sign-in: it checks
/// [`is_current`] before every restore.
pub fn remember(flows: &mut GrantFlows, query: &str, state: Option<GrantFlowState>, now: u128)
    requires
        old(flows)@.generation < u64::MAX,
    ensures
        final(flows)@ == old(flows)@.remembered(
            first_value(form_pairs(query@), "relay"@),
            state.deep_view(),
            now,
        ),
        final(flows)@.wf(),
{
    let relay: Option<String> = find_value(&query_pairs(query), "relay");
    remember_relay(flows, relay, state, now);
}

/// What is saved of the pending flow.
pub fn current(flows: &GrantFlows) -> (r: Option<PendingGrantFlow>)
    ensures
        r.deep_view() == flows@.pending,
{
    match &flows.pending {
        Some(pending) => Some(pending.clone()),
        None => None,
    }
}

/// Is the flow with the given generation the one that was started last?
pub fn is_current(flows: &GrantFlows, generation: u64) -> (r: bool)
    ensures
        r == (flows@.generation == generation),
{
    flows.generation == generation
}

/// Drop the saved state for `generation`, and only that one: a superseded loop must not wipe the
/// flow that replaced it.
pub fn forget(flows: &mut GrantFlows, generation: u64)
    ensures
        final(flows)@ == old(flows)@.forgotten(generation),
        old(flows)@.wf() ==> final(flows)@.wf(),
{
    let saved: bool = match &flows.pending {
        Some(pending) => pending.generation == generation,
        None => false,
    };
    if saved {
        flows.pending = None;
    }
}

/// Did polling the relay channel at `relay` fail at the transport level?
pub open spec fn relay_transport_failure(kind: FailureKind, relay: Seq<char>) -> bool {
    let base = text::trimmed_end(relay, '/');
    match kind {
        FailureKind::Transport { url: Some(url) } => url@ == base || text::begins_with(
            url@,
            base + "/"@,
        ),
        _ => false,
    }
}

/// Did polling this flow's relay channel fail at the transport level?
///
/// Only then is a resume safe. Awaiting an approval also exchanges the grant at the homeserver
/// once the relay delivers it, and a transport failure *there* comes after the approval has been
/// acknowledged, which deletes it: a restored listener would wait on an empty inbox forever. The
/// failing URL is what tells the two apart.
pub fn is_relay_transport_failure(failure: &Failure, relay: &str) -> (r: bool)
    ensures
        r == relay_transport_failure(failure.kind, relay@),
{
    match &failure.kind {
        FailureKind::Transport { url: Some(url) } => {
            let base: &str = text::trim_end(relay, '/');
            let mut below: String = base.to_owned();
            below.append("/");
            text::same(url.as_str(), base) || text::starts_with(url.as_str(), below.as_str())
        },
        _ => false,
    }
}

/// How long to wait after the given number of quick failures in a row: a second, doubled for each
/// of them, and at most the longest wait.
pub open spec fn backoff(quick_failures: nat) -> nat {
    let wait = SECOND as nat * vstd::arithmetic::power2::pow2(quick_failures);
    if wait < MAX_BACKOFF {
        wait
    } else {
        MAX_BACKOFF as nat
    }
}

/// The wait before the next restore, or `None` to give up.
pub open spec fn delay_granted(quick_failures: nat, outage: nat, since_start: nat) -> Option<nat> {
    if outage >= MAX_OUTAGE || since_start >= RESUME_WINDOW {
        None
    } else {
        Some(backoff(quick_failures))
    }
}

/// More doublings never make less.
proof fn lemma_doubling_is_monotonic(fewer: nat, more: nat)
    requires
        fewer <= more,
    ensures
        vstd::arithmetic::power2::pow2(fewer) <= vstd::arithmetic::power2::pow2(more),
{
    if fewer < more {
        vstd::arithmetic::power2::lemma_pow2_strictly_increases(fewer, more);
    }
}

/// How long to wait before the next restore, or `None` to give up.
///
/// `quick_failures` counts restores in a row that died on arrival; `outage` is how long that has
/// been going on.
pub fn resume_delay(quick_failures: u32, outage: u128, since_start: u128) -> (r: Option<u128>)
    ensures
        match r {
            Some(delay) => delay_granted(
                quick_failures as nat,
                outage as nat,
                since_start as nat,
            ) == Some(delay as nat),
            None => delay_granted(
                quick_failures as nat,
                outage as nat,
                since_start as nat,
            ) is None,
        },
{
    if outage >= MAX_OUTAGE || since_start >= RESUME_WINDOW {
        return None;
    }
    let doublings: u32 = if quick_failures < 3 {
        quick_failures
    } else {
        3
    };
    proof {
        vstd::arithmetic::power2::lemma2_to64();
        lemma_doubling_is_monotonic(doublings as nat, quick_failures as nat);
        assert(1u128 << 0u32 == 1 && 1u128 << 1u32 == 2 && 1u128 << 2u32 == 4 && 1u128 << 3u32 == 8)
            by (bit_vector);
    }
    let wait: u128 = SECOND * (1u128 << doublings);
    if wait < MAX_BACKOFF {
        Some(wait)
    } else {
        Some(MAX_BACKOFF)
    }
}

/// What a resume loop knows of the time.
#[derive(Clone, Copy, Debug, PartialEq, Eq)]
pub struct ResumeClock {
    /// When the listener started.
    pub listening_since: u128,
    /// How many listeners in a row died on arrival.
    pub quick_failures: u32,
    /// When the first of those started.
    pub outage_since: Option<u128>,
}

/// How much time has passed at `now` since `then`: none, if `then` is still to come.
pub open spec fn elapsed(now: u128, then: u128) -> nat {
    if now >= then {
        (now - then) as nat
    } else {
        0
    }
}

impl ResumeClock {
    /// This clock once the listener has failed at `now`. A listener that died on arrival continues
    /// the outage, or begins one when it started; any other ends it.
    pub open spec fn after_failure(self, now: u128) -> ResumeClock {
        if elapsed(now, self.listening_since) < QUICK_FAILURE {
            ResumeClock {
                listening_since: self.listening_since,
                quick_failures: if self.quick_failures < u32::MAX {
                    (self.quick_failures + 1) as u32
                } else {
                    u32::MAX
                },
                outage_since: match self.outage_since {
                    Some(since) => Some(since),
                    None => Some(self.listening_since),
                },
            }
        } else {
            ResumeClock {
                listening_since: self.listening_since,
                quick_failures: 0,
                outage_since: None,
            }
        }
    }

    /// This clock once a restored listener has started at `now`.
    pub open spec fn after_restore(self, now: u128) -> ResumeClock {
        ResumeClock { listening_since: now, ..self }
    }

    /// How long the outage has been going on at `now`.
    pub open spec fn outage(self, now: u128) -> nat {
        match self.outage_since {
            Some(since) => elapsed(now, since),
            None => 0,
        }
    }

    /// The wait before the next restore of a flow that was started at `started`, for a listener
    /// whose failure at `now` this clock has taken in.
    pub open spec fn delay(self, started: u128, now: u128) -> Option<nat> {
        delay_granted(self.quick_failures as nat, self.outage(now), elapsed(now, started))
    }

    /// Takes in that the listener failed at `now`.
    fn failed(&mut self, now: u128)
        ensures
            *final(self) == old(self).after_failure(now),
    {
        if now.saturating_sub(self.listening_since) < QUICK_FAILURE {
            if self.outage_since.is_none() {
                self.outage_since = Some(self.listening_since);
            }
            self.quick_failures = self.quick_failures.saturating_add(1);
        } else {
            self.outage_since = None;
            self.quick_failures = 0;
        }
    }
}

/// An approval that is awaited, rejoining the same relay channel whenever the poll dies at the
/// transport level.
pub struct ResumeLoop {
    /// What is saved of the flow whose approval is awaited. Without it there is no rejoining.
    pub pending: Option<PendingGrantFlow>,
    pub clock: ResumeClock,
}

/// Begins to await the approval of the flow whose authorization URL is `flow_url`. Only that flow
/// is resumed: what is saved of any other is not this one's.
pub fn await_resuming(flows: &GrantFlows, flow_url: &str, now: u128) -> (r: ResumeLoop)
    ensures
        r.pending.deep_view() == match flows@.pending {
            Some(pending) if pending.state.authorization_url == flow_url@ => Some(pending),
            _ => None,
        },
        r.clock == (ResumeClock {
            listening_since: match r.pending {
                Some(pending) => pending.started,
                None => now,
            },
            quick_failures: 0,
            outage_since: None,
        }),
{
    let pending: Option<PendingGrantFlow> = match current(flows) {
        Some(pending) => if text::same(pending.state.authorization_url.as_str(), flow_url) {
            Some(pending)
        } else {
            None
        },
        None => None,
    };
    let listening_since: u128 = match &pending {
        Some(pending) => pending.started,
        None => now,
    };
    ResumeLoop {
        pending,
        clock: ResumeClock { listening_since, quick_failures: 0, outage_since: None },
    }
}

impl ResumeLoop {
    /// The given flows without what is saved of this loop's flow.
    pub open spec fn dropped_from(self, flows: GrantFlowsView) -> GrantFlowsView {
        match self.pending {
            Some(pending) => flows.forgotten(pending.generation),
            None => flows,
        }
    }

    /// Is a flow that failed like this to be resumed at all? Only if its state is saved, its relay
    /// channel is what could not be reached, and no other flow was started since.
    pub open spec fn resumable(self, flows: GrantFlowsView, kind: FailureKind) -> bool {
        match self.pending {
            Some(pending) => relay_transport_failure(kind, pending.relay@) && flows.generation
                == pending.generation,
            None => false,
        }
    }

    /// Drops what is saved of this loop's flow.
    fn drop_pending(&self, flows: &mut GrantFlows)
        ensures
            final(flows)@ == self.dropped_from(old(flows)@),
            old(flows)@.wf() ==> final(flows)@.wf(),
    {
        if let Some(pending) = &self.pending {
            forget(flows, pending.generation);
        }
    }

    /// The flow was approved: the session is the result, and what is saved of the flow is dropped.
    pub fn approved(&self, flows: &mut GrantFlows)
        ensures
            final(flows)@ == self.dropped_from(old(flows)@),
            old(flows)@.wf() ==> final(flows)@.wf(),
    {
        self.drop_pending(flows);
    }

    /// The flow failed at `now`. `Some` is how long to wait before asking [`ResumeLoop::rejoins`].
    /// With `None` the failure is the result, and what is saved of the flow is dropped.
    pub fn failed(&mut self, flows: &mut GrantFlows, failure: &Failure, now: u128) -> (r: Option<
        u128,
    >)
        ensures
            final(self).pending == old(self).pending,
            old(flows)@.wf() ==> final(flows)@.wf(),
            if old(self).resumable(old(flows)@, failure.kind) {
                let started = old(self).pending->0.started;
                let clock = old(self).clock.after_failure(now);
                &&& final(self).clock == clock
                &&& match r {
                    Some(delay) => {
                        &&& clock.delay(started, now) == Some(delay as nat)
                        &&& final(flows)@ == old(flows)@
                    },
                    None => {
                        &&& clock.delay(started, now) is None
                        &&& final(flows)@ == old(self).dropped_from(old(flows)@)
                    },
                }
            } else {
                &&& r is None
                &&& final(self).clock == old(self).clock
                &&& final(flows)@ == old(self).dropped_from(old(flows)@)
            },
    {
        let resumed: Option<u128> = match &self.pending {
            Some(pending) => if is_relay_transport_failure(failure, pending.relay.as_str())
                && is_current(flows, pending.generation) {
                Some(pending.started)
            } else {
                None
            },
            None => None,
        };
        let delay: Option<u128> = match resumed {
            Some(started) => {
                self.clock.failed(now);
                let outage: u128 = match self.clock.outage_since {
                    Some(since) => now.saturating_sub(since),
                    None => 0,
                };
                resume_delay(self.clock.quick_failures, outage, now.saturating_sub(started))
            },
            None => None,
        };
        if delay.is_none() {
            self.drop_pending(flows);
        }
        delay
    }

    /// After the wait: is the flow to be restored now? If another was started meanwhile, the
    /// failure is the result, and nothing is dropped.
    pub fn rejoins(&self, flows: &GrantFlows) -> (r: bool)
        ensures
            r == match self.pending {
                Some(pending) => flows@.generation == pending.generation,
                None => false,
            },
    {
        match &self.pending {
            Some(pending) => is_current(flows, pending.generation),
            None => false,
        }
    }

    /// The flow was restored, and its listener started at `now`.
    pub fn restored(&mut self, now: u128)
        ensures
            final(self).pending == old(self).pending,
            final(self).clock == old(self).clock.after_restore(now),
    {
        self.clock.listening_since = now;
    }

    /// The flow could not be restored: that failure is the result, and what is saved of the flow
    /// is dropped.
    pub fn restore_failed(&self, flows: &mut GrantFlows)
        ensures
            final(flows)@ == self.dropped_from(old(flows)@),
            old(flows)@.wf() ==> final(flows)@.wf(),
    {
        self.drop_pending(flows);
    }
}

/// A wait that is granted lasts between one second and the longest wait, and is no shorter after
/// more quick failures.
pub proof fn law_waits_grow_within_bounds(
    fewer: nat,
    more: nat,
    outage: nat,
    since_start: nat,
)
    requires
        fewer <= more,
    ensures
        delay_granted(fewer, outage, since_start) is Some <==> delay_granted(
            more,
            outage,
            since_start,
        ) is Some,
        delay_granted(more, outage, since_start) matches Some(longer) ==> {
            &&& delay_granted(fewer, outage, since_start) matches Some(shorter)
            &&& SECOND <= shorter <= longer <= MAX_BACKOFF
        },
{
    vstd::arithmetic::power2::lemma2_to64();
    lemma_doubling_is_monotonic(0, fewer);
    lemma_doubling_is_monotonic(fewer, more);
}

/// Every wait that is granted ends within three minutes of the flow's start.
pub proof fn law_waits_end_within_three_minutes(quick_failures: nat, outage: nat, since_start: nat)
    ensures
        delay_granted(quick_failures, outage, since_start) matches Some(delay) ==> since_start
            + delay < 180 * SECOND,
{
}

/// Giving up is final: once an outage or the flow is too old for another wait, it stays so.
pub proof fn law_giving_up_is_final(
    quick_failures: nat,
    outage: nat,
    since_start: nat,
    later_quick_failures: nat,
    later_outage: nat,
    later_since_start: nat,
)
    requires
        delay_granted(quick_failures, outage, since_start) is None,
        outage <= later_outage,
        since_start <= later_since_start,
    ensures
        delay_granted(later_quick_failures, later_outage, later_since_start) is None,
{
}

/// A flow that is started makes every flow before it stale, and what is saved of it is current.
pub proof fn law_a_new_flow_supersedes(
    flows: GrantFlowsView,
    relay: Option<Seq<char>>,
    state: Option<GrantFlowStateView>,
    now: u128,
    earlier: u64,
)
    requires
        flows.generation < u64::MAX,
        earlier <= flows.generation,
    ensures
        ({
            let after = flows.remembered(relay, state, now);
            &&& after.generation != earlier
            &&& after.wf()
            &&& after.pending is Some <==> relay is Some && state is Some
        }),
{
}

/// A superseded loop does not wipe the flow that replaced it: forgetting an earlier generation
/// changes nothing.
pub proof fn law_a_superseded_loop_wipes_nothing(
    flows: GrantFlowsView,
    relay: Option<Seq<char>>,
    state: Option<GrantFlowStateView>,
    now: u128,
    stale: u64,
)
    requires
        flows.generation < u64::MAX,
        stale <= flows.generation,
    ensures
        flows.remembered(relay, state, now).forgotten(stale) == flows.remembered(relay, state, now),
{
}

/// A superseded loop is not resumed, whatever its failure was.
pub proof fn law_a_superseded_loop_is_not_resumed(
    resume: ResumeLoop,
    flows: GrantFlowsView,
    relay: Option<Seq<char>>,
    state: Option<GrantFlowStateView>,
    now: u128,
    kind: FailureKind,
)
    requires
        flows.generation < u64::MAX,
        resume.pending matches Some(pending) ==> pending.generation <= flows.generation,
    ensures
        !resume.resumable(flows.remembered(relay, state, now), kind),
{
}

/// What was forgotten is gone, and forgetting it again changes nothing.
pub proof fn law_forgetting_is_idempotent(flows: GrantFlowsView, generation: u64)
    ensures
        ({
            let after = flows.forgotten(generation);
            &&& after.pending matches Some(pending) ==> pending.generation != generation
            &&& after.forgotten(generation) == after
            &&& after.generation == flows.generation
        }),
{
}

/// Slashes at the end of a relay's address make no difference.
pub proof fn law_trailing_slashes_make_no_difference(kind: FailureKind, relay: Seq<char>)
    ensures
        relay_transport_failure(kind, relay.push('/')) == relay_transport_failure(kind, relay),
{
    assert(relay.push('/').drop_last() == relay);
}

/// A failure anywhere else than at the relay is not the relay's: not a transport failure to an
/// unknown place, and no failure that is not one of transport.
pub proof fn law_only_transport_failures_are_the_relays(kind: FailureKind, relay: Seq<char>)
    requires
        relay_transport_failure(kind, relay),
    ensures
        kind matches FailureKind::Transport { url: Some(url) } && text::begins_with(
            url@,
            text::trimmed_end(relay, '/'),
        ),
{
    let base = text::trimmed_end(relay, '/');
    if let FailureKind::Transport { url: Some(url) } = kind {
        if text::begins_with(url@, base + "/"@) {
            assert(url@.take(base.len() as int) == (base + "/"@).take(base.len() as int));
            assert((base + "/"@).take(base.len() as int) == base);
        } else {
            assert(url@.take(base.len() as int) == base);
        }
    }
}

/// One turn of a resume loop: the listener failed, and was restored after the wait.
pub struct Rejoin {
    pub failed_at: u128,
    pub restored_at: u128,
}

/// The turns that a resume loop can take, by a clock that does not run backwards: no listener
/// fails before it started, and no wait is cut short.
pub open spec fn is_resumption(clock: ResumeClock, started: u128, rejoins: Seq<Rejoin>) -> bool
    decreases rejoins.len(),
{
    rejoins.len() > 0 ==> {
        let turn = rejoins[0];
        let failed = clock.after_failure(turn.failed_at);
        &&& clock.listening_since <= turn.failed_at
        &&& failed.delay(started, turn.failed_at) matches Some(delay)
        &&& turn.failed_at + delay <= turn.restored_at
        &&& is_resumption(failed.after_restore(turn.restored_at), started, rejoins.drop_first())
    }
}

/// What a resume loop knows of the time after the given turns.
pub open spec fn clock_after(clock: ResumeClock, rejoins: Seq<Rejoin>) -> ResumeClock
    decreases rejoins.len(),
{
    if rejoins.len() == 0 {
        clock
    } else {
        let turn = rejoins[0];
        clock_after(
            clock.after_failure(turn.failed_at).after_restore(turn.restored_at),
            rejoins.drop_first(),
        )
    }
}

proof fn lemma_resumption_takes_time(clock: ResumeClock, started: u128, rejoins: Seq<Rejoin>)
    requires
        started <= clock.listening_since,
        is_resumption(clock, started, rejoins),
    ensures
        rejoins.len() > 0 ==> clock.listening_since - started + (rejoins.len() - 1) * SECOND
            < RESUME_WINDOW,
        clock_after(clock, rejoins).quick_failures <= clock.quick_failures + rejoins.len(),
    decreases rejoins.len(),
{
    if rejoins.len() > 0 {
        let turn = rejoins[0];
        let failed = clock.after_failure(turn.failed_at);
        law_waits_grow_within_bounds(
            failed.quick_failures as nat,
            failed.quick_failures as nat,
            failed.outage(turn.failed_at),
            elapsed(turn.failed_at, started),
        );
        lemma_resumption_takes_time(
            failed.after_restore(turn.restored_at),
            started,
            rejoins.drop_first(),
        );
    }
}

/// A flow is rejoined at most 170 times, so the quick failures are counted exactly.
pub proof fn law_rejoins_are_bounded(started: u128, rejoins: Seq<Rejoin>)
    requires
        is_resumption(
            ResumeClock { listening_since: started, quick_failures: 0, outage_since: None },
            started,
            rejoins,
        ),
    ensures
        rejoins.len() <= 170,
        clock_after(
            ResumeClock { listening_since: started, quick_failures: 0, outage_since: None },
            rejoins,
        ).quick_failures <= 170,
{
    lemma_resumption_takes_time(
        ResumeClock { listening_since: started, quick_failures: 0, outage_since: None },
        started,
        rejoins,
    );
}

} // verus!
