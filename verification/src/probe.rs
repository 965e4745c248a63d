//! Payments that are sent only to learn whether they would arrive.
use crate::encoding::{hex_decoded, node_pubkey_bytes, HexError};
use crate::hashing::{sha256, unknown_payment_hash};
use crate::network::{failure_reason, reason_of, Channel, Failure, FailureReason, Route};
use crate::time::Timestamp;
use vstd::prelude::*;
use vstd::utf8::*;

verus! {

/// How often a probe is tried.
pub const MAX_ATTEMPTS: i16 = 3;

/// How long the answer to a payment is waited for, in seconds.
pub const SEND_TIMEOUT: u64 = 60;

/// A probe of the way to some node, and what came of it.
#[derive(Debug)]
pub struct PaymentProbe {
    pub created_at: Timestamp,
    pub src_node_pubkey: String,
    /// The channel that the probe has to leave by, if it is not free to choose.
    pub channel: Option<Channel>,
    pub dst_node_pubkey: String,
    pub amount_msat: u64,
    pub attempts: Vec<PaymentProbeAttempt>,
}

/// One try of a probe. It arrived where there is no failure.
#[derive(Debug)]
pub struct PaymentProbeAttempt {
    pub seqno: i16,
    pub created_at: Timestamp,
    pub route: Route,
    pub latency_ns: i64,
    pub failure: Option<Failure>,
}

impl PaymentProbe {
    /// A probe that has not been tried yet, of an amount in satoshi.
    pub fn new(
        created_at: Timestamp,
        src_node_pubkey: &String,
        channel: Option<Channel>,
        dst_node_pubkey: &String,
        amount_sat: u64,
    ) -> (r: PaymentProbe)
        requires
            amount_sat * 1000 <= u64::MAX,
        ensures
            r.created_at == created_at,
            r.src_node_pubkey@ == src_node_pubkey@,
            r.channel == channel,
            r.dst_node_pubkey@ == dst_node_pubkey@,
            r.amount_msat == amount_sat * 1000,
            r.attempts@.len() == 0,
    {
        PaymentProbe {
            created_at,
            src_node_pubkey: src_node_pubkey.clone(),
            channel,
            dst_node_pubkey: dst_node_pubkey.clone(),
            amount_msat: amount_sat * 1000,
            attempts: Vec::new(),
        }
    }
}

/// How a probe ended.
#[derive(Clone, Copy, Debug, PartialEq, Eq, Structural)]
pub enum ProbeEnd {
    /// It ran its course, or was broken off.
    Finished,
    /// A payment could not be handed to the node.
    Failed,
    /// A payment was settled, though nobody knows how to settle it.
    UnexpectedSuccess,
}

/// How far a probe has come.
#[derive(Debug)]
pub enum ProbePhase {
    /// A route is needed for the next try.
    Ready { attempt: i16 },
    /// A payment is to be sent along the route, which is the one at position
    /// `choice` of those that the node knows.
    Routed { attempt: i16, choice: usize, route: Route },
    /// There is nothing left to do.
    Done(ProbeEnd),
}

/// What the node told of a payment that was sent.
#[derive(Clone, Copy, Debug)]
pub struct SendOutcome {
    pub attempt_time_ns: i64,
    pub resolve_time_ns: i64,
    /// When the answer was received.
    pub received_at: Timestamp,
    pub failure: Option<Failure>,
}

/// What happens to a probe.
#[derive(Debug)]
pub enum ProbeEvent {
    /// It is broken off.
    Cancelled,
    /// The node could not be asked for a route.
    NoAnswer,
    /// The node knows these routes, the best first.
    Routes(Vec<Route>),
    /// There was no answer to the payment in time.
    TimedOut,
    /// The payment could not be handed to the node.
    SendFailed,
    /// The payment was answered.
    Resolved(SendOutcome),
}

/// How long a payment took, in nanoseconds.
pub open spec fn latency(outcome: SendOutcome) -> int {
    outcome.resolve_time_ns - outcome.attempt_time_ns
}

/// Whether the latency of a payment that an event tells of fits in 64 bits.
pub open spec fn latency_fits(event: ProbeEvent) -> bool {
    event matches ProbeEvent::Resolved(outcome) ==> i64::MIN <= latency(outcome) <= i64::MAX
}

/// Whether a payment that was refused has arrived: its destination is the one that
/// knows nothing of it.
pub open spec fn arrives(failure: Failure) -> bool {
    reason_of(failure.code as int) == FailureReason::IncorrectOrUnknownPaymentDetails
}

/// What is noted of a try.
pub open spec fn noted(
    attempt: i16,
    route: Route,
    outcome: SendOutcome,
    failure: Failure,
) -> PaymentProbeAttempt {
    PaymentProbeAttempt {
        seqno: attempt,
        created_at: outcome.received_at,
        route,
        latency_ns: latency(outcome) as i64,
        failure: if arrives(failure) {
            None
        } else {
            Some(failure)
        },
    }
}

/// What an event makes of a probe: how far it has come then, and its tries.
pub open spec fn probe_next(
    phase: ProbePhase,
    attempts: Seq<PaymentProbeAttempt>,
    event: ProbeEvent,
) -> (ProbePhase, Seq<PaymentProbeAttempt>) {
    match (phase, event) {
        (ProbePhase::Ready { .. }, ProbeEvent::Cancelled) => (
            ProbePhase::Done(ProbeEnd::Finished),
            attempts,
        ),
        (ProbePhase::Ready { .. }, ProbeEvent::NoAnswer) => (
            ProbePhase::Done(ProbeEnd::Finished),
            attempts,
        ),
        (ProbePhase::Ready { attempt }, ProbeEvent::Routes(routes)) => (
            if routes@.len() > 0 {
                ProbePhase::Routed { attempt, choice: 0, route: routes@[0] }
            } else {
                ProbePhase::Done(ProbeEnd::Finished)
            },
            attempts,
        ),
        (ProbePhase::Routed { .. }, ProbeEvent::Cancelled) => (
            ProbePhase::Done(ProbeEnd::Finished),
            attempts,
        ),
        (ProbePhase::Routed { .. }, ProbeEvent::TimedOut) => (
            ProbePhase::Done(ProbeEnd::Finished),
            attempts,
        ),
        (ProbePhase::Routed { .. }, ProbeEvent::SendFailed) => (
            ProbePhase::Done(ProbeEnd::Failed),
            attempts,
        ),
        (ProbePhase::Routed { attempt, route, .. }, ProbeEvent::Resolved(outcome)) => {
            match outcome.failure {
                None => (ProbePhase::Done(ProbeEnd::UnexpectedSuccess), attempts),
                Some(failure) => (
                    if !arrives(failure) && attempt + 1 < MAX_ATTEMPTS {
                        ProbePhase::Ready { attempt: (attempt + 1) as i16 }
                    } else {
                        ProbePhase::Done(ProbeEnd::Finished)
                    },
                    attempts.push(noted(attempt, route, outcome, failure)),
                ),
            }
        },
        _ => (phase, attempts),
    }
}

/// A question for routes, to be put to the node.
#[derive(Debug)]
pub struct RoutesQuery {
    pub source_pub_key: String,
    pub pub_key: String,
    /// In satoshi; 0, as the amount is given in millisatoshi.
    pub amt: i64,
    pub amt_msat: i64,
    /// The pair of nodes between which no direct channel is to be used.
    pub ignored_from: Vec<u8>,
    pub ignored_to: Vec<u8>,
    /// The channel that the route has to start with; 0 where any will do.
    pub outgoing_chan_id: u64,
    /// The longest time lock of the route; 0 where any will do.
    pub cltv_limit: u32,
    pub final_cltv_delta: i32,
    pub fee_limit_sat: i64,
    pub use_mission_control: bool,
}

/// A payment, to be sent by the node.
#[derive(Debug)]
pub struct SendRequest {
    pub payment_hash: Vec<u8>,
    /// The position of the route among those that the node gave.
    pub choice: usize,
    /// Whether failures that may pass are kept from the node's own records.
    pub skip_temp_err: bool,
    /// How long the answer is waited for, in seconds.
    pub timeout: u64,
}

/// A probe that is being run.
#[derive(Debug)]
pub struct ProbeRun {
    pub probe: PaymentProbe,
    pub phase: ProbePhase,
    pub src_node: Vec<u8>,
    pub dst_node: Vec<u8>,
}

impl ProbeRun {
    /// Whether the two ends of the probe are known by the bytes of their keys.
    pub open spec fn wf(self) -> bool {
        &&& hex_decoded(encode_utf8(self.probe.src_node_pubkey@)) == Ok::<Seq<u8>, HexError>(
            self.src_node@,
        )
        &&& hex_decoded(encode_utf8(self.probe.dst_node_pubkey@)) == Ok::<Seq<u8>, HexError>(
            self.dst_node@,
        )
    }

    /// Starts a probe. Both ends have to be known by public keys.
    pub fn start(probe: PaymentProbe) -> (r: Result<ProbeRun, HexError>)
        ensures
            match hex_decoded(encode_utf8(probe.src_node_pubkey@)) {
                Err(e) => r == Err::<ProbeRun, HexError>(e),
                Ok(_) => match hex_decoded(encode_utf8(probe.dst_node_pubkey@)) {
                    Err(e) => r == Err::<ProbeRun, HexError>(e),
                    Ok(_) => {
                        &&& r is Ok
                        &&& r->Ok_0.wf()
                        &&& r->Ok_0.probe == probe
                        &&& r->Ok_0.phase == (ProbePhase::Ready { attempt: 0 })
                    },
                },
            },
    {
        let src_node = match node_pubkey_bytes(probe.src_node_pubkey.as_str()) {
            Ok(bytes) => bytes,
            Err(e) => return Err(e),
        };
        let dst_node = match node_pubkey_bytes(probe.dst_node_pubkey.as_str()) {
            Ok(bytes) => bytes,
            Err(e) => return Err(e),
        };
        Ok(ProbeRun { probe, phase: ProbePhase::Ready { attempt: 0 }, src_node, dst_node })
    }

    /// The question for a route that the next try needs. Direct channels between
    /// the two ends are left out: the local node charges nothing for its own
    /// payments, so they would tell nothing of the fee.
    pub fn routes_query(&self) -> (r: RoutesQuery)
        requires
            self.wf(),
        ensures
            r.source_pub_key@ == self.probe.src_node_pubkey@,
            r.pub_key@ == self.probe.dst_node_pubkey@,
            r.amt == 0,
            r.amt_msat == self.probe.amount_msat as i64,
            Ok::<Seq<u8>, HexError>(r.ignored_from@) == hex_decoded(
                encode_utf8(self.probe.src_node_pubkey@),
            ),
            Ok::<Seq<u8>, HexError>(r.ignored_to@) == hex_decoded(
                encode_utf8(self.probe.dst_node_pubkey@),
            ),
            r.outgoing_chan_id == match self.probe.channel {
                Some(channel) => channel.chan_id,
                None => 0,
            },
            r.cltv_limit == 0,
            r.final_cltv_delta == 144,
            r.fee_limit_sat == 100_000,
            r.use_mission_control,
    {
        let outgoing_chan_id: u64 = match &self.probe.channel {
            Some(channel) => channel.chan_id,
            None => 0,
        };
        let ignored_from = self.src_node.clone();
        let ignored_to = self.dst_node.clone();
        assert(ignored_from@ =~= self.src_node@);
        assert(ignored_to@ =~= self.dst_node@);
        RoutesQuery {
            source_pub_key: self.probe.src_node_pubkey.clone(),
            pub_key: self.probe.dst_node_pubkey.clone(),
            amt: 0,
            amt_msat: #[verifier::truncate] (self.probe.amount_msat as i64),
            ignored_from,
            ignored_to,
            outgoing_chan_id,
            cltv_limit: 0,
            final_cltv_delta: 144,
            fee_limit_sat: 100_000,
            use_mission_control: true,
        }
    }

    /// The payment that is to be sent, if the probe has come so far. Nobody knows
    /// how to settle it.
    pub fn send_request(&self) -> (r: Option<SendRequest>)
        ensures
            r is Some <==> self.phase is Routed,
            r matches Some(request) ==> {
                &&& exists|preimage: [u8; 32]| request.payment_hash@ == #[trigger] sha256(preimage@)
                &&& request.payment_hash@.len() == 32
                &&& request.choice == self.phase->choice
                &&& !request.skip_temp_err
                &&& request.timeout == SEND_TIMEOUT
            },
    {
        match &self.phase {
            ProbePhase::Routed { choice, .. } => Some(
                SendRequest {
                    payment_hash: unknown_payment_hash(),
                    choice: *choice,
                    skip_temp_err: false,
                    timeout: SEND_TIMEOUT,
                },
            ),
            _ => None,
        }
    }

    /// Takes the probe on by what happened to it. What cannot happen to it as far
    /// as it has come changes nothing.
    pub fn run_payment_probe(self, event: ProbeEvent) -> (r: ProbeRun)
        requires
            latency_fits(event),
        ensures
            (r.phase, r.probe.attempts@) == probe_next(self.phase, self.probe.attempts@, event),
            r.probe.created_at == self.probe.created_at,
            r.probe.src_node_pubkey == self.probe.src_node_pubkey,
            r.probe.channel == self.probe.channel,
            r.probe.dst_node_pubkey == self.probe.dst_node_pubkey,
            r.probe.amount_msat == self.probe.amount_msat,
            r.src_node == self.src_node,
            r.dst_node == self.dst_node,
            self.wf() ==> r.wf(),
    {
        let ProbeRun { probe, phase, src_node, dst_node } = self;
        let mut probe = probe;
        let phase = match (phase, event) {
            (ProbePhase::Ready { .. }, ProbeEvent::Cancelled) => ProbePhase::Done(
                ProbeEnd::Finished,
            ),
            (ProbePhase::Ready { .. }, ProbeEvent::NoAnswer) => ProbePhase::Done(
                ProbeEnd::Finished,
            ),
            (ProbePhase::Ready { attempt }, ProbeEvent::Routes(routes)) => {
                if routes.len() > 0 {
                    let mut routes = routes;
                    ProbePhase::Routed { attempt, choice: 0, route: routes.remove(0) }
                } else {
                    ProbePhase::Done(ProbeEnd::Finished)
                }
            },
            (ProbePhase::Routed { .. }, ProbeEvent::Cancelled) => ProbePhase::Done(
                ProbeEnd::Finished,
            ),
            (ProbePhase::Routed { .. }, ProbeEvent::TimedOut) => ProbePhase::Done(
                ProbeEnd::Finished,
            ),
            (ProbePhase::Routed { .. }, ProbeEvent::SendFailed) => ProbePhase::Done(
                ProbeEnd::Failed,
            ),
            (ProbePhase::Routed { attempt, route, .. }, ProbeEvent::Resolved(outcome)) => {
                let latency_ns: i64 = outcome.resolve_time_ns - outcome.attempt_time_ns;
                match outcome.failure {
                    None => ProbePhase::Done(ProbeEnd::UnexpectedSuccess),
                    Some(failure) => {
                        let arrived = match failure_reason(failure.code) {
                            FailureReason::IncorrectOrUnknownPaymentDetails => true,
                            FailureReason::Other => false,
                        };
                        probe.attempts.push(
                            PaymentProbeAttempt {
                                seqno: attempt,
                                created_at: outcome.received_at,
                                route,
                                latency_ns,
                                failure: if arrived {
                                    None
                                } else {
                                    Some(failure)
                                },
                            },
                        );
                        if !arrived && attempt < MAX_ATTEMPTS - 1 {
                            ProbePhase::Ready { attempt: attempt + 1 }
                        } else {
                            ProbePhase::Done(ProbeEnd::Finished)
                        }
                    },
                }
            },
            (phase, _) => phase,
        };
        ProbeRun { probe, phase, src_node, dst_node }
    }
}

// What holds of every probe.

/// What a series of events makes of a probe.
pub open spec fn probe_after(
    phase: ProbePhase,
    attempts: Seq<PaymentProbeAttempt>,
    events: Seq<ProbeEvent>,
) -> (ProbePhase, Seq<PaymentProbeAttempt>)
    decreases events.len(),
{
    if events.len() == 0 {
        (phase, attempts)
    } else {
        let before = probe_after(phase, attempts, events.drop_last());
        probe_next(before.0, before.1, events.last())
    }
}

/// Whether the tries are numbered from 0 on, and all but the last of them failed.
pub open spec fn in_sequence(attempts: Seq<PaymentProbeAttempt>) -> bool {
    &&& attempts.len() <= MAX_ATTEMPTS
    &&& forall|i: int| 0 <= i < attempts.len() ==> (#[trigger] attempts[i]).seqno == i
    &&& forall|i: int| 0 <= i < attempts.len() - 1 ==> (#[trigger] attempts[i]).failure is Some
}

/// Whether a probe and its tries belong together: as long as it is not done, it
/// has failed as often as it was tried, and is to be tried once more.
pub open spec fn on_course(phase: ProbePhase, attempts: Seq<PaymentProbeAttempt>) -> bool {
    let still_to_try = |attempt: i16|
        {
            &&& 0 <= attempt < MAX_ATTEMPTS
            &&& attempts.len() == attempt
            &&& forall|i: int| 0 <= i < attempts.len() ==> (#[trigger] attempts[i]).failure is Some
        };
    &&& in_sequence(attempts)
    &&& match phase {
        ProbePhase::Ready { attempt } => still_to_try(attempt),
        ProbePhase::Routed { attempt, .. } => still_to_try(attempt),
        ProbePhase::Done(_) => true,
    }
}

/// Whatever happens to a probe, it is tried at most three times, its tries are
/// numbered in sequence, and after one that arrived there is no other.
pub proof fn law_probe_stops_at_first_arrival(events: Seq<ProbeEvent>)
    ensures
        ({
            let (phase, attempts) = probe_after(
                ProbePhase::Ready { attempt: 0 },
                Seq::empty(),
                events,
            );
            on_course(phase, attempts)
        }),
    decreases events.len(),
{
    if events.len() > 0 {
        law_probe_stops_at_first_arrival(events.drop_last());
        let (phase, attempts) = probe_after(
            ProbePhase::Ready { attempt: 0 },
            Seq::empty(),
            events.drop_last(),
        );
        let (next, after) = probe_next(phase, attempts, events.last());
        assert(on_course(next, after));
    }
}

/// A probe that is done stays as it is.
pub proof fn law_done_is_done(
    end: ProbeEnd,
    attempts: Seq<PaymentProbeAttempt>,
    event: ProbeEvent,
)
    ensures
        probe_next(ProbePhase::Done(end), attempts, event) == (ProbePhase::Done(end), attempts),
{
}

/// A payment that was refused ends a probe only where it arrived, or where the third
/// try has failed: after any other refusal, whatever its code, the probe is ready
/// for the next try.
pub proof fn law_refused_probes_are_tried_again(
    attempt: i16,
    choice: usize,
    route: Route,
    attempts: Seq<PaymentProbeAttempt>,
    outcome: SendOutcome,
    failure: Failure,
)
    requires
        0 <= attempt,
        outcome.failure == Some(failure),
    ensures
        ({
            let next = probe_next(
                ProbePhase::Routed { attempt, choice, route },
                attempts,
                ProbeEvent::Resolved(outcome),
            ).0;
            &&& failure.code != 1 && attempt < 2 ==> next == (ProbePhase::Ready {
                attempt: (attempt + 1) as i16,
            })
            &&& failure.code == 1 || attempt >= 2 ==> next == ProbePhase::Done(ProbeEnd::Finished)
        }),
{
}

/// A try is noted exactly where the payment was refused: with its number, the route
/// that it took, the time from when it was sent to when it was answered, when the
/// answer was received, and the refusal, unless the payment arrived. What was noted
/// before stays.
pub proof fn law_tries_are_noted(
    attempt: i16,
    choice: usize,
    route: Route,
    attempts: Seq<PaymentProbeAttempt>,
    outcome: SendOutcome,
)
    ensures
        ({
            let after = probe_next(
                ProbePhase::Routed { attempt, choice, route },
                attempts,
                ProbeEvent::Resolved(outcome),
            ).1;
            &&& outcome.failure is None ==> after == attempts
            &&& outcome.failure matches Some(failure) ==> {
                &&& after.len() == attempts.len() + 1
                &&& after.drop_last() == attempts
                &&& after.last().seqno == attempt
                &&& after.last().route == route
                &&& i64::MIN <= outcome.resolve_time_ns - outcome.attempt_time_ns <= i64::MAX
                    ==> after.last().latency_ns == outcome.resolve_time_ns
                    - outcome.attempt_time_ns
                &&& after.last().created_at == outcome.received_at
                &&& failure.code == 1 ==> after.last().failure is None
                &&& failure.code != 1 ==> after.last().failure == Some(failure)
            }
        }),
{
    let after = probe_next(
        ProbePhase::Routed { attempt, choice, route },
        attempts,
        ProbeEvent::Resolved(outcome),
    ).1;
    if outcome.failure is Some {
        assert(after.drop_last() =~= attempts);
    }
}

/// A payment that was settled ends the probe at once, and is told apart from every
/// other end; so is one that could not be sent.
pub proof fn law_ends_are_told_apart(
    phase: ProbePhase,
    attempts: Seq<PaymentProbeAttempt>,
    event: ProbeEvent,
)
    requires
        !(phase is Done),
    ensures
        probe_next(phase, attempts, event).0 == ProbePhase::Done(ProbeEnd::UnexpectedSuccess)
            <==> phase is Routed && (event matches ProbeEvent::Resolved(outcome) && outcome.failure
            is None),
        probe_next(phase, attempts, event).0 == ProbePhase::Done(ProbeEnd::Failed) <==> phase
            is Routed && event is SendFailed,
        event is Cancelled ==> probe_next(phase, attempts, event).0 == ProbePhase::Done(
            ProbeEnd::Finished,
        ),
        phase is Routed && event is TimedOut ==> probe_next(phase, attempts, event).0
            == ProbePhase::Done(ProbeEnd::Finished),
        phase is Ready && event is NoAnswer ==> probe_next(phase, attempts, event).0
            == ProbePhase::Done(ProbeEnd::Finished),
{
}

/// The first of the routes that the node knows is taken for the try that is next;
/// where it knows none, the probe is over.
pub proof fn law_the_first_route_is_taken(
    attempt: i16,
    attempts: Seq<PaymentProbeAttempt>,
    routes: Vec<Route>,
)
    ensures
        ({
            let next = probe_next(
                ProbePhase::Ready { attempt },
                attempts,
                ProbeEvent::Routes(routes),
            ).0;
            &&& routes@.len() > 0 ==> next == (ProbePhase::Routed {
                attempt,
                choice: 0,
                route: routes@[0],
            })
            &&& routes@.len() == 0 ==> next == ProbePhase::Done(ProbeEnd::Finished)
        }),
{
}

/// Nothing but an answer to a payment that was sent adds to the tries, and what
/// cannot happen as far as a probe has come changes nothing at all.
pub proof fn law_nothing_else_counts_as_a_try(
    phase: ProbePhase,
    attempts: Seq<PaymentProbeAttempt>,
    event: ProbeEvent,
)
    ensures
        !(phase is Routed && event is Resolved) ==> probe_next(phase, attempts, event).1
            == attempts,
        phase is Ready && (event is TimedOut || event is SendFailed || event is Resolved)
            ==> probe_next(phase, attempts, event).0 == phase,
        phase is Routed && (event is NoAnswer || event is Routes) ==> probe_next(
            phase,
            attempts,
            event,
        ).0 == phase,
{
}

} // verus!
