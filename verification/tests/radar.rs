use sarne::cache::{Cached, CACHE_LIFETIME};
use sarne::encoding::HexError;
use sarne::graph::{list_nodes, NODE_ACTIVITY_WINDOW};
use sarne::network::{
    failure_reason, Channel, ChannelEdge, ChannelGraph, Failure, FailureReason, Hop,
    LightningNode, Route, RoutingPolicy,
};
use sarne::probe::{PaymentProbe, ProbeEnd, ProbeEvent, ProbePhase, ProbeRun, SendOutcome};
use sarne::radar::{
    due_probe, execute_payment_probe, pick_channel, pick_destination, radar_thread,
    ExecutionEvent, ExecutionPhase, RadarEnd, RadarEvent, RadarPhase, BASE_AMOUNT_SAT,
    GREATEST_AMOUNT_SAT, LEAST_AMOUNT_SAT,
};
use sarne::time::Timestamp;

fn node(pub_key: &str) -> LightningNode {
    LightningNode { pub_key: pub_key.to_string(), alias: format!("alias of {}", pub_key) }
}

fn channel(chan_id: u64, remote_pubkey: &str) -> Channel {
    Channel {
        chan_id,
        remote_pubkey: remote_pubkey.to_string(),
        local_balance: 0,
        remote_balance: 0,
        local_chan_reserve_sat: 0,
        remote_chan_reserve_sat: 0,
    }
}

fn policy(last_update: u32) -> Option<RoutingPolicy> {
    Some(RoutingPolicy {
        time_lock_delta: 0,
        fee_base_msat: 0,
        fee_rate_milli_msat: 0,
        max_htlc_msat: 0,
        last_update,
        inbound_fee_base_msat: 0,
        inbound_fee_rate_milli_msat: 0,
    })
}

fn edge(
    node1: &str,
    node1_policy: Option<RoutingPolicy>,
    node2: &str,
    node2_policy: Option<RoutingPolicy>,
) -> ChannelEdge {
    ChannelEdge {
        chan_point: String::new(),
        node1_pub: node1.to_string(),
        node2_pub: node2.to_string(),
        capacity: 0,
        node1_policy,
        node2_policy,
    }
}

fn listed(nodes: Vec<&str>, edges: Vec<ChannelEdge>, now: Timestamp) -> Vec<String> {
    let graph = ChannelGraph { nodes: nodes.into_iter().map(node).collect(), edges };
    list_nodes(&graph, &now).into_iter().map(|node| node.pub_key).collect()
}

const DAY: u32 = 86_400;

#[test]
fn well_connected_nodes_are_listed() {
    let now = Timestamp::from_unix(100 * DAY);
    let edges = || {
        vec![
            edge("a", policy(99 * DAY), "b", policy(99 * DAY)),
            edge("b", policy(99 * DAY), "a", policy(99 * DAY)),
            edge("a", policy(99 * DAY), "c", policy(99 * DAY)),
            edge("a", policy(99 * DAY), "x", policy(99 * DAY)),
        ]
    };
    assert_eq!(listed(vec!["c", "b", "a"], edges(), now), vec!["a"]);
    assert_eq!(listed(vec!["a", "b", "a"], edges(), now), vec!["a", "a"]);
    assert!(listed(vec!["a"], edges().into_iter().take(3).collect(), now).is_empty());
    assert!(listed(vec![], edges(), now).is_empty());
    // The node "x" is not in the graph.
    assert!(listed(vec!["b"], edges(), now).is_empty());
}

#[test]
fn nodes_that_went_quiet_are_not_listed() {
    let four = |update: u32| -> Vec<ChannelEdge> {
        (0..4).map(|_| edge("a", policy(update), "b", None)).collect()
    };
    let now = Timestamp::from_unix(100 * DAY);
    assert_eq!(NODE_ACTIVITY_WINDOW, 7 * DAY as i64);
    assert!(listed(vec!["a"], four(93 * DAY), now).is_empty());
    assert_eq!(listed(vec!["a"], four(93 * DAY + 1), now), vec!["a"]);
    // A time to come is recent, too.
    assert_eq!(listed(vec!["a"], four(200 * DAY), now), vec!["a"]);
    // Without any policy, the last change was at the epoch.
    assert!(listed(vec!["b"], four(99 * DAY), now).is_empty());
    assert_eq!(listed(vec!["b"], four(0), Timestamp::from_unix(DAY)), vec!["b"]);
}

#[test]
fn the_last_policy_in_the_graph_counts() {
    let now = Timestamp::from_unix(100 * DAY);
    let mut edges = vec![
        edge("a", policy(99 * DAY), "b", None),
        edge("a", policy(99 * DAY), "b", None),
        edge("a", None, "b", None),
        edge("b", None, "a", policy(50 * DAY)),
    ];
    assert!(listed(vec!["a"], edges, now).is_empty());
    edges = vec![
        edge("b", None, "a", policy(50 * DAY)),
        edge("a", None, "b", None),
        edge("a", policy(99 * DAY), "b", None),
        edge("a", None, "b", None),
    ];
    assert_eq!(listed(vec!["a"], edges, now), vec!["a"]);
    // A channel of a node with itself has two ends, and the second counts last.
    edges = vec![
        edge("a", policy(99 * DAY), "a", policy(50 * DAY)),
        edge("a", policy(50 * DAY), "a", policy(99 * DAY)),
    ];
    assert_eq!(listed(vec!["a"], edges, now), vec!["a"]);
}

#[test]
fn answers_are_kept_for_a_day() {
    let mut cache: Cached<u8> = Cached::new();
    let at = Timestamp::from_unix(1_000);
    assert_eq!(cache.fresh(&at), None);
    assert_eq!(cache.refresh(at, Ok::<u8, &str>(7)), Ok(&7));
    assert_eq!(CACHE_LIFETIME, 86_400);
    assert_eq!(cache.fresh(&at), Some(&7));
    assert_eq!(cache.fresh(&Timestamp::from_unix(1_000 + DAY)), Some(&7));
    let a_day_later = Timestamp::from_parts(1_000 + DAY as i64, 1).unwrap();
    assert_eq!(cache.fresh(&a_day_later), None);
    // A failure changes nothing, and the old answer is not given in its place.
    assert_eq!(cache.refresh(a_day_later, Err("no answer")), Err("no answer"));
    assert_eq!(cache.fresh(&a_day_later), None);
    assert_eq!(cache.fresh(&at), Some(&7));
    assert_eq!(cache.refresh(a_day_later, Ok::<u8, &str>(8)), Ok(&8));
    assert_eq!(cache.fresh(&a_day_later), Some(&8));
}

#[test]
fn a_round_runs_two_probes() {
    let source = "02".to_string();
    let at = Timestamp::from_unix(5);
    let phase = RadarPhase::PickDestination;
    assert!(due_probe(&source, &phase, at, 200_000).is_none());
    let phase = radar_thread(&source, phase, RadarEvent::Destination(Some(node("03"))));
    let probe = due_probe(&source, &phase, at, 200_001).unwrap();
    assert_eq!(probe.src_node_pubkey, "02");
    assert_eq!(probe.dst_node_pubkey, "03");
    assert_eq!(probe.amount_msat, 200_001_000);
    assert_eq!(probe.created_at.secs(), 5);
    assert!(probe.channel.is_none());
    assert!(probe.attempts.is_empty());
    let phase = radar_thread(&source, phase, RadarEvent::Probed);
    assert!(due_probe(&source, &phase, at, 200_000).is_none());
    let phase = radar_thread(&source, phase, RadarEvent::Through(Some(channel(9, "04"))));
    let probe = due_probe(&source, &phase, at, LEAST_AMOUNT_SAT).unwrap();
    assert_eq!(probe.dst_node_pubkey, "03");
    assert_eq!(probe.amount_msat, 130_000_000);
    assert_eq!(probe.channel.unwrap().chan_id, 9);
    let phase = radar_thread(&source, phase, RadarEvent::Probed);
    assert!(matches!(phase, RadarPhase::PickDestination));
}

#[test]
fn the_local_node_is_not_probed() {
    let source = "02".to_string();
    let phase = radar_thread(
        &source,
        RadarPhase::PickDestination,
        RadarEvent::Destination(Some(node("02"))),
    );
    assert!(matches!(phase, RadarPhase::PickDestination));
}

#[test]
fn direct_channels_are_not_probed() {
    let phase = radar_thread(
        &"02".to_string(),
        RadarPhase::PickChannel { destination: node("03") },
        RadarEvent::Through(Some(channel(9, "03"))),
    );
    assert!(matches!(phase, RadarPhase::PickDestination));
}

#[test]
fn the_radar_stops() {
    let source = "02".to_string();
    let end = |phase: RadarPhase, event: RadarEvent| match radar_thread(&source, phase, event) {
        RadarPhase::Stopped(end) => end,
        other => panic!("{:?}", other),
    };
    let pick = || RadarPhase::PickDestination;
    assert_eq!(end(pick(), RadarEvent::Cancelled), RadarEnd::Cancelled);
    assert_eq!(end(pick(), RadarEvent::Failed), RadarEnd::Failed);
    assert_eq!(end(pick(), RadarEvent::Destination(None)), RadarEnd::NoNodes);
    let through = || RadarPhase::PickChannel { destination: node("03") };
    assert_eq!(end(through(), RadarEvent::Failed), RadarEnd::Failed);
    assert_eq!(end(through(), RadarEvent::Through(None)), RadarEnd::NoChannels);
    let stopped = || RadarPhase::Stopped(RadarEnd::NoNodes);
    assert_eq!(end(stopped(), RadarEvent::Probed), RadarEnd::NoNodes);
    assert_eq!(end(stopped(), RadarEvent::Destination(Some(node("03")))), RadarEnd::NoNodes);
}

#[test]
fn a_round_is_not_broken_off_between_its_probes() {
    let phase = radar_thread(
        &"02".to_string(),
        RadarPhase::PickChannel { destination: node("03") },
        RadarEvent::Cancelled,
    );
    assert!(matches!(phase, RadarPhase::PickChannel { .. }));
}

#[test]
fn destinations_and_channels_are_picked_from_the_lists() {
    assert!(matches!(pick_destination(&vec![]), RadarEvent::Destination(None)));
    assert!(matches!(pick_channel(&vec![]), RadarEvent::Through(None)));
    match pick_destination(&vec![node("03")]) {
        RadarEvent::Destination(Some(picked)) => {
            assert_eq!(picked.pub_key, "03");
            assert_eq!(picked.alias, "alias of 03");
        }
        other => panic!("{:?}", other),
    }
    match pick_channel(&vec![channel(9, "03")]) {
        RadarEvent::Through(Some(picked)) => assert_eq!(picked.chan_id, 9),
        other => panic!("{:?}", other),
    }
}

#[test]
fn amounts_are_spread_around_the_base() {
    assert_eq!(LEAST_AMOUNT_SAT, BASE_AMOUNT_SAT * 65 / 100);
    assert_eq!(GREATEST_AMOUNT_SAT, BASE_AMOUNT_SAT * 135 / 100);
    let phase = RadarPhase::ProbeBest { destination: node("03") };
    let source = "02".to_string();
    let greatest =
        due_probe(&source, &phase, Timestamp::from_unix(5), GREATEST_AMOUNT_SAT).unwrap();
    assert_eq!(greatest.amount_msat, 270_000_000);
}

/// The phases that a probe goes through.
fn execute(delay: i32, events: Vec<ExecutionEvent>) -> Vec<ExecutionPhase> {
    let mut phases = vec![ExecutionPhase::Due];
    for event in events {
        let phase = execute_payment_probe(delay, phases[phases.len() - 1], event);
        phases.push(phase);
    }
    phases
}

fn ended(end: ProbeEnd, attempts: usize) -> ExecutionEvent {
    ExecutionEvent::Ended { end, attempts }
}

#[test]
fn probes_that_were_tried_are_saved_and_told() {
    let events = vec![
        ExecutionEvent::Begun,
        ended(ProbeEnd::Finished, 2),
        ExecutionEvent::Saved { id: 42 },
        ExecutionEvent::Told,
        ExecutionEvent::Paused,
    ];
    assert_eq!(
        execute(5, events.clone()),
        vec![
            ExecutionPhase::Due,
            ExecutionPhase::Running,
            ExecutionPhase::Saving,
            ExecutionPhase::Telling { id: 42 },
            ExecutionPhase::Pausing { secs: 5 },
            ExecutionPhase::Done,
        ]
    );
    // Without a delay there is no pause.
    assert_eq!(execute(0, events.clone())[4], ExecutionPhase::Done);
    assert_eq!(execute(-1, events)[4], ExecutionPhase::Done);
}

#[test]
fn probes_that_could_not_be_saved_are_not_told() {
    let events = vec![
        ExecutionEvent::Begun,
        ended(ProbeEnd::Finished, 1),
        ExecutionEvent::SaveFailed,
        ExecutionEvent::Told,
    ];
    let phases = execute(5, events);
    assert_eq!(phases[3], ExecutionPhase::Pausing { secs: 5 });
    assert_eq!(phases[4], ExecutionPhase::Pausing { secs: 5 });
}

#[test]
fn the_radar_pauses_whatever_came_of_a_probe() {
    for outcome in [
        ended(ProbeEnd::Finished, 0),
        ended(ProbeEnd::Failed, 0),
        ended(ProbeEnd::Failed, 2),
    ] {
        let phases = execute(7, vec![ExecutionEvent::Begun, outcome, ExecutionEvent::Paused]);
        assert_eq!(phases[2], ExecutionPhase::Pausing { secs: 7 });
        assert_eq!(phases[3], ExecutionPhase::Done);
        assert_eq!(execute(0, vec![ExecutionEvent::Begun, outcome])[2], ExecutionPhase::Done);
    }
}

#[test]
fn cancelled_probes_do_nothing() {
    let events = vec![
        ExecutionEvent::Cancelled,
        ExecutionEvent::Begun,
        ended(ProbeEnd::Finished, 3),
        ExecutionEvent::Saved { id: 1 },
    ];
    assert_eq!(execute(5, events)[1..], [ExecutionPhase::Done; 4]);
}

#[test]
fn nothing_is_done_twice() {
    let events = vec![
        ExecutionEvent::Begun,
        ExecutionEvent::Begun,
        ended(ProbeEnd::Finished, 1),
        ended(ProbeEnd::Finished, 1),
        ExecutionEvent::Saved { id: 1 },
        ExecutionEvent::Saved { id: 2 },
    ];
    let phases = execute(0, events);
    assert_eq!(phases[2], ExecutionPhase::Running);
    assert_eq!(phases[4], ExecutionPhase::Saving);
    assert_eq!(phases[6], ExecutionPhase::Telling { id: 1 });
}

#[test]
fn a_settled_payment_ends_the_program() {
    let settled = ended(ProbeEnd::UnexpectedSuccess, 2);
    let phases = execute(5, vec![ExecutionEvent::Begun, settled, ExecutionEvent::Paused]);
    assert_eq!(phases[2..], [ExecutionPhase::Quit; 2]);
}

#[test]
fn one_code_means_arrival() {
    assert_eq!(failure_reason(1), FailureReason::IncorrectOrUnknownPaymentDetails);
    for code in [-1, 0, 2, 15, i32::MAX] {
        assert_eq!(failure_reason(code), FailureReason::Other);
    }
}

fn probe(src: &str, dst: &str, through: Option<Channel>) -> PaymentProbe {
    PaymentProbe::new(
        Timestamp::from_unix(5),
        &src.to_string(),
        through,
        &dst.to_string(),
        200_000,
    )
}

fn route(chan_id: u64) -> Route {
    Route {
        hops: vec![Hop { chan_id, fee_msat: 1, pub_key: "03".to_string() }],
        total_fees_msat: 1,
    }
}

const ARRIVED: Option<i32> = Some(1);
const REFUSED: Option<i32> = Some(15);

fn outcome(code: Option<i32>) -> ProbeEvent {
    ProbeEvent::Resolved(SendOutcome {
        attempt_time_ns: 1_000,
        resolve_time_ns: 1_250,
        received_at: Timestamp::from_unix(6),
        failure: match code {
            Some(code) => Some(Failure { code, failure_source_index: 2 }),
            None => None,
        },
    })
}

fn run(events: Vec<ProbeEvent>) -> ProbeRun {
    let mut run = ProbeRun::start(probe("02", "03", None)).unwrap();
    for event in events {
        run = run.run_payment_probe(event);
    }
    run
}

fn end(run: &ProbeRun) -> ProbeEnd {
    match &run.phase {
        ProbePhase::Done(end) => *end,
        other => panic!("{:?}", other),
    }
}

#[test]
fn both_ends_of_a_probe_are_known_by_keys() {
    assert!(matches!(ProbeRun::start(probe("0", "xx", None)), Err(HexError::OddLength)));
    assert!(matches!(
        ProbeRun::start(probe("02", "xx", None)),
        Err(HexError::InvalidHexCharacter { c: 'x', index: 0 })
    ));
}

#[test]
fn routes_leave_out_direct_channels() {
    let query = ProbeRun::start(probe("02aa", "03bb", None)).unwrap().routes_query();
    assert_eq!(query.source_pub_key, "02aa");
    assert_eq!(query.pub_key, "03bb");
    assert_eq!(query.amt, 0);
    assert_eq!(query.amt_msat, 200_000_000);
    assert_eq!(query.cltv_limit, 0);
    assert_eq!(query.ignored_from, vec![0x02, 0xaa]);
    assert_eq!(query.ignored_to, vec![0x03, 0xbb]);
    assert_eq!(query.outgoing_chan_id, 0);
    assert_eq!(query.final_cltv_delta, 144);
    assert_eq!(query.fee_limit_sat, 100_000);
    assert!(query.use_mission_control);
    let through = ProbeRun::start(probe("02aa", "03bb", Some(channel(9, "04")))).unwrap();
    assert_eq!(through.routes_query().outgoing_chan_id, 9);
}

#[test]
fn payments_take_the_first_route() {
    assert!(run(vec![]).send_request().is_none());
    let routed = run(vec![ProbeEvent::Routes(vec![route(1), route(2)])]);
    match &routed.phase {
        ProbePhase::Routed { attempt, choice, route } => {
            assert_eq!((*attempt, *choice, route.hops[0].chan_id), (0, 0, 1));
        }
        other => panic!("{:?}", other),
    }
    let payment = routed.send_request().unwrap();
    assert_eq!(payment.choice, 0);
    assert_eq!(payment.payment_hash.len(), 32);
    assert_ne!(payment.payment_hash, routed.send_request().unwrap().payment_hash);
    assert!(!payment.skip_temp_err);
    assert_eq!(payment.timeout, 60);
    let done = routed.run_payment_probe(ProbeEvent::TimedOut);
    assert!(done.send_request().is_none());
}

#[test]
fn an_arrival_ends_a_probe() {
    let run = run(vec![
        ProbeEvent::Routes(vec![route(1), route(2)]),
        outcome(REFUSED),
        ProbeEvent::Routes(vec![route(3)]),
        outcome(ARRIVED),
        ProbeEvent::Routes(vec![route(4)]),
        outcome(REFUSED),
    ]);
    assert_eq!(end(&run), ProbeEnd::Finished);
    let attempts = &run.probe.attempts;
    assert_eq!(attempts.len(), 2);
    assert_eq!((attempts[0].seqno, attempts[1].seqno), (0, 1));
    assert_eq!(attempts[0].route.hops[0].chan_id, 1);
    assert_eq!(attempts[1].route.hops[0].chan_id, 3);
    assert_eq!(attempts[0].latency_ns, 250);
    assert_eq!(attempts[0].created_at.secs(), 6);
    assert_eq!(
        attempts[0].failure,
        Some(Failure { code: 15, failure_source_index: 2 })
    );
    assert_eq!(attempts[1].failure, None);
}

#[test]
fn a_probe_is_tried_three_times_at_most() {
    let mut events = Vec::new();
    for i in 0..5 {
        events.push(ProbeEvent::Routes(vec![route(i)]));
        events.push(outcome(REFUSED));
    }
    let run = run(events);
    assert_eq!(end(&run), ProbeEnd::Finished);
    let seqnos: Vec<i16> = run.probe.attempts.iter().map(|attempt| attempt.seqno).collect();
    assert_eq!(seqnos, vec![0, 1, 2]);
}

#[test]
fn a_probe_ends_early_where_it_cannot_go_on() {
    assert_eq!(end(&run(vec![ProbeEvent::Cancelled])), ProbeEnd::Finished);
    assert_eq!(end(&run(vec![ProbeEvent::NoAnswer])), ProbeEnd::Finished);
    assert_eq!(end(&run(vec![ProbeEvent::Routes(vec![])])), ProbeEnd::Finished);
    let routed = || ProbeEvent::Routes(vec![route(1)]);
    assert_eq!(end(&run(vec![routed(), ProbeEvent::Cancelled])), ProbeEnd::Finished);
    assert_eq!(end(&run(vec![routed(), ProbeEvent::TimedOut])), ProbeEnd::Finished);
    assert_eq!(end(&run(vec![routed(), ProbeEvent::SendFailed])), ProbeEnd::Failed);
    let settled = run(vec![routed(), outcome(None)]);
    assert_eq!(end(&settled), ProbeEnd::UnexpectedSuccess);
    assert!(settled.probe.attempts.is_empty());
    // What was tried before is kept.
    let broken_off = run(vec![
        routed(),
        outcome(REFUSED),
        routed(),
        ProbeEvent::TimedOut,
        routed(),
    ]);
    assert_eq!(end(&broken_off), ProbeEnd::Finished);
    assert_eq!(broken_off.probe.attempts.len(), 1);
}

#[test]
fn events_out_of_turn_change_nothing() {
    let early = run(vec![outcome(REFUSED), ProbeEvent::TimedOut]);
    assert!(matches!(early.phase, ProbePhase::Ready { attempt: 0 }));
    assert!(early.probe.attempts.is_empty());
}
