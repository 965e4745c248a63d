use sarne::balance::ChannelBalanceCategory;
use sarne::forwards::ForwardCount;
use sarne::network::{Channel, ChannelEdge, RoutingPolicy};
use sarne::policy::{
    add_time_to_policy_change, adjust_incoming_fee_rate, adjust_outgoing_fee_rate, balances_fit,
    channel_policy_changes, current_policy, incoming_policy, incoming_step, is_workable, local_policy,
    outgoing_policy, outgoing_step, policy_change_time, process_channel, ChannelObservation, ChannelPolicyChange,
    EdgePolicyHistoryRecord, FeeRateQuote, IncomingStep, OutgoingStep,
};
use sarne::time::{Timestamp, LAST_SECOND};

fn routing_policy(fee_rate_milli_msat: i64, inbound_fee_rate_milli_msat: i32) -> RoutingPolicy {
    RoutingPolicy {
        time_lock_delta: 80,
        fee_base_msat: 1,
        fee_rate_milli_msat,
        max_htlc_msat: 990_000_000,
        last_update: 5,
        inbound_fee_base_msat: -2,
        inbound_fee_rate_milli_msat,
    }
}

fn edge(fee_rate: i64, inbound_fee_rate: i32) -> Option<ChannelEdge> {
    Some(ChannelEdge {
        chan_point: "f00d:3".to_string(),
        node1_pub: "02aa".to_string(),
        node2_pub: "02bb".to_string(),
        capacity: 1_000_000,
        node1_policy: Some(routing_policy(1, 1)),
        node2_policy: Some(routing_policy(fee_rate, inbound_fee_rate)),
    })
}

fn forwards(total: i64, successful: i64) -> ForwardCount {
    ForwardCount {
        total_forwards_count: total,
        successful_forwards_count: successful,
        avg_incoming_amount_msat: 0,
    }
}

fn last_change(secs: u32) -> Option<EdgePolicyHistoryRecord> {
    Some(EdgePolicyHistoryRecord {
        valid_from: Timestamp::from_unix(secs),
        fee_rate_milli_msat: None,
        inbound_fee_rate_milli_msat: Some(0),
    })
}

fn observation(
    balances: (i64, i64),
    outgoing_forwards: ForwardCount,
    incoming_forwards: ForwardCount,
) -> ChannelObservation {
    ChannelObservation {
        channel: Channel {
            chan_id: 77,
            remote_pubkey: "02aa".to_string(),
            local_balance: balances.0,
            remote_balance: balances.1,
            local_chan_reserve_sat: 0,
            remote_chan_reserve_sat: 0,
        },
        channel_balance_category: ChannelBalanceCategory::BalancedLiquidity,
        incoming_forwards,
        outgoing_forwards,
        last_outbound_policy: last_change(1_000),
        last_inbound_policy: last_change(2_000),
    }
}

fn quote(outgoing: i64, outgoing_limit: i32, incoming: i32, incoming_limit: i32) -> FeeRateQuote {
    FeeRateQuote {
        outgoing,
        outgoing_discount_limit: outgoing_limit,
        incoming,
        incoming_discount_limit: incoming_limit,
    }
}

fn changes(
    seen: &ChannelObservation,
    rates: (i64, i32),
    quote: FeeRateQuote,
) -> Vec<ChannelPolicyChange> {
    process_channel(&"02bb".to_string(), &edge(rates.0, rates.1), seen, &quote)
}

fn rates(change: &ChannelPolicyChange) -> ((i64, i32), (i64, i32)) {
    (
        (change.old_policy.fee_rate_ppm, change.old_policy.inbound_fee_rate_ppm),
        (change.new_policy.fee_rate_ppm, change.new_policy.inbound_fee_rate_ppm),
    )
}

const RICH: (i64, i64) = (500_000, 500_000);
const NO_OUTBOUND: (i64, i64) = (50_000, 500_000);
const NO_INBOUND: (i64, i64) = (500_000, 50_000);

fn quiet() -> ForwardCount {
    forwards(10, 10)
}

#[test]
fn outgoing_steps_follow_the_marks() {
    for (total, step) in [
        (31, Some(OutgoingStep::RaiseScarce)),
        (30, None),
        (24, None),
        (23, Some(OutgoingStep::LowerScarce)),
    ] {
        assert_eq!(outgoing_step(&observation(NO_OUTBOUND, forwards(total, 0), quiet())), step);
    }
    for (successful, step) in [
        (21, Some(OutgoingStep::RaiseBusy)),
        (20, None),
        (2, None),
        (1, Some(OutgoingStep::LowerIdle)),
    ] {
        assert_eq!(outgoing_step(&observation(RICH, forwards(100, successful), quiet())), step);
    }
}

#[test]
fn incoming_steps_follow_the_marks() {
    assert_eq!(
        incoming_step(&observation(NO_OUTBOUND, quiet(), forwards(100, 100))),
        Some(IncomingStep::DeepenScarce)
    );
    for (successful, step) in [(21, Some(IncomingStep::ReduceBusy)), (20, None), (2, None)] {
        assert_eq!(incoming_step(&observation(RICH, quiet(), forwards(0, successful))), step);
    }
    assert_eq!(
        incoming_step(&observation(NO_INBOUND, quiet(), forwards(100, 1))),
        Some(IncomingStep::Drop)
    );
    for (total, step) in [
        (21, Some(IncomingStep::ReduceFailing)),
        (20, None),
        (2, None),
        (1, Some(IncomingStep::DeepenIdle)),
    ] {
        assert_eq!(incoming_step(&observation(RICH, quiet(), forwards(total, 1))), step);
    }
}

#[test]
fn steps_scale_by_percents() {
    assert_eq!(OutgoingStep::RaiseScarce.percent(), 1);
    assert_eq!(OutgoingStep::LowerScarce.percent(), -1);
    assert_eq!(OutgoingStep::RaiseBusy.percent(), 2);
    assert_eq!(OutgoingStep::LowerIdle.percent(), -1);
    assert_eq!(IncomingStep::DeepenScarce.percent(), Some(5));
    assert_eq!(IncomingStep::ReduceBusy.percent(), Some(-15));
    assert_eq!(IncomingStep::Drop.percent(), None);
    assert_eq!(IncomingStep::ReduceFailing.percent(), Some(-10));
    assert_eq!(IncomingStep::DeepenIdle.percent(), Some(5));
}

#[test]
fn rates_are_bounded() {
    assert_eq!(adjust_outgoing_fee_rate(12), 12);
    assert_eq!(adjust_outgoing_fee_rate(0), 0);
    assert_eq!(adjust_outgoing_fee_rate(-3), 0);
    assert_eq!(adjust_incoming_fee_rate(-12), -12);
    assert_eq!(adjust_incoming_fee_rate(0), 0);
    assert_eq!(adjust_incoming_fee_rate(3), 0);
}

#[test]
fn many_forwards_raise_a_scarce_rate() {
    let seen = observation(NO_OUTBOUND, forwards(31, 0), quiet());
    let found = changes(&seen, (100, -50), quote(107, 0, -50, -95));
    assert_eq!(found.len(), 1);
    assert_eq!(rates(&found[0]), ((100, -50), (107, -50)));
    assert_eq!(found[0].action, "Increase Outgoing Fee Rate by 1%");
    assert_eq!(
        found[0].reason,
        "BalancedLiquidity; Outgoing Forward Count 31 > 30 (window: PT172800S)"
    );
    assert_eq!(found[0].apply_at.secs(), 1_000 + 4 * 3_600);
    assert_eq!(found[0].channel.chan_id, 77);
}

#[test]
fn few_forwards_lower_a_scarce_rate_and_the_discount_with_it() {
    let seen = observation(NO_OUTBOUND, forwards(23, 0), quiet());
    let found = changes(&seen, (100, -95), quote(91, -86, -100, -95));
    assert_eq!(found.len(), 1);
    assert_eq!(rates(&found[0]), ((100, -95), (91, -86)));
    assert_eq!(found[0].action, "Decrease Outgoing Fee Rate by 1%");
    assert_eq!(
        found[0].reason,
        "BalancedLiquidity; Outgoing Forward Count 23 < 24 (window: PT172800S)"
    );
    // A discount within the limit stays as it is.
    let found = changes(&seen, (100, -20), quote(91, -86, -20, -95));
    assert_eq!(rates(&found[0]), ((100, -20), (91, -20)));
}

#[test]
fn many_successes_raise_a_rate() {
    let seen = observation(RICH, forwards(0, 21), quiet());
    let found = changes(&seen, (100, -50), quote(110, 0, 0, 0));
    assert_eq!(found.len(), 1);
    assert_eq!(rates(&found[0]), ((100, -50), (110, -50)));
    assert_eq!(found[0].action, "Increase Outgoing Fee Rate by 2%");
    assert_eq!(
        found[0].reason,
        "BalancedLiquidity; Outgoing Successful Forward Count 21 > 20 (window: PT172800S)"
    );
}

#[test]
fn few_successes_lower_a_rate_to_zero_at_most() {
    let seen = observation(RICH, forwards(0, 1), quiet());
    let found = changes(&seen, (3, -2), quote(-4, 0, 0, 0));
    assert_eq!(found.len(), 1);
    assert_eq!(rates(&found[0]), ((3, -2), (0, 0)));
    assert_eq!(found[0].action, "Decrease Outgoing Fee Rate by 1%");
    assert_eq!(
        found[0].reason,
        "BalancedLiquidity; Outgoing Successful Forward Count 1 < 2 (window: PT172800S)"
    );
    // A rate that is zero already is left alone, and so is the discount.
    assert!(changes(&seen, (0, -2), quote(-4, 0, 0, 0)).is_empty());
}

#[test]
fn scarce_liquidity_deepens_the_discount_within_the_limit() {
    let seen = observation(NO_OUTBOUND, forwards(27, 0), quiet());
    let found = changes(&seen, (100, -50), quote(0, 0, -60, -95));
    assert_eq!(found.len(), 1);
    assert_eq!(rates(&found[0]), ((100, -50), (100, -60)));
    assert_eq!(found[0].action, "Increase Incoming Fee Rate Discount by 5%");
    assert_eq!(found[0].reason, "BalancedLiquidity; ");
    assert_eq!(found[0].apply_at.secs(), 2_000 + 4 * 3_600);
    let found = changes(&seen, (100, -90), quote(0, 0, -104, -95));
    assert_eq!(rates(&found[0]), ((100, -90), (100, -95)));
    assert!(changes(&seen, (100, -95), quote(0, 0, -105, -95)).is_empty());
}

#[test]
fn many_incoming_successes_reduce_the_discount() {
    let seen = observation(RICH, quiet(), forwards(0, 21));
    let found = changes(&seen, (100, -50), quote(0, 0, -35, -95));
    assert_eq!(found.len(), 1);
    assert_eq!(rates(&found[0]), ((100, -50), (100, -35)));
    assert_eq!(found[0].action, "Decrease Incoming Fee Rate Discount by 15%");
    assert_eq!(
        found[0].reason,
        "BalancedLiquidity; Incoming Successful Forward Count 21 > 20 (window: PT172800S)"
    );
    // A discount never becomes a surcharge.
    let found = changes(&seen, (100, -4), quote(0, 0, 6, -95));
    assert_eq!(rates(&found[0]), ((100, -4), (100, 0)));
}

#[test]
fn the_discount_is_dropped_where_nothing_can_come_in() {
    let seen = observation(NO_INBOUND, quiet(), forwards(50, 1));
    let found = changes(&seen, (100, -50), quote(0, 0, -60, -95));
    assert_eq!(found.len(), 1);
    assert_eq!(rates(&found[0]), ((100, -50), (100, 0)));
    assert_eq!(found[0].action, "Set Incoming Fee Rate Discount to 0");
    assert_eq!(found[0].reason, "BalancedLiquidity");
    assert!(changes(&seen, (100, 0), quote(0, 0, -60, -95)).is_empty());
}

#[test]
fn failing_forwards_reduce_the_discount() {
    let seen = observation(RICH, quiet(), forwards(21, 1));
    let found = changes(&seen, (100, -50), quote(0, 0, -40, -95));
    assert_eq!(rates(&found[0]), ((100, -50), (100, -40)));
    assert_eq!(found[0].action, "Decrease Incoming Fee Rate Discount by 10%");
    assert_eq!(found[0].reason, "Incoming Forward Count 21 > 20 (window: PT172800S)");
    let found = changes(&seen, (100, -3), quote(0, 0, 4, -95));
    assert_eq!(rates(&found[0]), ((100, -3), (100, 0)));
}

#[test]
fn idle_channels_deepen_the_discount_within_the_limit() {
    let seen = observation(RICH, quiet(), forwards(1, 1));
    let found = changes(&seen, (100, -50), quote(0, 0, -60, -95));
    assert_eq!(rates(&found[0]), ((100, -50), (100, -60)));
    assert_eq!(found[0].action, "Increase Incoming Fee Rate Discount by 5%");
    assert_eq!(found[0].reason, "Incoming Forward Count 1 < 2 (window: PT172800S)");
    let found = changes(&seen, (100, -94), quote(0, 0, -105, -95));
    assert_eq!(rates(&found[0]), ((100, -94), (100, -95)));
    // A surcharge that is only made smaller stays one.
    let found = changes(&seen, (100, 200), quote(0, 0, 198, -95));
    assert_eq!(rates(&found[0]), ((100, 200), (100, 198)));
}

#[test]
fn the_outgoing_change_comes_first() {
    let seen = observation(NO_OUTBOUND, forwards(31, 0), quiet());
    let found = changes(&seen, (100, -50), quote(107, 0, -60, -95));
    assert_eq!(found.len(), 2);
    assert_eq!(rates(&found[0]), ((100, -50), (107, -50)));
    assert_eq!(rates(&found[1]), ((100, -50), (100, -60)));
    for change in &found {
        assert_eq!(change.new_policy.chan_point.funding_txid_str, "f00d");
        assert_eq!(change.new_policy.chan_point.output_index, 3);
        assert_eq!(change.new_policy.base_fee_msat, 1);
        assert_eq!(change.new_policy.time_lock_delta, 80);
        assert_eq!(change.new_policy.max_htlc_msat, 990_000_000);
        assert_eq!(change.new_policy.inbound_fee_base_msat, -2);
    }
}

#[test]
fn moderate_traffic_changes_nothing() {
    for (outgoing, incoming) in [(2, 2), (20, 20), (10, 2)] {
        let seen = observation(RICH, forwards(1_000, outgoing), forwards(1_000, incoming));
        assert!(changes(&seen, (100, -50), quote(200, -190, -60, -95)).is_empty());
    }
}

#[test]
fn only_channels_with_a_policy_of_the_local_node_change() {
    let seen = observation(RICH, forwards(0, 21), quiet());
    let raise = quote(110, 0, 0, 0);
    assert!(process_channel(&"02cc".to_string(), &edge(100, 0), &seen, &raise).is_empty());
    assert!(process_channel(&"02bb".to_string(), &None, &seen, &raise).is_empty());
    let mut unset = edge(100, 0).unwrap();
    unset.node2_policy = None;
    assert!(process_channel(&"02bb".to_string(), &Some(unset), &seen, &raise).is_empty());
    assert_eq!(process_channel(&"02bb".to_string(), &edge(100, 0), &seen, &raise).len(), 1);
}

#[test]
fn the_local_policy_is_that_of_the_local_end() {
    let edge = edge(100, -50).unwrap();
    assert_eq!(local_policy(&edge, &"02aa".to_string()), Some(routing_policy(1, 1)));
    assert_eq!(local_policy(&edge, &"02bb".to_string()), Some(routing_policy(100, -50)));
    assert_eq!(local_policy(&edge, &"02cc".to_string()), None);
}

#[test]
fn an_output_that_is_no_number_counts_as_the_first() {
    let mut edge = edge(100, -50).unwrap();
    edge.chan_point = "f00d:x".to_string();
    let policy = current_policy(&edge, &routing_policy(100, -50));
    assert_eq!(policy.chan_point.funding_txid_str, "f00d");
    assert_eq!(policy.chan_point.output_index, 0);
    assert_eq!(policy.fee_rate_ppm, 100);
    assert_eq!(policy.inbound_fee_rate_ppm, -50);
}

#[test]
fn changes_wait_for_the_cooldown() {
    let now = Timestamp::from_unix(9_999);
    let last = last_change(1_000).unwrap();
    assert_eq!(policy_change_time(Some(&last), 600, now).secs(), 1_600);
    assert_eq!(policy_change_time(None, 600, now).secs(), 9_999);
    assert_eq!(add_time_to_policy_change(Some(&last), 600).secs(), 1_600);
    assert_eq!(add_time_to_policy_change(Some(&last), -600).secs(), 400);
    let before = Timestamp::now();
    let at = add_time_to_policy_change(None, 600);
    assert!(!at.is_before(&before));
    assert!(!Timestamp::now().is_before(&at));
}

#[test]
fn the_policy_that_is_called_for_is_found() {
    let policy = current_policy(&edge(100, -50).unwrap(), &routing_policy(100, -50));
    let seen = observation(RICH, forwards(0, 21), forwards(1, 1));
    let (step, changed) = outgoing_policy(&policy, &seen, &quote(110, 0, -60, -95)).unwrap();
    assert_eq!(step, OutgoingStep::RaiseBusy);
    assert_eq!((changed.fee_rate_ppm, changed.inbound_fee_rate_ppm), (110, -50));
    let (step, changed) = incoming_policy(&policy, &seen, &quote(110, 0, -60, -95)).unwrap();
    assert_eq!(step, IncomingStep::DeepenIdle);
    assert_eq!((changed.fee_rate_ppm, changed.inbound_fee_rate_ppm), (100, -60));
    // A step that leaves the rate as it was is no change.
    assert!(outgoing_policy(&policy, &seen, &quote(100, 0, -50, -95)).is_none());
    assert!(incoming_policy(&policy, &seen, &quote(100, 0, -50, -95)).is_none());
}

#[test]
fn a_cooldown_that_no_change_waits_for_does_not_matter() {
    let mut seen = observation(RICH, forwards(0, 21), quiet());
    seen.last_inbound_policy = Some(EdgePolicyHistoryRecord {
        valid_from: Timestamp::from_parts(LAST_SECOND, 0).unwrap(),
        fee_rate_milli_msat: None,
        inbound_fee_rate_milli_msat: None,
    });
    assert_eq!(changes(&seen, (100, -50), quote(110, 0, 0, 0)).len(), 1);
    assert!(workable(&edge(100, -50), &seen, quote(110, 0, 0, 0)));
    // One that a change does wait for does.
    seen.last_outbound_policy = seen.last_inbound_policy;
    assert!(!workable(&edge(100, -50), &seen, quote(110, 0, 0, 0)));
    assert!(workable(&edge(100, -50), &seen, quote(100, 0, 0, 0)));
}

fn workable(edge: &Option<ChannelEdge>, seen: &ChannelObservation, quote: FeeRateQuote) -> bool {
    is_workable(&"02bb".to_string(), edge, seen, &quote)
}

#[test]
fn what_cannot_be_worked_with_is_told() {
    let raise = || quote(110, 0, 0, 0);
    let mut seen = observation(RICH, forwards(0, 21), forwards(1, 1));
    assert!(workable(&edge(100, -50), &seen, raise()));
    assert!(workable(&None, &seen, raise()));
    let mut odd = edge(100, -50);
    odd.as_mut().unwrap().chan_point = "f00d".to_string();
    assert!(!workable(&odd, &seen, raise()));
    odd.as_mut().unwrap().node2_policy = None;
    assert!(workable(&odd, &seen, raise()));
    seen.last_inbound_policy.as_mut().unwrap().valid_from =
        Timestamp::from_parts(LAST_SECOND, 0).unwrap();
    assert!(!workable(&edge(100, -50), &seen, raise()));
    seen.last_inbound_policy = None;
    assert!(workable(&edge(100, -50), &seen, raise()));
    seen.channel.local_balance = i64::MAX;
    assert!(!balances_fit(&seen.channel));
    assert!(!workable(&edge(100, -50), &seen, raise()));
}

#[test]
fn without_an_earlier_change_there_is_no_wait() {
    let mut seen = observation(NO_OUTBOUND, forwards(31, 0), quiet());
    seen.last_outbound_policy = None;
    seen.last_inbound_policy = None;
    let before = Timestamp::now();
    let found = changes(&seen, (100, -50), quote(107, 0, -60, -95));
    let after = Timestamp::now();
    assert_eq!(found.len(), 2);
    for change in &found {
        assert!(!change.apply_at.is_before(&before) && !after.is_before(&change.apply_at));
    }
}

#[test]
fn each_direction_has_its_own_time() {
    let times = |seen: &ChannelObservation| {
        let found = channel_policy_changes(
            &"02bb".to_string(),
            &edge(100, -50),
            seen,
            &quote(107, 0, -60, -95),
            Timestamp::from_unix(99_999),
        );
        (found[0].apply_at.secs(), found[1].apply_at.secs())
    };
    let mut seen = observation(NO_OUTBOUND, forwards(31, 0), quiet());
    assert_eq!(times(&seen), (15_400, 16_400));
    seen.last_outbound_policy = None;
    assert_eq!(times(&seen), (99_999, 16_400));
    seen.last_inbound_policy = None;
    assert_eq!(times(&seen), (99_999, 99_999));
}
