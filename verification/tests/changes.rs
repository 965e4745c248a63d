use sarne::agent::{
    announcement, announcement_with, apply_channel_policy_change, collect_channel_policy_changes, get_node_alias,
    select_changes, update_channel_policy, AgentDecision,
};
use sarne::network::Channel;
use sarne::policy::{ChanPoint, ChannelPolicy, ChannelPolicyChange};
use sarne::time::Timestamp;

fn policy(fee_rate_ppm: i64, inbound_fee_rate_ppm: i32) -> ChannelPolicy {
    ChannelPolicy {
        chan_point: ChanPoint { funding_txid_str: "f00d".to_string(), output_index: 3 },
        base_fee_msat: 1,
        fee_rate_ppm,
        time_lock_delta: 80,
        max_htlc_msat: 990,
        inbound_fee_base_msat: -2,
        inbound_fee_rate_ppm,
    }
}

fn change(chan_id: u64, at: u32) -> ChannelPolicyChange {
    ChannelPolicyChange {
        apply_at: Timestamp::from_unix(at),
        channel: Channel {
            chan_id,
            remote_pubkey: "02aa".to_string(),
            local_balance: 0,
            remote_balance: 0,
            local_chan_reserve_sat: 0,
            remote_chan_reserve_sat: 0,
        },
        action: "Act".to_string(),
        reason: "Because".to_string(),
        old_policy: policy(100, -5),
        new_policy: policy(98, -123_456),
    }
}

fn order(changes: &Vec<ChannelPolicyChange>, now: u32, all: bool) -> Vec<usize> {
    match select_changes(changes, &Timestamp::from_unix(now), all) {
        AgentDecision::Apply { order } => order,
        other => panic!("{:?}", other),
    }
}

#[test]
fn failed_channels_are_passed_over() {
    let results: Vec<Result<Vec<ChannelPolicyChange>, String>> = vec![
        Ok(vec![change(1, 0), change(2, 0)]),
        Err("no answer".to_string()),
        Ok(vec![]),
        Ok(vec![change(3, 0)]),
    ];
    let collected = collect_channel_policy_changes(results);
    let ids: Vec<u64> = collected.iter().map(|change| change.channel.chan_id).collect();
    assert_eq!(ids, vec![1, 2, 3]);
}

#[test]
fn without_changes_there_is_nothing_to_do() {
    assert!(matches!(
        select_changes(&vec![], &Timestamp::from_unix(1_000), true),
        AgentDecision::NoChangesNeeded
    ));
}

#[test]
fn changes_are_not_applied_before_their_time() {
    let changes = vec![change(1, 1_000), change(2, 500)];
    match select_changes(&changes, &Timestamp::from_unix(500), true) {
        AgentDecision::NothingReady { next_at } => assert_eq!(next_at.secs(), 1_000),
        other => panic!("{:?}", other),
    }
}

#[test]
fn the_change_that_waited_longest_is_applied() {
    let changes = vec![change(1, 30), change(2, 10), change(3, 99), change(4, 10), change(5, 20)];
    assert_eq!(order(&changes, 50, false), vec![1]);
    assert_eq!(order(&changes, 11, false), vec![1]);
}

#[test]
fn all_ripe_changes_are_applied_in_the_order_of_their_times() {
    let changes = vec![change(1, 30), change(2, 10), change(3, 50), change(4, 10), change(5, 20)];
    assert_eq!(order(&changes, 50, true), vec![1, 3, 4, 0]);
    assert_eq!(order(&changes, 51, true), vec![1, 3, 4, 0, 2]);
}

#[test]
fn changes_are_announced() {
    let apply = |count: usize| AgentDecision::Apply { order: vec![0; count] };
    assert_eq!(announcement(&apply(1)), "Applying 1 policy change");
    assert_eq!(announcement(&apply(12)), "Applying 12 policy changes");
    assert_eq!(announcement(&AgentDecision::NoChangesNeeded), "No policy changes needed");
    let waiting = AgentDecision::NothingReady { next_at: Timestamp::from_unix(1_700_000_000) };
    assert_eq!(
        announcement(&waiting),
        "No policy changes to apply (next at 2023-11-14T22:13:20+00:00)"
    );
    assert_eq!(
        announcement_with(&waiting, "noon"),
        "No policy changes to apply (next at noon)"
    );
}

#[test]
fn applied_changes_are_reported() {
    let applied = apply_channel_policy_change(false, &change(77, 0), "bob");
    assert_eq!(
        applied.report,
        vec![
            "Applying channel policy change on 77 (bob)",
            "Action: Act",
            "Reason: Because",
            "Policy Changes:",
            "    Outgoing Fee Rate:   100 ->    98 ppm   (-2)",
            "    Incoming Fee Rate:    -5 -> -123456 ppm   (-123451)",
        ]
    );
    let update = applied.update.unwrap();
    assert_eq!(update.chan_point.funding_txid_str, "f00d");
    assert_eq!(update.chan_point.output_index, 3);
    assert_eq!(update.base_fee_msat, 1);
    assert_eq!(update.fee_rate_ppm, 98);
    assert_eq!(update.time_lock_delta, 80);
    assert_eq!(update.max_htlc_msat, 990);
    assert_eq!(update.min_htlc_msat, 0);
    assert!(!update.min_htlc_msat_specified);
    assert!(!update.create_missing_edge);
    assert_eq!(update.inbound_base_fee_msat, -2);
    assert_eq!(update.inbound_fee_rate_ppm, -123_456);
}

#[test]
fn an_unchanged_rate_is_reported_with_a_plus_sign() {
    let mut change = change(77, 0);
    change.new_policy = policy(100, 0);
    let applied = apply_channel_policy_change(false, &change, "bob");
    assert_eq!(applied.report[4], "    Outgoing Fee Rate:   100 ->   100 ppm   (+0)");
    assert_eq!(applied.report[5], "    Incoming Fee Rate:    -5 ->     0 ppm   (+5)");
}

#[test]
fn a_rehearsal_changes_nothing() {
    let applied = apply_channel_policy_change(true, &change(77, 0), "-");
    assert_eq!(applied.report.len(), 6);
    assert!(applied.update.is_none());
}

#[test]
fn rates_are_cut_to_the_width_of_the_request() {
    assert_eq!(update_channel_policy(&policy(4_294_967_295, 0)).fee_rate_ppm, u32::MAX);
    assert_eq!(update_channel_policy(&policy(4_294_967_296 + 7, 0)).fee_rate_ppm, 7);
    assert_eq!(update_channel_policy(&policy(-1, 0)).fee_rate_ppm, u32::MAX);
}

#[test]
fn peers_without_a_name_get_a_dash() {
    assert_eq!(get_node_alias(Some("bob".to_string())), "bob");
    assert_eq!(get_node_alias(Some(String::new())), "-");
    assert_eq!(get_node_alias(None), "-");
}
