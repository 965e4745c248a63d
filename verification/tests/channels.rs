use sarne::balance::{
    balance_question, get_channel_balance_info, has_inbound_liquidity, has_outbound_liquidity, BalanceEvent,
    BalanceStep, ChannelBalanceCategory,
};
use sarne::forwards::{
    count_forwards, forwarding_window_start, list_forwards, ForwardCount, ForwardLookup,
    COUNT_INCOMING_FORWARDS, COUNT_OUTGOING_FORWARDS, LIST_INCOMING_FORWARDS,
    LIST_OUTGOING_FORWARDS,
};
use sarne::network::Channel;
use sarne::time::Timestamp;

fn channel(local_balance: i64, remote_balance: i64) -> Channel {
    Channel {
        chan_id: u64::MAX,
        remote_pubkey: "02".to_string(),
        local_balance,
        remote_balance,
        local_chan_reserve_sat: 1_000,
        remote_chan_reserve_sat: 2_000,
    }
}

fn average(avg_incoming_amount_msat: i64) -> ForwardCount {
    ForwardCount {
        total_forwards_count: 1,
        successful_forwards_count: 1,
        avg_incoming_amount_msat,
    }
}

fn category(step: BalanceStep) -> ChannelBalanceCategory {
    match step {
        BalanceStep::Done(info) => {
            assert_eq!(info.channel.chan_id, u64::MAX);
            info.channel_balance_category
        }
        other => panic!("{:?}", other),
    }
}

/// Answers each question in turn.
fn categorise(
    channel: &Channel,
    outgoing: i64,
    incoming: i64,
    moderate: i64,
) -> ChannelBalanceCategory {
    let mut step = get_channel_balance_info(channel, BalanceEvent::Start);
    loop {
        let event = match step {
            BalanceStep::CountOutgoingForwards { channel_id } => {
                assert_eq!(channel_id, -1);
                BalanceEvent::OutgoingForwards(average(outgoing))
            }
            BalanceStep::CountIncomingForwards { channel_id } => {
                assert_eq!(channel_id, -1);
                BalanceEvent::IncomingForwards(average(incoming))
            }
            BalanceStep::ReadCapacity { chan_id } => {
                assert_eq!(chan_id, u64::MAX);
                BalanceEvent::ModerateThreshold(moderate)
            }
            done => return category(done),
        };
        step = get_channel_balance_info(channel, event);
    }
}

#[test]
fn a_balance_under_the_reserve_is_depleted() {
    assert_eq!(
        categorise(&channel(999, 50_000), 0, 0, 0),
        ChannelBalanceCategory::DepletedOutgoingLiquidity
    );
    assert_eq!(
        categorise(&channel(50_000, 1_999), 0, 0, 0),
        ChannelBalanceCategory::DepletedIncomingLiquidity
    );
    assert_eq!(
        categorise(&channel(0, 0), 0, 0, 0),
        ChannelBalanceCategory::DepletedOutgoingLiquidity
    );
}

#[test]
fn nothing_is_asked_where_the_balance_decides() {
    assert!(matches!(
        get_channel_balance_info(&channel(999, 0), BalanceEvent::Start),
        BalanceStep::Done(_)
    ));
    assert!(matches!(
        get_channel_balance_info(&channel(1_000, 2_000), BalanceEvent::Start),
        BalanceStep::CountOutgoingForwards { channel_id: -1 }
    ));
}

#[test]
fn room_for_less_than_two_forwards_is_minimal() {
    // The reserve and 2000 times the average.
    assert_eq!(
        categorise(&channel(10_999, 50_000), 5, 0, 0),
        ChannelBalanceCategory::MinimalOutgoingLiquidity
    );
    assert_eq!(
        categorise(&channel(11_000, 50_000), 5, 0, 0),
        ChannelBalanceCategory::BalancedLiquidity
    );
    assert_eq!(
        categorise(&channel(50_000, 11_999), 0, 5, 0),
        ChannelBalanceCategory::MinimalIncomingLiquidity
    );
    assert_eq!(
        categorise(&channel(50_000, 12_000), 0, 5, 0),
        ChannelBalanceCategory::BalancedLiquidity
    );
}

#[test]
fn a_small_share_of_the_capacity_is_moderate() {
    assert_eq!(
        categorise(&channel(19_999, 80_001), 0, 0, 20_000),
        ChannelBalanceCategory::ModerateOutgoingLiquidity
    );
    assert_eq!(
        categorise(&channel(80_001, 19_999), 0, 0, 20_000),
        ChannelBalanceCategory::ModerateIncomingLiquidity
    );
    assert_eq!(
        categorise(&channel(20_000, 20_000), 0, 0, 20_000),
        ChannelBalanceCategory::BalancedLiquidity
    );
    assert_eq!(
        categorise(&channel(19_999, 19_999), 0, 0, 20_000),
        ChannelBalanceCategory::ModerateOutgoingLiquidity
    );
}

#[test]
fn the_local_end_is_reported_first() {
    assert_eq!(
        categorise(&channel(2_999, 3_999), 1, 1, 9_999),
        ChannelBalanceCategory::MinimalOutgoingLiquidity
    );
}

#[test]
fn categories_have_names() {
    for (category, name) in [
        (ChannelBalanceCategory::DepletedOutgoingLiquidity, "DepletedOutgoingLiquidity"),
        (ChannelBalanceCategory::MinimalOutgoingLiquidity, "MinimalOutgoingLiquidity"),
        (ChannelBalanceCategory::ModerateOutgoingLiquidity, "ModerateOutgoingLiquidity"),
        (ChannelBalanceCategory::BalancedLiquidity, "BalancedLiquidity"),
        (ChannelBalanceCategory::ModerateIncomingLiquidity, "ModerateIncomingLiquidity"),
        (ChannelBalanceCategory::MinimalIncomingLiquidity, "MinimalIncomingLiquidity"),
        (ChannelBalanceCategory::DepletedIncomingLiquidity, "DepletedIncomingLiquidity"),
    ] {
        assert_eq!(category.name(), name);
    }
}

#[test]
fn liquidity_depends_on_the_size_of_the_channel() {
    assert!(!has_outbound_liquidity(99_999, 800_000));
    assert!(has_outbound_liquidity(100_000, 800_000));
    assert!(!has_outbound_liquidity(299_999, 800_001));
    assert!(has_outbound_liquidity(300_000, 800_001));
    assert!(!has_inbound_liquidity(99_999, 800_000));
    assert!(has_inbound_liquidity(100_000, 800_000));
    assert!(!has_inbound_liquidity(299_999, 800_001));
    assert!(has_inbound_liquidity(300_000, 800_001));
}

#[test]
fn more_balance_keeps_liquidity() {
    for total in [0i64, 800_000, 800_001, 5_000_000] {
        let mut had = false;
        for balance in [-1i64, 0, 99_999, 100_000, 299_999, 300_000, i64::MAX] {
            let has = has_outbound_liquidity(balance, total);
            assert!(has || !had);
            had = has;
        }
    }
}

#[test]
fn incoming_forwards_are_asked_for_first() {
    let after = Timestamp::from_unix(1_000);
    match count_forwards(Some(3), Some(4), after) {
        ForwardLookup::Ask(query) => {
            assert_eq!(query.sql, COUNT_INCOMING_FORWARDS);
            assert_eq!(query.channel_id, 3);
            assert_eq!(query.after.secs(), 1_000);
        }
        other => panic!("{:?}", other),
    }
    match count_forwards(None, Some(4), after) {
        ForwardLookup::Ask(query) => {
            assert_eq!(query.sql, COUNT_OUTGOING_FORWARDS);
            assert_eq!(query.channel_id, 4);
        }
        other => panic!("{:?}", other),
    }
    match list_forwards(Some(3), None, after) {
        ForwardLookup::Ask(query) => {
            assert_eq!(query.sql, LIST_INCOMING_FORWARDS);
            assert_eq!(query.channel_id, 3);
        }
        other => panic!("{:?}", other),
    }
    match list_forwards(None, Some(-4), after) {
        ForwardLookup::Ask(query) => {
            assert_eq!(query.sql, LIST_OUTGOING_FORWARDS);
            assert_eq!(query.channel_id, -4);
        }
        other => panic!("{:?}", other),
    }
    assert!(COUNT_INCOMING_FORWARDS.contains("WHERE incoming_channel_id = $1 AND created_at > $2"));
    assert!(COUNT_OUTGOING_FORWARDS.contains("WHERE outgoing_channel_id = $1 AND created_at > $2"));
    assert!(LIST_INCOMING_FORWARDS.contains("WHERE incoming_channel_id = $1 AND created_at > $2"));
    assert!(LIST_OUTGOING_FORWARDS.contains("WHERE outgoing_channel_id = $1 AND created_at > $2"));
}

#[test]
fn without_a_channel_there_are_no_forwards() {
    let after = Timestamp::from_unix(0);
    match count_forwards(None, None, after) {
        ForwardLookup::Known(count) => {
            assert_eq!(
                count,
                ForwardCount {
                    total_forwards_count: 0,
                    successful_forwards_count: 0,
                    avg_incoming_amount_msat: 0,
                }
            );
        }
        other => panic!("{:?}", other),
    }
    match list_forwards(None, None, after) {
        ForwardLookup::Known(forwards) => assert!(forwards.is_empty()),
        other => panic!("{:?}", other),
    }
}

#[test]
fn the_balance_rests_on_two_days_of_history() {
    let now = Timestamp::from_unix(1_700_000_000);
    let start = 1_700_000_000 - 48 * 3_600;
    let outgoing = BalanceStep::CountOutgoingForwards { channel_id: 3 };
    let query = balance_question(&outgoing, &now).unwrap();
    assert_eq!((query.sql, query.channel_id), (COUNT_OUTGOING_FORWARDS, 3));
    assert_eq!(query.after.secs(), start);
    let incoming = BalanceStep::CountIncomingForwards { channel_id: 4 };
    let query = balance_question(&incoming, &now).unwrap();
    assert_eq!((query.sql, query.channel_id), (COUNT_INCOMING_FORWARDS, 4));
    assert_eq!(query.after.secs(), start);
    assert!(balance_question(&BalanceStep::ReadCapacity { chan_id: 5 }, &now).is_none());
}

#[test]
fn two_days_of_history_count() {
    let now = Timestamp::from_parts(1_700_000_000, 42).unwrap();
    let start = forwarding_window_start(&now);
    assert_eq!((start.secs(), start.nanos()), (1_700_000_000 - 48 * 3_600, 42));
}
