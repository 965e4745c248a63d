use sarne::balance::ChannelBalanceCategory;
use sarne::encoding::HexError;
use sarne::forwards::{
    ForwardCount, ForwardQuery, COUNT_INCOMING_FORWARDS, COUNT_OUTGOING_FORWARDS,
};
use sarne::inquiry::{next_question, take_answer, InquiryAnswer, InquiryPhase, InquiryQuestion};
use sarne::network::{Channel, ChannelEdge, RoutingPolicy};
use sarne::policy::EdgePolicyHistoryRecord;
use sarne::storage::PolicyHistoryQuery;
use sarne::time::Timestamp;

fn channel() -> Channel {
    Channel {
        chan_id: u64::MAX,
        remote_pubkey: "02aa".to_string(),
        local_balance: 1,
        remote_balance: 2,
        local_chan_reserve_sat: 3,
        remote_chan_reserve_sat: 4,
    }
}

fn edge(node2_policy: Option<RoutingPolicy>) -> ChannelEdge {
    ChannelEdge {
        chan_point: "f00d:3".to_string(),
        node1_pub: "02aa".to_string(),
        node2_pub: "02bb".to_string(),
        capacity: 10,
        node1_policy: None,
        node2_policy,
    }
}

fn policy() -> RoutingPolicy {
    RoutingPolicy {
        time_lock_delta: 80,
        fee_base_msat: 1,
        fee_rate_milli_msat: 100,
        max_htlc_msat: 990,
        last_update: 5,
        inbound_fee_base_msat: 0,
        inbound_fee_rate_milli_msat: -50,
    }
}

fn forwards(total: i64) -> ForwardCount {
    ForwardCount {
        total_forwards_count: total,
        successful_forwards_count: 0,
        avg_incoming_amount_msat: 0,
    }
}

fn record(secs: u32) -> EdgePolicyHistoryRecord {
    EdgePolicyHistoryRecord {
        valid_from: Timestamp::from_unix(secs),
        fee_rate_milli_msat: None,
        inbound_fee_rate_milli_msat: None,
    }
}

fn known(edge: Option<ChannelEdge>) -> InquiryAnswer {
    InquiryAnswer::ChanInfo { edge, now: Timestamp::from_unix(1_000_000) }
}

fn answered(phase: InquiryPhase, answer: InquiryAnswer) -> InquiryPhase {
    take_answer(&"02bb".to_string(), &channel(), phase, answer)
}

fn question(phase: &InquiryPhase) -> InquiryQuestion {
    next_question(&"02bb".to_string(), &channel(), phase).unwrap()
}

fn forward_query(phase: &InquiryPhase) -> ForwardQuery {
    match question(phase) {
        InquiryQuestion::Forwards(query) => query,
        other => panic!("{:?}", other),
    }
}

fn policy_query(phase: &InquiryPhase) -> PolicyHistoryQuery {
    match question(phase) {
        InquiryQuestion::LastChange(query) => query,
        other => panic!("{:?}", other),
    }
}

#[test]
fn each_answer_goes_where_it_belongs() {
    let phase = InquiryPhase::ChanInfo;
    assert!(matches!(question(&phase), InquiryQuestion::ChanInfo { chan_id: u64::MAX }));
    let phase = answered(phase, known(Some(edge(Some(policy())))));

    let query = forward_query(&phase);
    assert_eq!((query.sql, query.channel_id), (COUNT_INCOMING_FORWARDS, -1));
    assert_eq!(query.after.secs(), 1_000_000 - 172_800);
    let phase = answered(phase, InquiryAnswer::Forwards(forwards(11)));

    let query = forward_query(&phase);
    assert_eq!((query.sql, query.channel_id), (COUNT_OUTGOING_FORWARDS, -1));
    assert_eq!(query.after.secs(), 1_000_000 - 172_800);
    let phase = answered(phase, InquiryAnswer::Forwards(forwards(22)));

    assert!(matches!(question(&phase), InquiryQuestion::Balance));
    let category = ChannelBalanceCategory::MinimalIncomingLiquidity;
    let phase = answered(phase, InquiryAnswer::Balance(category));

    let query = policy_query(&phase);
    assert!(query.sql.contains("LAG(fee_rate_milli_msat)"));
    assert_eq!((query.pubkey, query.channel_id), (vec![0x02, 0xbb], -1));
    let phase = answered(phase, InquiryAnswer::LastChange(vec![record(7), record(6)]));

    let query = policy_query(&phase);
    assert!(query.sql.contains("LAG(inbound_fee_rate_milli_msat)"));
    assert_eq!((query.pubkey, query.channel_id), (vec![0x02, 0xbb], -1));
    let phase = answered(phase, InquiryAnswer::LastChange(vec![]));

    assert!(matches!(question(&phase), InquiryQuestion::Nothing));
    match phase {
        InquiryPhase::Complete { edge, local, seen } => {
            assert_eq!(edge.chan_point, "f00d:3");
            assert_eq!(local, policy());
            assert_eq!(seen.channel.chan_id, u64::MAX);
            assert_eq!(seen.incoming_forwards, forwards(11));
            assert_eq!(seen.outgoing_forwards, forwards(22));
            assert_eq!(seen.channel_balance_category, category);
            assert_eq!(seen.last_outbound_policy.unwrap().valid_from.secs(), 7);
            assert!(seen.last_inbound_policy.is_none());
        }
        other => panic!("{:?}", other),
    }
}

#[test]
fn channels_without_a_policy_are_not_looked_into() {
    for answer in [known(None), known(Some(edge(None))), InquiryAnswer::Failed] {
        let phase = answered(InquiryPhase::ChanInfo, answer);
        assert!(matches!(phase, InquiryPhase::NothingToChange));
        assert!(matches!(question(&phase), InquiryQuestion::Nothing));
        let phase = answered(phase, InquiryAnswer::Forwards(forwards(1)));
        assert!(matches!(phase, InquiryPhase::NothingToChange));
    }
    let stranger = take_answer(
        &"02cc".to_string(),
        &channel(),
        InquiryPhase::ChanInfo,
        known(Some(edge(Some(policy())))),
    );
    assert!(matches!(stranger, InquiryPhase::NothingToChange));
}

#[test]
fn an_answer_that_cannot_be_had_ends_the_inquiry() {
    let phase = answered(InquiryPhase::ChanInfo, known(Some(edge(Some(policy())))));
    let phase = answered(phase, InquiryAnswer::Failed);
    assert!(matches!(phase, InquiryPhase::Failed));
    let phase = answered(phase, InquiryAnswer::Forwards(forwards(1)));
    assert!(matches!(phase, InquiryPhase::Failed));
    assert!(matches!(question(&phase), InquiryQuestion::Nothing));
}

#[test]
fn answers_to_other_questions_change_nothing() {
    let phase = answered(InquiryPhase::ChanInfo, InquiryAnswer::Forwards(forwards(1)));
    assert!(matches!(phase, InquiryPhase::ChanInfo));
}

#[test]
fn last_changes_are_asked_for_by_key() {
    let phase = InquiryPhase::LastOutbound {
        edge: edge(Some(policy())),
        local: policy(),
        incoming: forwards(0),
        outgoing: forwards(0),
        category: ChannelBalanceCategory::BalancedLiquidity,
    };
    let asked = next_question(&"02b".to_string(), &channel(), &phase);
    assert_eq!(asked.unwrap_err(), HexError::OddLength);
}
