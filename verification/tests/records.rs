use sarne::encoding::{macaroon_hex, HexError};
use sarne::network::{Channel, Failure, Hop, LightningNode, Route};
use sarne::policy::EdgePolicyHistoryRecord;
use sarne::probe::{PaymentProbe, PaymentProbeAttempt, ProbeEvent, ProbeRun};
use sarne::report::print_payment_probe;
use sarne::storage::{
    create_payment_probe, create_payment_probe_attempt, get_last_edge_policy_change, get_node_id,
    last_edge_policy_change, save_payment_probe, upsert_node, FailureRow, INCOMING_FEE_RATE_COLUMN,
    OUTGOING_FEE_RATE_COLUMN, UPSERT_NODE,
};
use sarne::time::Timestamp;

fn channel(remote_pubkey: &str) -> Channel {
    Channel {
        chan_id: u64::MAX,
        remote_pubkey: remote_pubkey.to_string(),
        local_balance: 0,
        remote_balance: 0,
        local_chan_reserve_sat: 0,
        remote_chan_reserve_sat: 0,
    }
}

fn attempt(seqno: i16, key: &str, failure: Option<Failure>) -> PaymentProbeAttempt {
    PaymentProbeAttempt {
        seqno,
        created_at: Timestamp::from_unix(6),
        route: Route {
            hops: vec![
                Hop { chan_id: 1, fee_msat: 11, pub_key: "6162".to_string() },
                Hop { chan_id: u64::MAX, fee_msat: 0, pub_key: key.to_string() },
            ],
            total_fees_msat: 11,
        },
        latency_ns: 1_500_000_000,
        failure,
    }
}

fn refused(failure_source_index: u32) -> Option<Failure> {
    Some(Failure { code: 15, failure_source_index })
}

fn probe(through: Option<Channel>, attempts: Vec<PaymentProbeAttempt>) -> PaymentProbe {
    let mut probe = PaymentProbe::new(
        Timestamp::from_unix(5),
        &"02aa".to_string(),
        through,
        &"03bb".to_string(),
        200_001,
    );
    probe.attempts = attempts;
    probe
}

fn node(pub_key: &str, alias: &str) -> LightningNode {
    LightningNode { pub_key: pub_key.to_string(), alias: alias.to_string() }
}

#[test]
fn nodes_are_looked_up_by_their_keys() {
    let query = upsert_node(vec![2, 3]);
    assert_eq!(query.sql, UPSERT_NODE);
    assert_eq!(query.pubkey, vec![2, 3]);
    let query = get_node_id("02aa").unwrap();
    assert_eq!(query.sql, UPSERT_NODE);
    assert_eq!(query.pubkey, vec![0x02, 0xaa]);
    assert_eq!(get_node_id("02a").unwrap_err(), HexError::OddLength);
    assert!(UPSERT_NODE.starts_with("INSERT INTO node (pubkey) VALUES ($1)"));
}

#[test]
fn the_last_change_of_a_column_is_asked_for() {
    for column in [OUTGOING_FEE_RATE_COLUMN, INCOMING_FEE_RATE_COLUMN] {
        let query = get_last_edge_policy_change("02aa", -7, column).unwrap();
        assert_eq!(query.pubkey, vec![0x02, 0xaa]);
        assert_eq!(query.channel_id, -7);
        let words: Vec<&str> = query.sql.split_whitespace().collect();
        assert_eq!(
            words.join(" "),
            format!(
                "WITH ordered AS ( \
                 SELECT eph.valid_from, eph.fee_rate_milli_msat, eph.inbound_fee_rate_milli_msat, \
                 LAG({}) OVER ( PARTITION BY node_id, channel_id ORDER BY valid_from ) \
                 AS previous_value FROM edge_policy_history AS eph \
                 WHERE node_id = (SELECT id FROM node WHERE pubkey = $1) AND channel_id = $2 ) \
                 SELECT valid_from, fee_rate_milli_msat, inbound_fee_rate_milli_msat \
                 FROM ordered WHERE {} IS DISTINCT FROM previous_value \
                 ORDER BY valid_from DESC LIMIT 1",
                column, column
            )
        );
    }
    assert_eq!(
        get_last_edge_policy_change("02ag", 1, OUTGOING_FEE_RATE_COLUMN).unwrap_err(),
        HexError::InvalidHexCharacter { c: 'g', index: 3 }
    );
}

#[test]
fn the_first_row_is_the_last_change() {
    assert!(last_edge_policy_change(&vec![]).is_none());
    let record = |secs: u32| EdgePolicyHistoryRecord {
        valid_from: Timestamp::from_unix(secs),
        fee_rate_milli_msat: Some(100),
        inbound_fee_rate_milli_msat: None,
    };
    let last = last_edge_policy_change(&vec![record(9), record(8)]).unwrap();
    assert_eq!(last.valid_from.secs(), 9);
    assert_eq!(last.fee_rate_milli_msat, Some(100));
    assert_eq!(last.inbound_fee_rate_milli_msat, None);
}

#[test]
fn probes_are_written() {
    let row = create_payment_probe(&probe(Some(channel("02cc")), vec![])).unwrap();
    assert_eq!(row.created_at.secs(), 5);
    assert_eq!(row.src_node, vec![0x02, 0xaa]);
    assert_eq!(row.dst_node, vec![0x03, 0xbb]);
    assert_eq!(row.outgoing_short_channel_id, Some(-1));
    assert_eq!(row.amount_msat, 200_001_000);
    let row = create_payment_probe(&probe(None, vec![])).unwrap();
    assert_eq!(row.outgoing_short_channel_id, None);
}

#[test]
fn probes_without_keys_are_not_written() {
    let mut unreadable = probe(None, vec![]);
    unreadable.dst_node_pubkey = "x".to_string();
    assert_eq!(create_payment_probe(&unreadable).unwrap_err(), HexError::OddLength);
    unreadable.src_node_pubkey = "xx".to_string();
    assert_eq!(
        create_payment_probe(&unreadable).unwrap_err(),
        HexError::InvalidHexCharacter { c: 'x', index: 0 }
    );
}

#[test]
fn a_probe_that_was_started_has_keys() {
    let run = ProbeRun::start(probe(None, vec![])).unwrap();
    let run = run.run_payment_probe(ProbeEvent::NoAnswer);
    assert!(save_payment_probe(&run.probe).unwrap().attempts.is_empty());
}

#[test]
fn attempts_are_written() {
    let rows = create_payment_probe_attempt(&attempt(2, "63", refused(65_536 + 1))).unwrap();
    assert_eq!(rows.attempt_seqno, 2);
    assert_eq!(rows.created_at.secs(), 6);
    assert_eq!(
        macaroon_hex(&rows.node_path_hash),
        "ba7816bf8f01cfea414140de5dae2223b00361a396177a9cb410ff61f20015ad"
    );
    assert_eq!(
        macaroon_hex(&rows.channel_path_hash),
        "193ac9f4b115b42ea40c1a1687ea865cceccf741a5b995cd91f1d26153efabb9"
    );
    assert_eq!((rows.node_path_hash.len(), rows.channel_path_hash.len()), (32, 32));
    assert_eq!(rows.fee_msat, 11);
    assert_eq!(rows.latency_ns, 1_500_000_000);
    assert_eq!(rows.hops.len(), 2);
    assert_eq!(rows.hops[0].hop_seqno, 0);
    assert_eq!(rows.hops[0].short_channel_id, 1);
    assert_eq!(rows.hops[0].node, vec![0x61, 0x62]);
    assert_eq!(rows.hops[0].fee_msat, 11);
    assert_eq!(rows.hops[1].hop_seqno, 1);
    assert_eq!(rows.hops[1].short_channel_id, -1);
    assert_eq!(rows.hops[1].node, vec![0x63]);
    assert_eq!(rows.failure, Some(FailureRow { hop_seqno: 1, failure_code: 15 }));
    let rows = create_payment_probe_attempt(&attempt(0, "63", None)).unwrap();
    assert_eq!(rows.failure, None);
}

#[test]
fn a_probe_is_written_whole_or_not_at_all() {
    let saved = save_payment_probe(&probe(
        None,
        vec![attempt(0, "63", refused(1)), attempt(1, "64", None)],
    ))
    .unwrap();
    assert_eq!(saved.probe.amount_msat, 200_001_000);
    assert_eq!(saved.attempts.len(), 2);
    assert_eq!(saved.attempts[0].attempt_seqno, 0);
    assert_eq!(saved.attempts[1].hops[1].node, vec![0x64]);
    let unreadable = probe(
        None,
        vec![attempt(0, "63", refused(1)), attempt(1, "6", refused(1)), attempt(2, "xx", None)],
    );
    assert_eq!(save_payment_probe(&unreadable).unwrap_err(), HexError::OddLength);
    let mut unreadable = probe(None, vec![attempt(0, "6", None)]);
    unreadable.src_node_pubkey = "xx".to_string();
    assert_eq!(
        save_payment_probe(&unreadable).unwrap_err(),
        HexError::InvalidHexCharacter { c: 'x', index: 0 }
    );
}

#[test]
fn probes_are_told() {
    let nodes = vec![node("02cc", "carol"), node("03bb", "bob"), node("02cc", "mallory")];
    let times = vec!["1.500".to_string(), "0.250".to_string()];
    let tried = vec![attempt(0, "63", refused(1)), attempt(1, "63", None)];
    let told = print_payment_probe(
        &nodes,
        &probe(Some(channel("02cc")), tried),
        &nodes[1],
        -3,
        &times,
    );
    assert_eq!(
        told,
        vec![
            "PROBE -3",
            "    Destination Peer:    bob (03bb)",
            "    Outgoing Channel:    18446744073709551615 [carol]",
            "    Amount:              200001 sat",
            "    Result:              SUCCESS",
            "    Attempts:            2 [1.500s; code:15; hop:1/2] [0.250s]",
        ]
    );
}

#[test]
fn a_peer_that_is_not_known_is_told_by_its_key() {
    let told = print_payment_probe(
        &vec![],
        &probe(Some(channel("02cc")), vec![]),
        &node("03bb", ""),
        1,
        &vec![],
    );
    assert_eq!(
        told,
        vec![
            "PROBE 1",
            "    Destination Peer:     (03bb)",
            "    Outgoing Channel:    18446744073709551615 [02cc]",
            "    Amount:              200001 sat",
            "    Result:              FAILURE",
            "    Attempts:            0 ",
        ]
    );
}

#[test]
fn success_is_told_where_the_last_try_arrived() {
    let result = |failures: Vec<Option<Failure>>| {
        let times = failures.iter().map(|_| "0.000".to_string()).collect();
        let tried =
            failures.into_iter().enumerate().map(|(i, f)| attempt(i as i16, "63", f)).collect();
        let told = print_payment_probe(&vec![], &probe(None, tried), &node("03", "x"), 1, &times);
        told[3].clone()
    };
    assert_eq!(result(vec![None]), "    Result:              SUCCESS");
    assert_eq!(result(vec![refused(1), refused(2), None]), "    Result:              SUCCESS");
    assert_eq!(result(vec![refused(1), refused(2), refused(3)]), "    Result:              FAILURE");
}
