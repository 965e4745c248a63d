//! What is read from the database and written to it.
use crate::encoding::{hex_decoded, node_pubkey_bytes, HexError};
use crate::hashing::{channel_path, channel_path_hash, node_path, node_path_hash, sha256};
use crate::network::{to_channel_id, Failure, Hop};
use crate::policy::EdgePolicyHistoryRecord;
use crate::probe::{PaymentProbe, PaymentProbeAttempt, ProbeRun};
use crate::time::Timestamp;
use vstd::prelude::*;
use vstd::string::*;
use vstd::utf8::*;

verus! {

/// Finds the ID under which the node with public key `$1` is kept, and keeps it
/// under a new one where it is not.
pub const UPSERT_NODE: &'static str =
    "INSERT INTO node (pubkey) VALUES ($1)
     ON CONFLICT (pubkey) DO UPDATE SET pubkey = EXCLUDED.pubkey
     RETURNING id";

/// Writes a probe, and gives the ID under which it is kept.
pub const INSERT_PAYMENT_PROBE: &'static str =
    "INSERT INTO payment_probe
        ( created_at
        , src_node_id
        , outgoing_short_channel_id
        , dst_node_id
        , amount_msat
        )
     VALUES
        ( $1
        , $2
        , $3
        , $4
        , $5
        )
     RETURNING id;";

/// Writes a try of a probe.
pub const INSERT_PAYMENT_PROBE_ATTEMPT: &'static str =
    "INSERT INTO payment_probe_attempt
        ( payment_probe_id
        , attempt_seqno
        , created_at
        , node_path_hash
        , channel_path_hash
        , fee_msat
        , latency_ns
        )
     VALUES
        ( $1, $2, $3, $4, $5, $6, $7 )";

/// Writes a hop of the route of a try.
pub const INSERT_PAYMENT_PROBE_HOP: &'static str =
    "INSERT INTO payment_probe_hop
        ( payment_probe_id
        , attempt_seqno
        , hop_seqno
        , short_channel_id
        , node_id
        , fee_msat
        )
     VALUES
        ( $1, $2, $3, $4, $5, $6 )";

/// Writes what stopped a try.
pub const INSERT_PAYMENT_PROBE_FAILURE: &'static str =
    "INSERT INTO payment_probe_failure
        ( payment_probe_id
        , attempt_seqno
        , hop_seqno
        , failure_code
        )
     VALUES
        ( $1, $2, $3, $4 )";

/// The column of the policy history that holds the outgoing fee rate.
pub const OUTGOING_FEE_RATE_COLUMN: &'static str = "fee_rate_milli_msat";

/// The column of the policy history that holds the incoming fee rate.
pub const INCOMING_FEE_RATE_COLUMN: &'static str = "inbound_fee_rate_milli_msat";

/// The question for the last change of a column of the policy history, up to the
/// name of the column.
pub const LAST_POLICY_CHANGE_HEAD: &'static str =
    "WITH ordered AS (
        SELECT eph.valid_from, eph.fee_rate_milli_msat, eph.inbound_fee_rate_milli_msat,
               LAG(";

/// The part of that question between the two names of the column.
pub const LAST_POLICY_CHANGE_MIDDLE: &'static str =
    ") OVER (
                 PARTITION BY node_id, channel_id
                 ORDER BY valid_from
               ) AS previous_value
        FROM edge_policy_history AS eph
        WHERE node_id = (SELECT id FROM node WHERE pubkey = $1)
          AND channel_id = $2
    )
    SELECT valid_from, fee_rate_milli_msat, inbound_fee_rate_milli_msat
    FROM ordered
    WHERE ";

/// The part of that question behind the second name of the column.
pub const LAST_POLICY_CHANGE_TAIL: &'static str =
    " IS DISTINCT FROM previous_value
    ORDER BY valid_from DESC
    LIMIT 1";

/// A question for the ID of a node.
#[derive(Debug)]
pub struct NodeQuery {
    pub sql: &'static str,
    pub pubkey: Vec<u8>,
}

/// Asks for the ID under which a node is kept.
pub fn upsert_node(pubkey: Vec<u8>) -> (r: NodeQuery)
    ensures
        r.sql == UPSERT_NODE,
        r.pubkey@ == pubkey@,
{
    NodeQuery { sql: UPSERT_NODE, pubkey }
}

/// Asks for the ID under which the local node is kept.
pub fn get_node_id(identity_pubkey: &str) -> (r: Result<NodeQuery, HexError>)
    ensures
        match hex_decoded(encode_utf8(identity_pubkey@)) {
            Ok(pubkey) => r matches Ok(query) && query.sql == UPSERT_NODE && query.pubkey@
                == pubkey,
            Err(e) => r == Err::<NodeQuery, HexError>(e),
        },
{
    match node_pubkey_bytes(identity_pubkey) {
        Ok(pubkey) => Ok(upsert_node(pubkey)),
        Err(e) => Err(e),
    }
}

/// A question for the last change of a node's policy on a channel.
#[derive(Debug)]
pub struct PolicyHistoryQuery {
    pub sql: String,
    pub pubkey: Vec<u8>,
    pub channel_id: i64,
}

/// The question for the last change of a column of the policy history.
pub open spec fn last_policy_change_sql(column: Seq<char>) -> Seq<char> {
    LAST_POLICY_CHANGE_HEAD@ + column + LAST_POLICY_CHANGE_MIDDLE@ + column
        + LAST_POLICY_CHANGE_TAIL@
}

/// Asks for the last change of a node's policy on a channel, in one column of the
/// policy history.
pub fn get_last_edge_policy_change(
    node_pubkey: &str,
    channel_id: i64,
    column: &str,
) -> (r: Result<PolicyHistoryQuery, HexError>)
    ensures
        match hex_decoded(encode_utf8(node_pubkey@)) {
            Ok(pubkey) => r matches Ok(query) && query.sql@ == last_policy_change_sql(column@)
                && query.sql@ == LAST_POLICY_CHANGE_HEAD@ + column@ + LAST_POLICY_CHANGE_MIDDLE@
                + column@ + LAST_POLICY_CHANGE_TAIL@
                && query.pubkey@ == pubkey && query.channel_id == channel_id,
            Err(e) => r == Err::<PolicyHistoryQuery, HexError>(e),
        },
{
    let pubkey = match node_pubkey_bytes(node_pubkey) {
        Ok(pubkey) => pubkey,
        Err(e) => return Err(e),
    };
    let mut sql = String::from_str(LAST_POLICY_CHANGE_HEAD);
    sql.append(column);
    sql.append(LAST_POLICY_CHANGE_MIDDLE);
    sql.append(column);
    sql.append(LAST_POLICY_CHANGE_TAIL);
    Ok(PolicyHistoryQuery { sql, pubkey, channel_id })
}

/// The last change, from the answer of the database.
pub fn last_edge_policy_change(rows: &Vec<EdgePolicyHistoryRecord>) -> (r: Option<
    EdgePolicyHistoryRecord,
>)
    ensures
        r == if rows@.len() > 0 {
            Some(rows@[0])
        } else {
            None
        },
{
    if rows.len() > 0 {
        Some(rows[0])
    } else {
        None
    }
}

/// A probe as it is written. The two nodes are looked up by their keys.
#[derive(Debug)]
pub struct PaymentProbeRow {
    pub created_at: Timestamp,
    pub src_node: Vec<u8>,
    pub outgoing_short_channel_id: Option<i64>,
    pub dst_node: Vec<u8>,
    pub amount_msat: i64,
}

/// Whether `bytes` is the public key that `text` spells.
pub open spec fn is_key(bytes: Seq<u8>, text: Seq<char>) -> bool {
    hex_decoded(encode_utf8(text)) == Ok::<Seq<u8>, HexError>(bytes)
}

/// Whether `row` is how a probe is written.
pub open spec fn is_probe_row(row: PaymentProbeRow, probe: PaymentProbe) -> bool {
    &&& row.created_at == probe.created_at
    &&& is_key(row.src_node@, probe.src_node_pubkey@)
    &&& row.outgoing_short_channel_id == match probe.channel {
        Some(channel) => Some(channel.chan_id as i64),
        None => None,
    }
    &&& is_key(row.dst_node@, probe.dst_node_pubkey@)
    &&& row.amount_msat == probe.amount_msat as i64
}

/// Why the first of the two ends of a probe that has no public key cannot be
/// read.
pub open spec fn unreadable_key(probe: PaymentProbe) -> Option<HexError> {
    match hex_decoded(encode_utf8(probe.src_node_pubkey@)) {
        Err(e) => Some(e),
        Ok(_) => match hex_decoded(encode_utf8(probe.dst_node_pubkey@)) {
            Err(e) => Some(e),
            Ok(_) => None,
        },
    }
}

/// Puts a probe into the form in which it is written. Both ends have to be known
/// by public keys.
pub fn create_payment_probe(probe: &PaymentProbe) -> (r: Result<PaymentProbeRow, HexError>)
    ensures
        match r {
            Ok(row) => unreadable_key(*probe) is None && is_probe_row(row, *probe),
            Err(e) => unreadable_key(*probe) == Some(e),
        },
        r is Ok <==> hex_decoded(encode_utf8(probe.src_node_pubkey@)) is Ok && hex_decoded(
            encode_utf8(probe.dst_node_pubkey@),
        ) is Ok,
        r matches Ok(row) ==> {
            &&& row.created_at == probe.created_at
            &&& hex_decoded(encode_utf8(probe.src_node_pubkey@)) == Ok::<Seq<u8>, HexError>(
                row.src_node@,
            )
            &&& hex_decoded(encode_utf8(probe.dst_node_pubkey@)) == Ok::<Seq<u8>, HexError>(
                row.dst_node@,
            )
            &&& probe.channel is None ==> row.outgoing_short_channel_id is None
            &&& probe.channel matches Some(channel) ==> row.outgoing_short_channel_id == Some(
                channel.chan_id as i64,
            )
            &&& row.amount_msat == probe.amount_msat as i64
        },
{
    let src_node = match node_pubkey_bytes(probe.src_node_pubkey.as_str()) {
        Ok(bytes) => bytes,
        Err(e) => return Err(e),
    };
    let dst_node = match node_pubkey_bytes(probe.dst_node_pubkey.as_str()) {
        Ok(bytes) => bytes,
        Err(e) => return Err(e),
    };
    let outgoing_short_channel_id: Option<i64> = match &probe.channel {
        Some(channel) => Some(to_channel_id(channel.chan_id)),
        None => None,
    };
    Ok(
        PaymentProbeRow {
            created_at: probe.created_at,
            src_node,
            outgoing_short_channel_id,
            dst_node,
            amount_msat: #[verifier::truncate] (probe.amount_msat as i64),
        },
    )
}

/// A hop as it is written. The node is looked up by its key.
#[derive(Debug)]
pub struct HopRow {
    pub hop_seqno: i16,
    pub short_channel_id: i64,
    pub node: Vec<u8>,
    pub fee_msat: i64,
}

/// What stopped a try, as it is written.
#[derive(Clone, Copy, Debug, PartialEq, Eq, Structural)]
pub struct FailureRow {
    pub hop_seqno: i16,
    pub failure_code: i32,
}

/// A try of a probe as it is written.
#[derive(Debug)]
pub struct AttemptRows {
    pub attempt_seqno: i16,
    pub created_at: Timestamp,
    pub node_path_hash: Vec<u8>,
    pub channel_path_hash: Vec<u8>,
    pub fee_msat: i64,
    pub latency_ns: i64,
    pub hops: Vec<HopRow>,
    pub failure: Option<FailureRow>,
}

/// Whether `row` is how the hop at position `i` is written.
pub open spec fn is_hop_row(row: HopRow, hop: Hop, i: int) -> bool {
    &&& row.hop_seqno == i as i16
    &&& row.short_channel_id == hop.chan_id as i64
    &&& is_key(row.node@, hop.pub_key@)
    &&& row.fee_msat == hop.fee_msat
}

/// How what stopped a try is written.
pub open spec fn failure_row(failure: Failure) -> FailureRow {
    FailureRow {
        hop_seqno: failure.failure_source_index as i16,
        failure_code: failure.code,
    }
}

/// Whether `rows` is how a try is written.
pub open spec fn are_attempt_rows(rows: AttemptRows, attempt: PaymentProbeAttempt) -> bool {
    &&& rows.attempt_seqno == attempt.seqno
    &&& rows.created_at == attempt.created_at
    &&& node_path(attempt.route.hops@) matches Ok(path) && rows.node_path_hash@ == sha256(path)
    &&& rows.node_path_hash@.len() == 32
    &&& rows.channel_path_hash@ == sha256(channel_path(attempt.route.hops@))
    &&& rows.channel_path_hash@.len() == 32
    &&& rows.fee_msat == attempt.route.total_fees_msat
    &&& rows.latency_ns == attempt.latency_ns
    &&& rows.hops@.len() == attempt.route.hops@.len()
    &&& forall|i: int|
        0 <= i < rows.hops@.len() ==> is_hop_row(
            #[trigger] rows.hops@[i],
            attempt.route.hops@[i],
            i,
        )
    &&& rows.failure == match attempt.failure {
        Some(failure) => Some(failure_row(failure)),
        None => None,
    }
}

/// Why the first of the tries whose route cannot be read cannot be.
pub open spec fn unreadable_attempt(attempts: Seq<PaymentProbeAttempt>) -> Option<HexError>
    decreases attempts.len(),
{
    if attempts.len() == 0 {
        None
    } else {
        match unreadable_attempt(attempts.drop_last()) {
            Some(e) => Some(e),
            None => match node_path(attempts.last().route.hops@) {
                Err(e) => Some(e),
                Ok(_) => None,
            },
        }
    }
}

/// Why a probe cannot be written, if it cannot.
pub open spec fn unsaved_reason(probe: PaymentProbe) -> Option<HexError> {
    match unreadable_key(probe) {
        Some(e) => Some(e),
        None => unreadable_attempt(probe.attempts@),
    }
}

/// Tries of which some part cannot be read cannot be read, for the same reason.
proof fn lemma_unreadable_prefix(attempts: Seq<PaymentProbeAttempt>, k: int)
    requires
        0 <= k <= attempts.len(),
        unreadable_attempt(attempts.take(k)) is Some,
    ensures
        unreadable_attempt(attempts) == unreadable_attempt(attempts.take(k)),
    decreases attempts.len() - k,
{
    if k == attempts.len() {
        assert(attempts.take(k) =~= attempts);
    } else {
        assert(attempts.take(k + 1).drop_last() =~= attempts.take(k));
        lemma_unreadable_prefix(attempts, k + 1);
    }
}

/// A path that can be read can be read at each of its hops.
proof fn lemma_node_path_hops(hops: Seq<Hop>, i: int)
    requires
        node_path(hops) is Ok,
        0 <= i < hops.len(),
    ensures
        hex_decoded(encode_utf8(hops[i].pub_key@)) is Ok,
    decreases hops.len(),
{
    if i < hops.len() - 1 {
        lemma_node_path_hops(hops.drop_last(), i);
    }
}

/// Puts a try into the form in which it is written. The key of every node on its
/// route has to be one.
pub fn create_payment_probe_attempt(attempt: &PaymentProbeAttempt) -> (r: Result<
    AttemptRows,
    HexError,
>)
    ensures
        match r {
            Ok(rows) => node_path(attempt.route.hops@) is Ok && are_attempt_rows(rows, *attempt),
            Err(e) => node_path(attempt.route.hops@) == Err::<Seq<u8>, HexError>(e),
        },
        r matches Ok(rows) ==> {
            &&& rows.attempt_seqno == attempt.seqno
            &&& rows.created_at == attempt.created_at
            &&& rows.node_path_hash@ == sha256(node_path(attempt.route.hops@)->Ok_0)
            &&& rows.channel_path_hash@ == sha256(channel_path(attempt.route.hops@))
            &&& rows.fee_msat == attempt.route.total_fees_msat
            &&& rows.latency_ns == attempt.latency_ns
            &&& rows.hops@.len() == attempt.route.hops@.len()
            &&& attempt.failure is None <==> rows.failure is None
        },
{
    let route = &attempt.route;
    let node_path_hash = match node_path_hash(&route.hops) {
        Ok(hash) => hash,
        Err(e) => return Err(e),
    };
    let channel_path_hash = channel_path_hash(&route.hops);
    let mut hops: Vec<HopRow> = Vec::new();
    let mut i: usize = 0;
    while i < route.hops.len()
        invariant
            i <= route.hops@.len(),
            node_path(route.hops@) is Ok,
            *route == attempt.route,
            hops@.len() == i,
            forall|k: int|
                0 <= k < i ==> is_hop_row(#[trigger] hops@[k], attempt.route.hops@[k], k),
        decreases route.hops@.len() - i,
    {
        let hop = &route.hops[i];
        proof {
            lemma_node_path_hops(route.hops@, i as int);
        }
        let node = match node_pubkey_bytes(hop.pub_key.as_str()) {
            Ok(bytes) => bytes,
            Err(e) => return Err(e),
        };
        hops.push(
            HopRow {
                hop_seqno: #[verifier::truncate] (i as i16),
                short_channel_id: to_channel_id(hop.chan_id),
                node,
                fee_msat: hop.fee_msat,
            },
        );
        i = i + 1;
    }
    let failure: Option<FailureRow> = match &attempt.failure {
        Some(failure) => Some(
            FailureRow {
                hop_seqno: #[verifier::truncate] (failure.failure_source_index as i16),
                failure_code: failure.code,
            },
        ),
        None => None,
    };
    Ok(
        AttemptRows {
            attempt_seqno: attempt.seqno,
            created_at: attempt.created_at,
            node_path_hash,
            channel_path_hash,
            fee_msat: route.total_fees_msat,
            latency_ns: attempt.latency_ns,
            hops,
            failure,
        },
    )
}

/// A probe and all of its tries as they are written.
#[derive(Debug)]
pub struct SavedProbe {
    pub probe: PaymentProbeRow,
    pub attempts: Vec<AttemptRows>,
}

/// Puts a probe and all of its tries into the form in which they are written, in
/// one transaction. Where one of them cannot be written, nothing is: the first
/// reason is given.
pub fn save_payment_probe(probe: &PaymentProbe) -> (r: Result<SavedProbe, HexError>)
    ensures
        r matches Ok(saved) ==> {
            &&& is_probe_row(saved.probe, *probe)
            &&& saved.attempts@.len() == probe.attempts@.len()
            &&& forall|i: int|
                0 <= i < saved.attempts@.len() ==> are_attempt_rows(
                    #[trigger] saved.attempts@[i],
                    probe.attempts@[i],
                )
        },
        match r {
            Ok(_) => unsaved_reason(*probe) is None,
            Err(e) => unsaved_reason(*probe) == Some(e),
        },
        r matches Ok(saved) ==> {
            &&& saved.attempts@.len() == probe.attempts@.len()
            &&& saved.probe.created_at == probe.created_at
            &&& saved.probe.amount_msat == probe.amount_msat as i64
            &&& forall|i: int|
                0 <= i < saved.attempts@.len() ==> (#[trigger] saved.attempts@[i]).fee_msat
                    == probe.attempts@[i].route.total_fees_msat && saved.attempts@[i].attempt_seqno
                    == probe.attempts@[i].seqno && saved.attempts@[i].latency_ns
                    == probe.attempts@[i].latency_ns
        },
{
    let row = match create_payment_probe(probe) {
        Ok(row) => row,
        Err(e) => return Err(e),
    };
    let mut attempts: Vec<AttemptRows> = Vec::new();
    let mut i: usize = 0;
    assert(probe.attempts@.take(0) =~= Seq::<PaymentProbeAttempt>::empty());
    while i < probe.attempts.len()
        invariant
            i <= probe.attempts@.len(),
            unreadable_key(*probe) is None,
            unreadable_attempt(probe.attempts@.take(i as int)) is None,
            attempts@.len() == i,
            forall|k: int|
                0 <= k < i ==> are_attempt_rows(#[trigger] attempts@[k], probe.attempts@[k]),
        decreases probe.attempts@.len() - i,
    {
        assert(probe.attempts@.take(i + 1).drop_last() =~= probe.attempts@.take(i as int));
        match create_payment_probe_attempt(&probe.attempts[i]) {
            Ok(rows) => attempts.push(rows),
            Err(e) => {
                proof {
                    lemma_unreadable_prefix(probe.attempts@, i + 1);
                }
                return Err(e);
            },
        }
        i = i + 1;
    }
    assert(probe.attempts@.take(probe.attempts@.len() as int) =~= probe.attempts@);
    Ok(SavedProbe { probe: row, attempts })
}

/// A probe that could be started lacks no public key when it is written, whatever
/// came of it.
pub proof fn law_started_probes_have_keys(run: ProbeRun)
    requires
        run.wf(),
    ensures
        unreadable_key(run.probe) is None,
        unsaved_reason(run.probe) == unreadable_attempt(run.probe.attempts@),
{
}

/// A try is written with the total fee of its route, whatever the fees of its hops:
/// two tries whose routes have the same total are written with the same fee. The
/// fee of each hop is written with the hop.
pub proof fn law_tries_are_written_with_the_total_fee(
    a: PaymentProbeAttempt,
    a_rows: AttemptRows,
    b: PaymentProbeAttempt,
    b_rows: AttemptRows,
)
    requires
        are_attempt_rows(a_rows, a),
        are_attempt_rows(b_rows, b),
    ensures
        a_rows.fee_msat == a.route.total_fees_msat,
        a.route.total_fees_msat == b.route.total_fees_msat <==> a_rows.fee_msat == b_rows.fee_msat,
        forall|i: int|
            0 <= i < a.route.hops@.len() ==> (#[trigger] a_rows.hops@[i]).fee_msat
                == a.route.hops@[i].fee_msat,
{
    assert forall|i: int| 0 <= i < a.route.hops@.len() implies (
    #[trigger] a_rows.hops@[i]).fee_msat == a.route.hops@[i].fee_msat by {
        assert(is_hop_row(a_rows.hops@[i], a.route.hops@[i], i));
    }
}

/// What is written of a try is what was noted of it: its number, its time, how long
/// it took, and, where it was refused, the number of the refusal and the position of
/// the node that refused.
pub proof fn law_tries_are_written_as_noted(attempt: PaymentProbeAttempt, rows: AttemptRows)
    requires
        are_attempt_rows(rows, attempt),
    ensures
        rows.attempt_seqno == attempt.seqno,
        rows.created_at == attempt.created_at,
        rows.latency_ns == attempt.latency_ns,
        attempt.failure is None <==> rows.failure is None,
        attempt.failure matches Some(failure) ==> {
            &&& rows.failure->0.failure_code == failure.code
            &&& failure.failure_source_index <= 0x7fff ==> rows.failure->0.hop_seqno
                == failure.failure_source_index
        },
{
}

/// The hops of a try are written one for one and in order: numbered from 0 on, each
/// with its channel and with the key of its node.
pub proof fn law_hops_are_written_in_order(attempt: PaymentProbeAttempt, rows: AttemptRows, i: int)
    requires
        are_attempt_rows(rows, attempt),
        0 <= i < attempt.route.hops@.len(),
    ensures
        rows.hops@.len() == attempt.route.hops@.len(),
        i <= 0x7fff ==> rows.hops@[i].hop_seqno == i,
        rows.hops@[i].short_channel_id == attempt.route.hops@[i].chan_id as i64,
        hex_decoded(encode_utf8(attempt.route.hops@[i].pub_key@)) == Ok::<Seq<u8>, HexError>(
            rows.hops@[i].node@,
        ),
{
    assert(is_hop_row(rows.hops@[i], attempt.route.hops@[i], i));
}

/// The digests of a try are those of the keys and of the channel IDs along its
/// route: tries over routes with the same keys have the same digest of the one, those
/// over routes with the same channels that of the other, however else they differ.
pub proof fn law_digests_rest_on_the_route(
    a: PaymentProbeAttempt,
    a_rows: AttemptRows,
    b: PaymentProbeAttempt,
    b_rows: AttemptRows,
)
    requires
        are_attempt_rows(a_rows, a),
        are_attempt_rows(b_rows, b),
    ensures
        node_path(a.route.hops@) matches Ok(path) && a_rows.node_path_hash@ == sha256(path),
        a_rows.channel_path_hash@ == sha256(channel_path(a.route.hops@)),
        node_path(a.route.hops@) == node_path(b.route.hops@) ==> a_rows.node_path_hash@
            == b_rows.node_path_hash@,
        channel_path(a.route.hops@) == channel_path(b.route.hops@) ==> a_rows.channel_path_hash@
            == b_rows.channel_path_hash@,
{
}

/// What is written of a probe is what it was: its time, its two ends, the channel
/// that it left by, if it was not free to choose, and its amount.
pub proof fn law_probes_are_written_as_they_were(probe: PaymentProbe, row: PaymentProbeRow)
    requires
        is_probe_row(row, probe),
    ensures
        row.created_at == probe.created_at,
        hex_decoded(encode_utf8(probe.src_node_pubkey@)) == Ok::<Seq<u8>, HexError>(row.src_node@),
        hex_decoded(encode_utf8(probe.dst_node_pubkey@)) == Ok::<Seq<u8>, HexError>(row.dst_node@),
        probe.channel is None <==> row.outgoing_short_channel_id is None,
        probe.channel matches Some(channel) ==> row.outgoing_short_channel_id == Some(
            channel.chan_id as i64,
        ),
        probe.amount_msat <= i64::MAX ==> row.amount_msat == probe.amount_msat,
{
}

/// A probe is written exactly where the keys of both of its ends can be read and the
/// route of each of its tries can. Where one cannot, the reason is that of the
/// first: the start, then the destination, then the tries in order.
pub proof fn law_probes_are_written_where_all_can_be_read(
    probe: PaymentProbe,
    tries: Seq<PaymentProbeAttempt>,
    last: PaymentProbeAttempt,
)
    ensures
        unreadable_key(probe) is None <==> hex_decoded(encode_utf8(probe.src_node_pubkey@)) is Ok
            && hex_decoded(encode_utf8(probe.dst_node_pubkey@)) is Ok,
        hex_decoded(encode_utf8(probe.src_node_pubkey@)) matches Err(e) ==> unsaved_reason(probe)
            == Some(e),
        hex_decoded(encode_utf8(probe.src_node_pubkey@)) is Ok ==> (hex_decoded(
            encode_utf8(probe.dst_node_pubkey@),
        ) matches Err(e) ==> unsaved_reason(probe) == Some(e)),
        unreadable_key(probe) is None ==> unsaved_reason(probe) == unreadable_attempt(
            probe.attempts@,
        ),
        unreadable_attempt(Seq::empty()) is None,
        unreadable_attempt(tries) is Some ==> unreadable_attempt(tries.push(last))
            == unreadable_attempt(tries),
        unreadable_attempt(tries) is None ==> (match node_path(last.route.hops@) {
            Ok(_) => unreadable_attempt(tries.push(last)) is None,
            Err(e) => unreadable_attempt(tries.push(last)) == Some(e),
        }),
{
    assert(tries.push(last).drop_last() =~= tries);
}

/// The columns that are written, in the order in which their values are handed over.
pub proof fn law_columns_are_written_in_order()
    ensures
        UPSERT_NODE@ == "INSERT INTO node (pubkey) VALUES ($1)
     ON CONFLICT (pubkey) DO UPDATE SET pubkey = EXCLUDED.pubkey
     RETURNING id"@,
        INSERT_PAYMENT_PROBE@ == "INSERT INTO payment_probe
        ( created_at
        , src_node_id
        , outgoing_short_channel_id
        , dst_node_id
        , amount_msat
        )
     VALUES
        ( $1
        , $2
        , $3
        , $4
        , $5
        )
     RETURNING id;"@,
        INSERT_PAYMENT_PROBE_ATTEMPT@ == "INSERT INTO payment_probe_attempt
        ( payment_probe_id
        , attempt_seqno
        , created_at
        , node_path_hash
        , channel_path_hash
        , fee_msat
        , latency_ns
        )
     VALUES
        ( $1, $2, $3, $4, $5, $6, $7 )"@,
        INSERT_PAYMENT_PROBE_HOP@ == "INSERT INTO payment_probe_hop
        ( payment_probe_id
        , attempt_seqno
        , hop_seqno
        , short_channel_id
        , node_id
        , fee_msat
        )
     VALUES
        ( $1, $2, $3, $4, $5, $6 )"@,
        INSERT_PAYMENT_PROBE_FAILURE@ == "INSERT INTO payment_probe_failure
        ( payment_probe_id
        , attempt_seqno
        , hop_seqno
        , failure_code
        )
     VALUES
        ( $1, $2, $3, $4 )"@,
{
}

} // verus!
