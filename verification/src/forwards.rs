//! The node's history of forwarded payments, as the database keeps it.
use crate::time::{in_calendar, seconds, Timestamp};
use vstd::prelude::*;

verus! {

/// The span of the forwarding history that decisions rest on, in seconds: two
/// days, long enough to give a meaningful picture and short enough not to be
/// stale.
pub const FORWARDING_HISTORY_WINDOW: i64 = 172_800;

/// One payment that was forwarded, or that failed to be.
#[derive(Clone, Copy, Debug)]
pub struct ForwardRecord {
    pub incoming_channel_id: i64,
    pub outgoing_channel_id: i64,
    pub incoming_htlc_id: i64,
    pub outgoing_htlc_id: i64,
    pub created_at: Timestamp,
    pub finalized_at: Option<Timestamp>,
    pub incoming_amount_msat: i64,
    pub outgoing_amount_msat: i64,
    pub state: i16,
}

/// How many payments were forwarded over a channel, and of what size.
#[derive(Clone, Copy, Debug, PartialEq, Eq, Structural)]
pub struct ForwardCount {
    pub total_forwards_count: i64,
    pub successful_forwards_count: i64,
    pub avg_incoming_amount_msat: i64,
}

/// Lists the payments that came in over channel `$1` after `$2`.
pub const LIST_INCOMING_FORWARDS: &'static str =
    "SELECT incoming_channel_id, outgoing_channel_id, incoming_htlc_id,
            outgoing_htlc_id, created_at, finalized_at, incoming_amount_msat,
            outgoing_amount_msat, state
     FROM forward
     WHERE incoming_channel_id = $1 AND created_at > $2
     ORDER BY created_at DESC";

/// Lists the payments that went out over channel `$1` after `$2`.
pub const LIST_OUTGOING_FORWARDS: &'static str =
    "SELECT incoming_channel_id, outgoing_channel_id, incoming_htlc_id,
            outgoing_htlc_id, created_at, finalized_at, incoming_amount_msat,
            outgoing_amount_msat, state
     FROM forward
     WHERE outgoing_channel_id = $1 AND created_at > $2
     ORDER BY created_at DESC";

/// Counts the payments that came in over channel `$1` after `$2`.
pub const COUNT_INCOMING_FORWARDS: &'static str =
    "SELECT
        COUNT(*)                           AS total_forwards_count,
        COUNT(*) FILTER (WHERE state = 1)  AS successful_forwards_count,
        COALESCE(AVG(incoming_amount_msat)::bigint, 0) AS avg_incoming_amount_msat
     FROM forward
     WHERE incoming_channel_id = $1 AND created_at > $2";

/// Counts the payments that went out over channel `$1` after `$2`.
pub const COUNT_OUTGOING_FORWARDS: &'static str =
    "SELECT
        COUNT(*)                           AS total_forwards_count,
        COUNT(*) FILTER (WHERE state = 1)  AS successful_forwards_count,
        COALESCE(AVG(incoming_amount_msat)::bigint, 0) AS avg_incoming_amount_msat
     FROM forward
     WHERE outgoing_channel_id = $1 AND created_at > $2";

/// A question to the database about one channel's forwards after some time.
#[derive(Clone, Copy, Debug)]
pub struct ForwardQuery {
    pub sql: &'static str,
    pub channel_id: i64,
    pub after: Timestamp,
}

/// How a question about forwards is answered: at once, or by the database.
#[derive(Debug)]
pub enum ForwardLookup<T> {
    Known(T),
    Ask(ForwardQuery),
}

/// Asks for the forwards after some time, those that came in over the one
/// channel or, where it is not given, those that went out over the other. Where
/// neither is given there are none to ask for.
pub fn list_forwards(
    incoming_channel_id: Option<i64>,
    outgoing_channel_id: Option<i64>,
    after: Timestamp,
) -> (r: ForwardLookup<Vec<ForwardRecord>>)
    ensures
        match (incoming_channel_id, outgoing_channel_id) {
            (Some(id), _) => r == ForwardLookup::<Vec<ForwardRecord>>::Ask(
                ForwardQuery { sql: LIST_INCOMING_FORWARDS, channel_id: id, after },
            ),
            (None, Some(id)) => r == ForwardLookup::<Vec<ForwardRecord>>::Ask(
                ForwardQuery { sql: LIST_OUTGOING_FORWARDS, channel_id: id, after },
            ),
            (None, None) => r matches ForwardLookup::Known(forwards) && forwards@.len() == 0,
        },
{
    if let Some(channel_id) = incoming_channel_id {
        ForwardLookup::Ask(ForwardQuery { sql: LIST_INCOMING_FORWARDS, channel_id, after })
    } else if let Some(channel_id) = outgoing_channel_id {
        ForwardLookup::Ask(ForwardQuery { sql: LIST_OUTGOING_FORWARDS, channel_id, after })
    } else {
        ForwardLookup::Known(Vec::new())
    }
}

/// Asks how many forwards there were after some time, over the one channel
/// inwards or, where it is not given, over the other outwards. Where neither is
/// given there were none.
pub fn count_forwards(
    incoming_channel_id: Option<i64>,
    outgoing_channel_id: Option<i64>,
    after: Timestamp,
) -> (r: ForwardLookup<ForwardCount>)
    ensures
        r == match (incoming_channel_id, outgoing_channel_id) {
            (Some(id), _) => ForwardLookup::Ask(
                ForwardQuery { sql: COUNT_INCOMING_FORWARDS, channel_id: id, after },
            ),
            (None, Some(id)) => ForwardLookup::Ask(
                ForwardQuery { sql: COUNT_OUTGOING_FORWARDS, channel_id: id, after },
            ),
            (None, None) => ForwardLookup::Known(
                ForwardCount {
                    total_forwards_count: 0,
                    successful_forwards_count: 0,
                    avg_incoming_amount_msat: 0,
                },
            ),
        },
{
    if let Some(channel_id) = incoming_channel_id {
        ForwardLookup::Ask(ForwardQuery { sql: COUNT_INCOMING_FORWARDS, channel_id, after })
    } else if let Some(channel_id) = outgoing_channel_id {
        ForwardLookup::Ask(ForwardQuery { sql: COUNT_OUTGOING_FORWARDS, channel_id, after })
    } else {
        ForwardLookup::Known(
            ForwardCount {
                total_forwards_count: 0,
                successful_forwards_count: 0,
                avg_incoming_amount_msat: 0,
            },
        )
    }
}

/// The time from which on the forwarding history counts.
pub fn forwarding_window_start(now: &Timestamp) -> (r: Timestamp)
    requires
        in_calendar(now@ - seconds(FORWARDING_HISTORY_WINDOW as int)),
    ensures
        r@ == now@ - seconds(FORWARDING_HISTORY_WINDOW as int),
{
    now.plus_seconds(-FORWARDING_HISTORY_WINDOW)
}

/// Whether `query` counts the forwards that came in over a channel in the
/// forwarding history before `now`.
pub open spec fn counts_incoming(query: ForwardQuery, channel_id: i64, now: int) -> bool {
    &&& query.sql == COUNT_INCOMING_FORWARDS
    &&& query.channel_id == channel_id
    &&& query.after@ == now - seconds(FORWARDING_HISTORY_WINDOW as int)
}

/// Whether `query` counts the forwards that went out over a channel in the
/// forwarding history before `now`.
pub open spec fn counts_outgoing(query: ForwardQuery, channel_id: i64, now: int) -> bool {
    &&& query.sql == COUNT_OUTGOING_FORWARDS
    &&& query.channel_id == channel_id
    &&& query.after@ == now - seconds(FORWARDING_HISTORY_WINDOW as int)
}

/// Asks how many forwards came in over a channel in the forwarding history before
/// `now`.
pub fn count_incoming_in_window(channel_id: i64, now: &Timestamp) -> (r: ForwardQuery)
    requires
        in_calendar(now@ - seconds(FORWARDING_HISTORY_WINDOW as int)),
    ensures
        counts_incoming(r, channel_id, now@),
{
    ForwardQuery { sql: COUNT_INCOMING_FORWARDS, channel_id, after: forwarding_window_start(now) }
}

/// Asks how many forwards went out over a channel in the forwarding history before
/// `now`.
pub fn count_outgoing_in_window(channel_id: i64, now: &Timestamp) -> (r: ForwardQuery)
    requires
        in_calendar(now@ - seconds(FORWARDING_HISTORY_WINDOW as int)),
    ensures
        counts_outgoing(r, channel_id, now@),
{
    ForwardQuery { sql: COUNT_OUTGOING_FORWARDS, channel_id, after: forwarding_window_start(now) }
}

/// The forwards of the last 172,800 seconds are counted, those that came in and
/// those that went out by questions of their own, each about the channel that is
/// asked about.
pub proof fn law_two_days_are_counted(query: ForwardQuery, channel_id: i64, now: int)
    ensures
        counts_incoming(query, channel_id, now) <==> query.sql == COUNT_INCOMING_FORWARDS
            && query.channel_id == channel_id && query.after@ == now - 172_800_000_000_000,
        counts_outgoing(query, channel_id, now) <==> query.sql == COUNT_OUTGOING_FORWARDS
            && query.channel_id == channel_id && query.after@ == now - 172_800_000_000_000,
{
}

/// The forwards that came in and those that went out are counted alike: the two
/// questions differ only in which of the channels of a forward is meant.
pub proof fn law_directions_are_counted_alike()
    ensures
        COUNT_INCOMING_FORWARDS@ == "SELECT
        COUNT(*)                           AS total_forwards_count,
        COUNT(*) FILTER (WHERE state = 1)  AS successful_forwards_count,
        COALESCE(AVG(incoming_amount_msat)::bigint, 0) AS avg_incoming_amount_msat
     FROM forward
     WHERE "@ + "incoming_channel_id"@ + " = $1 AND created_at > $2"@,
        COUNT_OUTGOING_FORWARDS@ == "SELECT
        COUNT(*)                           AS total_forwards_count,
        COUNT(*) FILTER (WHERE state = 1)  AS successful_forwards_count,
        COALESCE(AVG(incoming_amount_msat)::bigint, 0) AS avg_incoming_amount_msat
     FROM forward
     WHERE "@ + "outgoing_channel_id"@ + " = $1 AND created_at > $2"@,
{
    reveal_strlit(
        "SELECT
        COUNT(*)                           AS total_forwards_count,
        COUNT(*) FILTER (WHERE state = 1)  AS successful_forwards_count,
        COALESCE(AVG(incoming_amount_msat)::bigint, 0) AS avg_incoming_amount_msat
     FROM forward
     WHERE ",
    );
    reveal_strlit(
        " = $1 AND created_at > $2",
    );
    reveal_strlit("incoming_channel_id");
    reveal_strlit(
        "SELECT
        COUNT(*)                           AS total_forwards_count,
        COUNT(*) FILTER (WHERE state = 1)  AS successful_forwards_count,
        COALESCE(AVG(incoming_amount_msat)::bigint, 0) AS avg_incoming_amount_msat
     FROM forward
     WHERE incoming_channel_id = $1 AND created_at > $2",
    );
    assert(COUNT_INCOMING_FORWARDS@ =~= "SELECT
        COUNT(*)                           AS total_forwards_count,
        COUNT(*) FILTER (WHERE state = 1)  AS successful_forwards_count,
        COALESCE(AVG(incoming_amount_msat)::bigint, 0) AS avg_incoming_amount_msat
     FROM forward
     WHERE "@ + "incoming_channel_id"@ + " = $1 AND created_at > $2"@);
    reveal_strlit("outgoing_channel_id");
    reveal_strlit(
        "SELECT
        COUNT(*)                           AS total_forwards_count,
        COUNT(*) FILTER (WHERE state = 1)  AS successful_forwards_count,
        COALESCE(AVG(incoming_amount_msat)::bigint, 0) AS avg_incoming_amount_msat
     FROM forward
     WHERE outgoing_channel_id = $1 AND created_at > $2",
    );
    assert(COUNT_OUTGOING_FORWARDS@ =~= "SELECT
        COUNT(*)                           AS total_forwards_count,
        COUNT(*) FILTER (WHERE state = 1)  AS successful_forwards_count,
        COALESCE(AVG(incoming_amount_msat)::bigint, 0) AS avg_incoming_amount_msat
     FROM forward
     WHERE "@ + "outgoing_channel_id"@ + " = $1 AND created_at > $2"@);
}

/// The forwards that came in and those that went out are listed alike, the latest
/// first.
pub proof fn law_directions_are_listed_alike()
    ensures
        LIST_INCOMING_FORWARDS@ == "SELECT incoming_channel_id, outgoing_channel_id, incoming_htlc_id,
            outgoing_htlc_id, created_at, finalized_at, incoming_amount_msat,
            outgoing_amount_msat, state
     FROM forward
     WHERE "@ + "incoming_channel_id"@ + " = $1 AND created_at > $2
     ORDER BY created_at DESC"@,
        LIST_OUTGOING_FORWARDS@ == "SELECT incoming_channel_id, outgoing_channel_id, incoming_htlc_id,
            outgoing_htlc_id, created_at, finalized_at, incoming_amount_msat,
            outgoing_amount_msat, state
     FROM forward
     WHERE "@ + "outgoing_channel_id"@ + " = $1 AND created_at > $2
     ORDER BY created_at DESC"@,
{
    reveal_strlit(
        "SELECT incoming_channel_id, outgoing_channel_id, incoming_htlc_id,
            outgoing_htlc_id, created_at, finalized_at, incoming_amount_msat,
            outgoing_amount_msat, state
     FROM forward
     WHERE ",
    );
    reveal_strlit(
        " = $1 AND created_at > $2
     ORDER BY created_at DESC",
    );
    reveal_strlit("incoming_channel_id");
    reveal_strlit(
        "SELECT incoming_channel_id, outgoing_channel_id, incoming_htlc_id,
            outgoing_htlc_id, created_at, finalized_at, incoming_amount_msat,
            outgoing_amount_msat, state
     FROM forward
     WHERE incoming_channel_id = $1 AND created_at > $2
     ORDER BY created_at DESC",
    );
    assert(LIST_INCOMING_FORWARDS@ =~= "SELECT incoming_channel_id, outgoing_channel_id, incoming_htlc_id,
            outgoing_htlc_id, created_at, finalized_at, incoming_amount_msat,
            outgoing_amount_msat, state
     FROM forward
     WHERE "@ + "incoming_channel_id"@ + " = $1 AND created_at > $2
     ORDER BY created_at DESC"@);
    reveal_strlit("outgoing_channel_id");
    reveal_strlit(
        "SELECT incoming_channel_id, outgoing_channel_id, incoming_htlc_id,
            outgoing_htlc_id, created_at, finalized_at, incoming_amount_msat,
            outgoing_amount_msat, state
     FROM forward
     WHERE outgoing_channel_id = $1 AND created_at > $2
     ORDER BY created_at DESC",
    );
    assert(LIST_OUTGOING_FORWARDS@ =~= "SELECT incoming_channel_id, outgoing_channel_id, incoming_htlc_id,
            outgoing_htlc_id, created_at, finalized_at, incoming_amount_msat,
            outgoing_amount_msat, state
     FROM forward
     WHERE "@ + "outgoing_channel_id"@ + " = $1 AND created_at > $2
     ORDER BY created_at DESC"@);
}

} // verus!
