//! What the node tells of its channels and of the network's graph.
use vstd::prelude::*;

verus! {

/// A channel of the local node. Amounts are in satoshi.
#[derive(Debug)]
pub struct Channel {
    pub chan_id: u64,
    pub remote_pubkey: String,
    pub local_balance: i64,
    pub remote_balance: i64,
    pub local_chan_reserve_sat: i64,
    pub remote_chan_reserve_sat: i64,
}

impl Clone for Channel {
    fn clone(&self) -> (r: Channel)
        ensures
            r == *self,
    {
        Channel {
            chan_id: self.chan_id,
            remote_pubkey: self.remote_pubkey.clone(),
            local_balance: self.local_balance,
            remote_balance: self.remote_balance,
            local_chan_reserve_sat: self.local_chan_reserve_sat,
            remote_chan_reserve_sat: self.remote_chan_reserve_sat,
        }
    }
}

/// What a node asks for forwarding payments over a channel.
#[derive(Clone, Copy, Debug, PartialEq, Eq, Structural)]
pub struct RoutingPolicy {
    pub time_lock_delta: u32,
    pub fee_base_msat: i64,
    pub fee_rate_milli_msat: i64,
    pub max_htlc_msat: u64,
    /// When the policy was last changed, in seconds from the Unix epoch.
    pub last_update: u32,
    pub inbound_fee_base_msat: i32,
    pub inbound_fee_rate_milli_msat: i32,
}

/// A channel of the network's graph, with the policy of each of its two ends.
#[derive(Debug)]
pub struct ChannelEdge {
    /// The transaction that funds the channel and the output that does, with a
    /// colon between.
    pub chan_point: String,
    pub node1_pub: String,
    pub node2_pub: String,
    /// In satoshi.
    pub capacity: i64,
    pub node1_policy: Option<RoutingPolicy>,
    pub node2_policy: Option<RoutingPolicy>,
}

/// A node of the network's graph.
#[derive(Debug)]
pub struct LightningNode {
    pub pub_key: String,
    pub alias: String,
}

impl Clone for LightningNode {
    fn clone(&self) -> (r: LightningNode)
        ensures
            r == *self,
    {
        LightningNode { pub_key: self.pub_key.clone(), alias: self.alias.clone() }
    }
}

/// The network's graph.
#[derive(Debug)]
pub struct ChannelGraph {
    pub nodes: Vec<LightningNode>,
    pub edges: Vec<ChannelEdge>,
}

/// One channel of a route, and the node at its far end.
#[derive(Debug)]
pub struct Hop {
    pub chan_id: u64,
    pub fee_msat: i64,
    pub pub_key: String,
}

/// A way through the network.
#[derive(Debug)]
pub struct Route {
    pub hops: Vec<Hop>,
    pub total_fees_msat: i64,
}

/// What a node that refused a payment gave as its reason.
#[derive(Clone, Copy, Debug, PartialEq, Eq, Structural)]
pub enum FailureReason {
    /// The payment arrived at its destination, which knows nothing of it.
    IncorrectOrUnknownPaymentDetails,
    /// The payment did not arrive.
    Other,
}

/// The number under which a node reports that it knows nothing of a payment.
pub const INCORRECT_OR_UNKNOWN_PAYMENT_DETAILS: i32 = 1;

/// The reason that is reported under a number.
pub open spec fn reason_of(code: int) -> FailureReason {
    if code == INCORRECT_OR_UNKNOWN_PAYMENT_DETAILS {
        FailureReason::IncorrectOrUnknownPaymentDetails
    } else {
        FailureReason::Other
    }
}

/// Finds the reason that is reported under a number.
pub fn failure_reason(code: i32) -> (r: FailureReason)
    ensures
        r == reason_of(code as int),
{
    if code == INCORRECT_OR_UNKNOWN_PAYMENT_DETAILS {
        FailureReason::IncorrectOrUnknownPaymentDetails
    } else {
        FailureReason::Other
    }
}

/// The refusal of a payment.
#[derive(Clone, Copy, Debug, PartialEq, Eq, Structural)]
pub struct Failure {
    /// The number under which the reason is reported.
    pub code: i32,
    /// The position on the route of the node that refused.
    pub failure_source_index: u32,
}

/// The channel ID as the database keeps it, in a signed 64-bit column.
pub fn to_channel_id(channel_id: u64) -> (r: i64)
    ensures
        channel_id <= i64::MAX ==> r == channel_id,
        channel_id > i64::MAX ==> r == channel_id - 0x1_0000_0000_0000_0000,
        r == channel_id as i64,
{
    proof {
        lemma_channel_id(channel_id);
    }
    channel_id as i64
}

proof fn lemma_channel_id(id: u64)
    ensures
        id <= i64::MAX ==> (id as i64) == id,
        id > i64::MAX ==> (id as i64) == id - 0x1_0000_0000_0000_0000,
{
    assert(id <= 0x7fff_ffff_ffff_ffffu64 ==> (id as i64) == id) by (bit_vector);
    assert(id > 0x7fff_ffff_ffff_ffffu64 ==> (id as i64) == id - 0x1_0000_0000_0000_0000)
        by (bit_vector);
}

/// No two channels are kept under one ID.
pub proof fn law_channel_ids_stay_distinct(a: u64, b: u64)
    requires
        a as i64 == b as i64,
    ensures
        a == b,
{
    lemma_channel_id(a);
    lemma_channel_id(b);
}

/// The ID of a channel is kept as it is, up to the largest signed 64-bit number,
/// and read back as it was in any case.
pub proof fn law_channel_ids_are_kept(id: u64)
    ensures
        id <= i64::MAX ==> id as i64 == id,
        (id as i64) as u64 == id,
{
    lemma_channel_id(id);
    assert((id as i64) as u64 == id) by (bit_vector);
}

/// A payment has arrived exactly where it was refused under the number 1, whatever
/// the other numbers mean.
pub proof fn law_one_number_means_arrival(code: int)
    ensures
        reason_of(code) == FailureReason::IncorrectOrUnknownPaymentDetails <==> code == 1,
        reason_of(code) == FailureReason::Other <==> code != 1,
{
}

} // verus!
