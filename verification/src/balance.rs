//! How the liquidity of a channel is spread over its two ends.
use crate::forwards::{
    count_incoming_in_window, count_outgoing_in_window, counts_incoming, counts_outgoing,
    ForwardCount, ForwardQuery, FORWARDING_HISTORY_WINDOW,
};
use crate::network::{to_channel_id, Channel};
use crate::time::{in_calendar, seconds, Timestamp};
use vstd::prelude::*;

verus! {

/// Where a channel's liquidity lies.
#[derive(Clone, Copy, Debug, PartialEq, Eq, Structural)]
pub enum ChannelBalanceCategory {
    DepletedOutgoingLiquidity,
    MinimalOutgoingLiquidity,
    ModerateOutgoingLiquidity,
    BalancedLiquidity,
    ModerateIncomingLiquidity,
    MinimalIncomingLiquidity,
    DepletedIncomingLiquidity,
}

/// The name of a category.
pub open spec fn category_name(category: ChannelBalanceCategory) -> Seq<char> {
    match category {
        ChannelBalanceCategory::DepletedOutgoingLiquidity => "DepletedOutgoingLiquidity"@,
        ChannelBalanceCategory::MinimalOutgoingLiquidity => "MinimalOutgoingLiquidity"@,
        ChannelBalanceCategory::ModerateOutgoingLiquidity => "ModerateOutgoingLiquidity"@,
        ChannelBalanceCategory::BalancedLiquidity => "BalancedLiquidity"@,
        ChannelBalanceCategory::ModerateIncomingLiquidity => "ModerateIncomingLiquidity"@,
        ChannelBalanceCategory::MinimalIncomingLiquidity => "MinimalIncomingLiquidity"@,
        ChannelBalanceCategory::DepletedIncomingLiquidity => "DepletedIncomingLiquidity"@,
    }
}

impl ChannelBalanceCategory {
    /// The name of the category.
    pub fn name(&self) -> (r: &'static str)
        ensures
            r@ == category_name(*self),
    {
        match self {
            ChannelBalanceCategory::DepletedOutgoingLiquidity => "DepletedOutgoingLiquidity",
            ChannelBalanceCategory::MinimalOutgoingLiquidity => "MinimalOutgoingLiquidity",
            ChannelBalanceCategory::ModerateOutgoingLiquidity => "ModerateOutgoingLiquidity",
            ChannelBalanceCategory::BalancedLiquidity => "BalancedLiquidity",
            ChannelBalanceCategory::ModerateIncomingLiquidity => "ModerateIncomingLiquidity",
            ChannelBalanceCategory::MinimalIncomingLiquidity => "MinimalIncomingLiquidity",
            ChannelBalanceCategory::DepletedIncomingLiquidity => "DepletedIncomingLiquidity",
        }
    }
}

/// A channel and where its liquidity lies.
#[derive(Clone, Debug)]
pub struct ChannelBalanceInfo {
    pub channel: Channel,
    pub channel_balance_category: ChannelBalanceCategory,
}

/// What has become known of a channel that is being categorised.
#[derive(Clone, Copy, Debug, PartialEq, Eq, Structural)]
pub enum BalanceEvent {
    /// Nothing but the channel itself.
    Start,
    /// The forwards that went out over it.
    OutgoingForwards(ForwardCount),
    /// The forwards that came in over it.
    IncomingForwards(ForwardCount),
    /// The balance, in satoshi, from which on an end has more than moderate
    /// liquidity: a fifth of the channel's capacity.
    ModerateThreshold(i64),
}

/// What has to be found out next, or the category.
#[derive(Debug)]
pub enum BalanceStep {
    /// Count the forwards that went out over the channel.
    CountOutgoingForwards { channel_id: i64 },
    /// Count the forwards that came in over the channel.
    CountIncomingForwards { channel_id: i64 },
    /// Look up the capacity of the channel.
    ReadCapacity { chan_id: u64 },
    /// The channel is categorised.
    Done(ChannelBalanceInfo),
}

/// The balance under which an end has minimal liquidity, from the reserve that it
/// has to keep and the average size of the forwards that it has to serve.
pub open spec fn minimal_threshold(reserve: int, forwards: ForwardCount) -> int {
    reserve + 2 * 1000 * forwards.avg_incoming_amount_msat
}

/// Whether `minimal_threshold` can be computed in 64 bits.
pub open spec fn threshold_fits(reserve: int, forwards: ForwardCount) -> bool {
    &&& i64::MIN <= 2 * 1000 * forwards.avg_incoming_amount_msat <= i64::MAX
    &&& i64::MIN <= minimal_threshold(reserve, forwards) <= i64::MAX
}

/// The category of a channel, from the forwards over it and from the balance that
/// is more than moderate.
pub open spec fn balance_category(
    channel: Channel,
    outgoing: ForwardCount,
    incoming: ForwardCount,
    moderate: int,
) -> ChannelBalanceCategory {
    if channel.local_balance < channel.local_chan_reserve_sat {
        ChannelBalanceCategory::DepletedOutgoingLiquidity
    } else if channel.remote_balance < channel.remote_chan_reserve_sat {
        ChannelBalanceCategory::DepletedIncomingLiquidity
    } else if channel.local_balance < minimal_threshold(
        channel.local_chan_reserve_sat as int,
        outgoing,
    ) {
        ChannelBalanceCategory::MinimalOutgoingLiquidity
    } else if channel.remote_balance < minimal_threshold(
        channel.remote_chan_reserve_sat as int,
        incoming,
    ) {
        ChannelBalanceCategory::MinimalIncomingLiquidity
    } else if channel.local_balance < moderate {
        ChannelBalanceCategory::ModerateOutgoingLiquidity
    } else if channel.remote_balance < moderate {
        ChannelBalanceCategory::ModerateIncomingLiquidity
    } else {
        ChannelBalanceCategory::BalancedLiquidity
    }
}

/// A channel with its category found.
pub open spec fn categorised(channel: Channel, category: ChannelBalanceCategory) -> BalanceStep {
    BalanceStep::Done(ChannelBalanceInfo { channel, channel_balance_category: category })
}

/// What follows from what has become known last.
pub open spec fn balance_step(channel: Channel, event: BalanceEvent) -> BalanceStep {
    match event {
        BalanceEvent::Start => if channel.local_balance < channel.local_chan_reserve_sat {
            categorised(channel, ChannelBalanceCategory::DepletedOutgoingLiquidity)
        } else if channel.remote_balance < channel.remote_chan_reserve_sat {
            categorised(channel, ChannelBalanceCategory::DepletedIncomingLiquidity)
        } else {
            BalanceStep::CountOutgoingForwards { channel_id: channel.chan_id as i64 }
        },
        BalanceEvent::OutgoingForwards(forwards) => if channel.local_balance < minimal_threshold(
            channel.local_chan_reserve_sat as int,
            forwards,
        ) {
            categorised(channel, ChannelBalanceCategory::MinimalOutgoingLiquidity)
        } else {
            BalanceStep::CountIncomingForwards { channel_id: channel.chan_id as i64 }
        },
        BalanceEvent::IncomingForwards(forwards) => if channel.remote_balance < minimal_threshold(
            channel.remote_chan_reserve_sat as int,
            forwards,
        ) {
            categorised(channel, ChannelBalanceCategory::MinimalIncomingLiquidity)
        } else {
            BalanceStep::ReadCapacity { chan_id: channel.chan_id }
        },
        BalanceEvent::ModerateThreshold(moderate) => if channel.local_balance < moderate {
            categorised(channel, ChannelBalanceCategory::ModerateOutgoingLiquidity)
        } else if channel.remote_balance < moderate {
            categorised(channel, ChannelBalanceCategory::ModerateIncomingLiquidity)
        } else {
            categorised(channel, ChannelBalanceCategory::BalancedLiquidity)
        },
    }
}

/// Categorises a channel, one step at a time: the database and the node are asked
/// only for what the category still rests on.
pub fn get_channel_balance_info(channel: &Channel, event: BalanceEvent) -> (r: BalanceStep)
    requires
        event matches BalanceEvent::OutgoingForwards(forwards) ==> threshold_fits(
            channel.local_chan_reserve_sat as int,
            forwards,
        ),
        event matches BalanceEvent::IncomingForwards(forwards) ==> threshold_fits(
            channel.remote_chan_reserve_sat as int,
            forwards,
        ),
    ensures
        r == balance_step(*channel, event),
{
    let category = match event {
        BalanceEvent::Start => {
            if channel.local_balance < channel.local_chan_reserve_sat {
                ChannelBalanceCategory::DepletedOutgoingLiquidity
            } else if channel.remote_balance < channel.remote_chan_reserve_sat {
                ChannelBalanceCategory::DepletedIncomingLiquidity
            } else {
                return BalanceStep::CountOutgoingForwards {
                    channel_id: to_channel_id(channel.chan_id),
                };
            }
        },
        BalanceEvent::OutgoingForwards(forwards) => {
            let average: i64 = forwards.avg_incoming_amount_msat;
            if channel.local_balance < channel.local_chan_reserve_sat + 2 * 1000 * average {
                ChannelBalanceCategory::MinimalOutgoingLiquidity
            } else {
                return BalanceStep::CountIncomingForwards {
                    channel_id: to_channel_id(channel.chan_id),
                };
            }
        },
        BalanceEvent::IncomingForwards(forwards) => {
            let average: i64 = forwards.avg_incoming_amount_msat;
            if channel.remote_balance < channel.remote_chan_reserve_sat + 2 * 1000 * average {
                ChannelBalanceCategory::MinimalIncomingLiquidity
            } else {
                return BalanceStep::ReadCapacity { chan_id: channel.chan_id };
            }
        },
        BalanceEvent::ModerateThreshold(moderate) => {
            if channel.local_balance < moderate {
                ChannelBalanceCategory::ModerateOutgoingLiquidity
            } else if channel.remote_balance < moderate {
                ChannelBalanceCategory::ModerateIncomingLiquidity
            } else {
                ChannelBalanceCategory::BalancedLiquidity
            }
        },
    };
    BalanceStep::Done(
        ChannelBalanceInfo { channel: channel.clone(), channel_balance_category: category },
    )
}

/// The question about forwards that a step asks, if it asks one: those of the
/// forwarding history before `now`.
pub fn balance_question(step: &BalanceStep, now: &Timestamp) -> (r: Option<ForwardQuery>)
    requires
        in_calendar(now@ - seconds(FORWARDING_HISTORY_WINDOW as int)),
    ensures
        match step {
            BalanceStep::CountOutgoingForwards { channel_id } => r matches Some(query)
                && counts_outgoing(query, *channel_id, now@),
            BalanceStep::CountIncomingForwards { channel_id } => r matches Some(query)
                && counts_incoming(query, *channel_id, now@),
            _ => r is None,
        },
{
    match step {
        BalanceStep::CountOutgoingForwards { channel_id } => Some(
            count_outgoing_in_window(*channel_id, now),
        ),
        BalanceStep::CountIncomingForwards { channel_id } => Some(
            count_incoming_in_window(*channel_id, now),
        ),
        _ => None,
    }
}

/// What the steps come to when each question is answered in turn.
pub open spec fn all_steps(
    channel: Channel,
    outgoing: ForwardCount,
    incoming: ForwardCount,
    moderate: i64,
) -> BalanceStep {
    let first = balance_step(channel, BalanceEvent::Start);
    let second = if first is CountOutgoingForwards {
        balance_step(channel, BalanceEvent::OutgoingForwards(outgoing))
    } else {
        first
    };
    let third = if second is CountIncomingForwards {
        balance_step(channel, BalanceEvent::IncomingForwards(incoming))
    } else {
        second
    };
    if third is ReadCapacity {
        balance_step(channel, BalanceEvent::ModerateThreshold(moderate))
    } else {
        third
    }
}

/// However early the steps end, they end with the category that all the answers
/// together give.
pub proof fn law_steps_end_in_category(
    channel: Channel,
    outgoing: ForwardCount,
    incoming: ForwardCount,
    moderate: i64,
)
    ensures
        all_steps(channel, outgoing, incoming, moderate) == categorised(
            channel,
            balance_category(channel, outgoing, incoming, moderate as int),
        ),
{
}

/// An end is reported as depleted exactly where its balance is under the reserve
/// that it has to keep; where both are, the local end is reported.
pub proof fn law_depleted_means_under_reserve(
    channel: Channel,
    outgoing: ForwardCount,
    incoming: ForwardCount,
    moderate: int,
)
    ensures
        balance_category(channel, outgoing, incoming, moderate)
            == ChannelBalanceCategory::DepletedOutgoingLiquidity <==> channel.local_balance
            < channel.local_chan_reserve_sat,
        balance_category(channel, outgoing, incoming, moderate)
            == ChannelBalanceCategory::DepletedIncomingLiquidity <==> (channel.local_balance
            >= channel.local_chan_reserve_sat && channel.remote_balance
            < channel.remote_chan_reserve_sat),
{
}

/// Whether an end of a channel of the given size has liquidity to speak of.
pub open spec fn has_liquidity(balance: int, total_balance: int) -> bool {
    if total_balance <= 800_000 {
        balance >= 100_000
    } else {
        balance >= 300_000
    }
}

/// Whether the local end has liquidity to forward payments outwards.
pub fn has_outbound_liquidity(local_balance: i64, total_balance: i64) -> (r: bool)
    ensures
        r == has_liquidity(local_balance as int, total_balance as int),
{
    !(total_balance <= 800_000 && local_balance < 100_000 || total_balance > 800_000
        && local_balance < 300_000)
}

/// Whether the remote end has liquidity to forward payments inwards.
pub fn has_inbound_liquidity(remote_balance: i64, total_balance: i64) -> (r: bool)
    ensures
        r == has_liquidity(remote_balance as int, total_balance as int),
{
    !(total_balance <= 800_000 && remote_balance < 100_000 || total_balance > 800_000
        && remote_balance < 300_000)
}

/// In a channel of a given size, an end does not lose its liquidity when its
/// balance grows.
pub proof fn law_more_balance_keeps_liquidity(balance: int, more: int, total_balance: int)
    requires
        has_liquidity(balance, total_balance),
        balance <= more,
    ensures
        has_liquidity(more, total_balance),
{
}

/// An end of a channel of up to 800,000 satoshi has liquidity from 100,000 satoshi
/// on, an end of a larger one from 300,000 on.
pub proof fn law_liquidity_starts_at_a_mark(balance: int, total_balance: int)
    ensures
        total_balance <= 800_000 ==> (has_liquidity(balance, total_balance) <==> balance
            >= 100_000),
        total_balance > 800_000 ==> (has_liquidity(balance, total_balance) <==> balance
            >= 300_000),
{
}

/// Each category but the depleted ones means that both ends hold their reserves,
/// and that one mark is missed and none before it: first those of room for two
/// thousand average forwards above the reserve, the local end before the remote
/// end, then those of more than moderate liquidity, in the same order. The liquidity
/// is balanced where no mark is missed.
pub proof fn law_categories_tell_which_mark_is_missed(
    channel: Channel,
    outgoing: ForwardCount,
    incoming: ForwardCount,
    moderate: int,
)
    requires
        channel.local_balance >= channel.local_chan_reserve_sat,
        channel.remote_balance >= channel.remote_chan_reserve_sat,
    ensures
        ({
            let category = balance_category(channel, outgoing, incoming, moderate);
            let local_room = channel.local_balance - channel.local_chan_reserve_sat;
            let remote_room = channel.remote_balance - channel.remote_chan_reserve_sat;
            let local_served = local_room >= 2000 * outgoing.avg_incoming_amount_msat;
            let remote_served = remote_room >= 2000 * incoming.avg_incoming_amount_msat;
            &&& category == ChannelBalanceCategory::MinimalOutgoingLiquidity <==> !local_served
            &&& category == ChannelBalanceCategory::MinimalIncomingLiquidity <==> local_served
                && !remote_served
            &&& category == ChannelBalanceCategory::ModerateOutgoingLiquidity <==> local_served
                && remote_served && channel.local_balance < moderate
            &&& category == ChannelBalanceCategory::ModerateIncomingLiquidity <==> local_served
                && remote_served && channel.local_balance >= moderate && channel.remote_balance
                < moderate
            &&& category == ChannelBalanceCategory::BalancedLiquidity <==> local_served
                && remote_served && channel.local_balance >= moderate && channel.remote_balance
                >= moderate
        }),
{
}

/// A channel that is categorised is the one that was asked about, and so is the one
/// that each question names. What is asked next rests on what is not decided yet:
/// the outgoing forwards where both ends hold their reserves, then the incoming
/// ones, then the capacity.
pub proof fn law_questions_name_the_channel(
    channel: Channel,
    outgoing: ForwardCount,
    incoming: ForwardCount,
    moderate: i64,
)
    ensures
        match balance_step(channel, BalanceEvent::Start) {
            BalanceStep::CountOutgoingForwards { channel_id } => channel_id
                == channel.chan_id as i64 && channel.local_balance >= channel.local_chan_reserve_sat
                && channel.remote_balance >= channel.remote_chan_reserve_sat,
            BalanceStep::Done(info) => info.channel == channel && (channel.local_balance
                < channel.local_chan_reserve_sat || channel.remote_balance
                < channel.remote_chan_reserve_sat),
            _ => false,
        },
        match balance_step(channel, BalanceEvent::OutgoingForwards(outgoing)) {
            BalanceStep::CountIncomingForwards { channel_id } => channel_id
                == channel.chan_id as i64 && channel.local_balance >= channel.local_chan_reserve_sat
                + 2000 * outgoing.avg_incoming_amount_msat,
            BalanceStep::Done(info) => info == (ChannelBalanceInfo {
                channel,
                channel_balance_category: ChannelBalanceCategory::MinimalOutgoingLiquidity,
            }) && channel.local_balance < channel.local_chan_reserve_sat + 2000
                * outgoing.avg_incoming_amount_msat,
            _ => false,
        },
        match balance_step(channel, BalanceEvent::IncomingForwards(incoming)) {
            BalanceStep::ReadCapacity { chan_id } => chan_id == channel.chan_id
                && channel.remote_balance >= channel.remote_chan_reserve_sat + 2000
                * incoming.avg_incoming_amount_msat,
            BalanceStep::Done(info) => info == (ChannelBalanceInfo {
                channel,
                channel_balance_category: ChannelBalanceCategory::MinimalIncomingLiquidity,
            }) && channel.remote_balance < channel.remote_chan_reserve_sat + 2000
                * incoming.avg_incoming_amount_msat,
            _ => false,
        },
        balance_step(channel, BalanceEvent::ModerateThreshold(moderate)) matches BalanceStep::Done(
            info,
        ) && info.channel == channel,
{
}

} // verus!
