//! What is asked about a channel before its policy is decided on, and where the
//! answers go.
use crate::balance::ChannelBalanceCategory;
use crate::encoding::{hex_decoded, HexError};
use crate::forwards::{
    count_incoming_in_window, count_outgoing_in_window, counts_incoming, counts_outgoing,
    ForwardCount, ForwardQuery, COUNT_INCOMING_FORWARDS, COUNT_OUTGOING_FORWARDS,
    FORWARDING_HISTORY_WINDOW,
};
use crate::network::{to_channel_id, Channel, ChannelEdge, RoutingPolicy};
use crate::policy::{local_policy, local_policy_of, ChannelObservation, EdgePolicyHistoryRecord};
use crate::storage::{
    get_last_edge_policy_change, last_edge_policy_change, last_policy_change_sql,
    PolicyHistoryQuery, INCOMING_FEE_RATE_COLUMN, OUTGOING_FEE_RATE_COLUMN,
};
use crate::time::{in_calendar, seconds, Timestamp};
use vstd::prelude::*;
use vstd::utf8::*;

verus! {

/// How far the inquiry has come, and what it has brought so far.
#[derive(Debug)]
pub enum InquiryPhase {
    /// The channel is to be looked up in the network's graph.
    ChanInfo,
    /// The forwards that came in are to be counted.
    IncomingForwards { edge: ChannelEdge, local: RoutingPolicy, now: Timestamp },
    /// The forwards that went out are to be counted.
    OutgoingForwards {
        edge: ChannelEdge,
        local: RoutingPolicy,
        now: Timestamp,
        incoming: ForwardCount,
    },
    /// The channel is to be categorised.
    Balance {
        edge: ChannelEdge,
        local: RoutingPolicy,
        incoming: ForwardCount,
        outgoing: ForwardCount,
    },
    /// The last change of the outgoing fee rate is to be looked up.
    LastOutbound {
        edge: ChannelEdge,
        local: RoutingPolicy,
        incoming: ForwardCount,
        outgoing: ForwardCount,
        category: ChannelBalanceCategory,
    },
    /// The last change of the incoming fee rate is to be looked up.
    LastInbound {
        edge: ChannelEdge,
        local: RoutingPolicy,
        incoming: ForwardCount,
        outgoing: ForwardCount,
        category: ChannelBalanceCategory,
        last_outbound: Option<EdgePolicyHistoryRecord>,
    },
    /// Everything is known.
    Complete { edge: ChannelEdge, local: RoutingPolicy, seen: ChannelObservation },
    /// The channel is not known, or the local node has no policy on it: there is
    /// nothing to change.
    NothingToChange,
    /// An answer could not be had.
    Failed,
}

/// What is asked next.
#[derive(Debug)]
pub enum InquiryQuestion {
    /// What the network's graph tells of the channel.
    ChanInfo { chan_id: u64 },
    /// How many payments were forwarded.
    Forwards(ForwardQuery),
    /// Where the channel's liquidity lies.
    Balance,
    /// When the policy changed last.
    LastChange(PolicyHistoryQuery),
    /// Nothing more.
    Nothing,
}

/// The answer to a question.
#[derive(Debug)]
pub enum InquiryAnswer {
    /// What the network's graph tells, if the node knows the channel, and the time
    /// when it did.
    ChanInfo { edge: Option<ChannelEdge>, now: Timestamp },
    /// How many payments were forwarded.
    Forwards(ForwardCount),
    /// Where the channel's liquidity lies.
    Balance(ChannelBalanceCategory),
    /// The rows that the database gave for the last change.
    LastChange(Vec<EdgePolicyHistoryRecord>),
    /// The answer could not be had.
    Failed,
}

/// The last change, from the rows that the database gave.
pub open spec fn last_of(rows: Seq<EdgePolicyHistoryRecord>) -> Option<EdgePolicyHistoryRecord> {
    if rows.len() > 0 {
        Some(rows[0])
    } else {
        None
    }
}

/// What an answer makes of an inquiry.
pub open spec fn inquiry_next(
    identity: Seq<char>,
    channel: Channel,
    phase: InquiryPhase,
    answer: InquiryAnswer,
) -> InquiryPhase {
    match (phase, answer) {
        (InquiryPhase::ChanInfo, InquiryAnswer::ChanInfo { edge: Some(edge), now }) => {
            match local_policy_of(edge, identity) {
                Some(local) => InquiryPhase::IncomingForwards { edge, local, now },
                None => InquiryPhase::NothingToChange,
            }
        },
        (InquiryPhase::ChanInfo, InquiryAnswer::ChanInfo { edge: None, .. }) => {
            InquiryPhase::NothingToChange
        },
        (
            InquiryPhase::IncomingForwards { edge, local, now },
            InquiryAnswer::Forwards(incoming),
        ) => InquiryPhase::OutgoingForwards { edge, local, now, incoming },
        (
            InquiryPhase::OutgoingForwards { edge, local, incoming, .. },
            InquiryAnswer::Forwards(outgoing),
        ) => InquiryPhase::Balance { edge, local, incoming, outgoing },
        (
            InquiryPhase::Balance { edge, local, incoming, outgoing },
            InquiryAnswer::Balance(category),
        ) => InquiryPhase::LastOutbound { edge, local, incoming, outgoing, category },
        (
            InquiryPhase::LastOutbound { edge, local, incoming, outgoing, category },
            InquiryAnswer::LastChange(rows),
        ) => InquiryPhase::LastInbound {
            edge,
            local,
            incoming,
            outgoing,
            category,
            last_outbound: last_of(rows@),
        },
        (
            InquiryPhase::LastInbound { edge, local, incoming, outgoing, category, last_outbound },
            InquiryAnswer::LastChange(rows),
        ) => InquiryPhase::Complete {
            edge,
            local,
            seen: ChannelObservation {
                channel,
                channel_balance_category: category,
                incoming_forwards: incoming,
                outgoing_forwards: outgoing,
                last_outbound_policy: last_outbound,
                last_inbound_policy: last_of(rows@),
            },
        },
        (InquiryPhase::Complete { .. }, _) => phase,
        (InquiryPhase::NothingToChange, _) => phase,
        (InquiryPhase::Failed, _) => phase,
        (InquiryPhase::ChanInfo, InquiryAnswer::Failed) => InquiryPhase::NothingToChange,
        (_, InquiryAnswer::Failed) => InquiryPhase::Failed,
        _ => phase,
    }
}

/// Takes an inquiry on by an answer. A channel that cannot be looked up calls for
/// no change; any other answer that cannot be had ends the inquiry. An answer to
/// another question than the one that is asked changes nothing.
pub fn take_answer(
    identity: &String,
    channel: &Channel,
    phase: InquiryPhase,
    answer: InquiryAnswer,
) -> (r: InquiryPhase)
    ensures
        r == inquiry_next(identity@, *channel, phase, answer),
{
    match (phase, answer) {
        (InquiryPhase::ChanInfo, InquiryAnswer::ChanInfo { edge: Some(edge), now }) => {
            match local_policy(&edge, identity) {
                Some(local) => InquiryPhase::IncomingForwards { edge, local, now },
                None => InquiryPhase::NothingToChange,
            }
        },
        (InquiryPhase::ChanInfo, InquiryAnswer::ChanInfo { edge: None, .. }) => {
            InquiryPhase::NothingToChange
        },
        (
            InquiryPhase::IncomingForwards { edge, local, now },
            InquiryAnswer::Forwards(incoming),
        ) => InquiryPhase::OutgoingForwards { edge, local, now, incoming },
        (
            InquiryPhase::OutgoingForwards { edge, local, incoming, .. },
            InquiryAnswer::Forwards(outgoing),
        ) => InquiryPhase::Balance { edge, local, incoming, outgoing },
        (
            InquiryPhase::Balance { edge, local, incoming, outgoing },
            InquiryAnswer::Balance(category),
        ) => InquiryPhase::LastOutbound { edge, local, incoming, outgoing, category },
        (
            InquiryPhase::LastOutbound { edge, local, incoming, outgoing, category },
            InquiryAnswer::LastChange(rows),
        ) => InquiryPhase::LastInbound {
            edge,
            local,
            incoming,
            outgoing,
            category,
            last_outbound: last_edge_policy_change(&rows),
        },
        (
            InquiryPhase::LastInbound { edge, local, incoming, outgoing, category, last_outbound },
            InquiryAnswer::LastChange(rows),
        ) => InquiryPhase::Complete {
            edge,
            local,
            seen: ChannelObservation {
                channel: channel.clone(),
                channel_balance_category: category,
                incoming_forwards: incoming,
                outgoing_forwards: outgoing,
                last_outbound_policy: last_outbound,
                last_inbound_policy: last_edge_policy_change(&rows),
            },
        },
        (InquiryPhase::Complete { edge, local, seen }, _) => InquiryPhase::Complete {
            edge,
            local,
            seen,
        },
        (InquiryPhase::NothingToChange, _) => InquiryPhase::NothingToChange,
        (InquiryPhase::Failed, _) => InquiryPhase::Failed,
        (InquiryPhase::ChanInfo, InquiryAnswer::Failed) => InquiryPhase::NothingToChange,
        (_, InquiryAnswer::Failed) => InquiryPhase::Failed,
        (phase, _) => phase,
    }
}

/// Whether the forwarding history of an inquiry starts within the calendar.
pub open spec fn window_in_calendar(phase: InquiryPhase) -> bool {
    match phase {
        InquiryPhase::IncomingForwards { now, .. } => in_calendar(
            now@ - seconds(FORWARDING_HISTORY_WINDOW as int),
        ),
        InquiryPhase::OutgoingForwards { now, .. } => in_calendar(
            now@ - seconds(FORWARDING_HISTORY_WINDOW as int),
        ),
        _ => true,
    }
}

/// Whether `query` asks for the last change of a column of the policy history, on
/// a channel of the local node.
pub open spec fn asks_last_change(
    query: PolicyHistoryQuery,
    identity: Seq<char>,
    chan_id: u64,
    column: Seq<char>,
) -> bool {
    &&& query.sql@ == last_policy_change_sql(column)
    &&& hex_decoded(encode_utf8(identity)) == Ok::<Seq<u8>, HexError>(query.pubkey@)
    &&& query.channel_id == chan_id as i64
}

/// Whether `question` is what an inquiry asks next.
pub open spec fn is_asked(
    identity: Seq<char>,
    channel: Channel,
    phase: InquiryPhase,
    question: InquiryQuestion,
) -> bool {
    match phase {
        InquiryPhase::ChanInfo => question == (InquiryQuestion::ChanInfo {
            chan_id: channel.chan_id,
        }),
        InquiryPhase::IncomingForwards { now, .. } => question matches InquiryQuestion::Forwards(
            query,
        ) && counts_incoming(query, channel.chan_id as i64, now@),
        InquiryPhase::OutgoingForwards { now, .. } => question matches InquiryQuestion::Forwards(
            query,
        ) && counts_outgoing(query, channel.chan_id as i64, now@),
        InquiryPhase::Balance { .. } => question is Balance,
        InquiryPhase::LastOutbound { .. } => question matches InquiryQuestion::LastChange(query)
            && asks_last_change(query, identity, channel.chan_id, OUTGOING_FEE_RATE_COLUMN@),
        InquiryPhase::LastInbound { .. } => question matches InquiryQuestion::LastChange(query)
            && asks_last_change(query, identity, channel.chan_id, INCOMING_FEE_RATE_COLUMN@),
        _ => question is Nothing,
    }
}

/// Finds what an inquiry asks next. The last changes can be asked for only of a
/// node that is known by a public key.
pub fn next_question(identity: &String, channel: &Channel, phase: &InquiryPhase) -> (r: Result<
    InquiryQuestion,
    HexError,
>)
    requires
        window_in_calendar(*phase),
    ensures
        match r {
            Ok(question) => is_asked(identity@, *channel, *phase, question),
            Err(e) => (*phase is LastOutbound || *phase is LastInbound) && hex_decoded(
                encode_utf8(identity@),
            ) == Err::<Seq<u8>, HexError>(e),
        },
        hex_decoded(encode_utf8(identity@)) is Ok ==> r is Ok,
        !(*phase is LastOutbound || *phase is LastInbound) ==> r is Ok,
{
    let channel_id: i64 = to_channel_id(channel.chan_id);
    match phase {
        InquiryPhase::ChanInfo => Ok(InquiryQuestion::ChanInfo { chan_id: channel.chan_id }),
        InquiryPhase::IncomingForwards { now, .. } => Ok(
            InquiryQuestion::Forwards(count_incoming_in_window(channel_id, now)),
        ),
        InquiryPhase::OutgoingForwards { now, .. } => Ok(
            InquiryQuestion::Forwards(count_outgoing_in_window(channel_id, now)),
        ),
        InquiryPhase::Balance { .. } => Ok(InquiryQuestion::Balance),
        InquiryPhase::LastOutbound { .. } => match get_last_edge_policy_change(
            identity.as_str(),
            channel_id,
            OUTGOING_FEE_RATE_COLUMN,
        ) {
            Ok(query) => Ok(InquiryQuestion::LastChange(query)),
            Err(e) => Err(e),
        },
        InquiryPhase::LastInbound { .. } => match get_last_edge_policy_change(
            identity.as_str(),
            channel_id,
            INCOMING_FEE_RATE_COLUMN,
        ) {
            Ok(query) => Ok(InquiryQuestion::LastChange(query)),
            Err(e) => Err(e),
        },
        _ => Ok(InquiryQuestion::Nothing),
    }
}

// What holds of every inquiry.

/// What a series of answers makes of an inquiry.
pub open spec fn inquiry_after(
    identity: Seq<char>,
    channel: Channel,
    answers: Seq<InquiryAnswer>,
) -> InquiryPhase
    decreases answers.len(),
{
    if answers.len() == 0 {
        InquiryPhase::ChanInfo
    } else {
        inquiry_next(
            identity,
            channel,
            inquiry_after(identity, channel, answers.drop_last()),
            answers.last(),
        )
    }
}

/// Where each question is answered in turn, each answer ends up where it belongs:
/// the forwards that are counted first are those that came in, those that are
/// counted second went out, and so on; and what is told of the channel is what was
/// told of it.
pub proof fn law_answers_go_where_they_belong(
    identity: Seq<char>,
    channel: Channel,
    edge: ChannelEdge,
    now: Timestamp,
    incoming: ForwardCount,
    outgoing: ForwardCount,
    category: ChannelBalanceCategory,
    outbound_rows: Vec<EdgePolicyHistoryRecord>,
    inbound_rows: Vec<EdgePolicyHistoryRecord>,
)
    requires
        local_policy_of(edge, identity) is Some,
    ensures
        ({
            let answers = seq![
                InquiryAnswer::ChanInfo { edge: Some(edge), now },
                InquiryAnswer::Forwards(incoming),
                InquiryAnswer::Forwards(outgoing),
                InquiryAnswer::Balance(category),
                InquiryAnswer::LastChange(outbound_rows),
                InquiryAnswer::LastChange(inbound_rows),
            ];
            &&& inquiry_after(identity, channel, answers.take(1)) is IncomingForwards
            &&& inquiry_after(identity, channel, answers.take(2)) is OutgoingForwards
            &&& inquiry_after(identity, channel, answers.take(3)) is Balance
            &&& inquiry_after(identity, channel, answers.take(4)) is LastOutbound
            &&& inquiry_after(identity, channel, answers.take(5)) is LastInbound
            &&& inquiry_after(identity, channel, answers) == (InquiryPhase::Complete {
                edge,
                local: local_policy_of(edge, identity)->0,
                seen: ChannelObservation {
                    channel,
                    channel_balance_category: category,
                    incoming_forwards: incoming,
                    outgoing_forwards: outgoing,
                    last_outbound_policy: last_of(outbound_rows@),
                    last_inbound_policy: last_of(inbound_rows@),
                },
            })
        }),
{
    let answers = seq![
        InquiryAnswer::ChanInfo { edge: Some(edge), now },
        InquiryAnswer::Forwards(incoming),
        InquiryAnswer::Forwards(outgoing),
        InquiryAnswer::Balance(category),
        InquiryAnswer::LastChange(outbound_rows),
        InquiryAnswer::LastChange(inbound_rows),
    ];
    assert(answers.take(6) =~= answers);
    assert(answers.take(6).drop_last() =~= answers.take(5));
    assert(answers.take(5).drop_last() =~= answers.take(4));
    assert(answers.take(4).drop_last() =~= answers.take(3));
    assert(answers.take(3).drop_last() =~= answers.take(2));
    assert(answers.take(2).drop_last() =~= answers.take(1));
    assert(answers.take(1).drop_last() =~= answers.take(0));
    reveal_with_fuel(inquiry_after, 7);
}

/// An inquiry that is complete is about the channel that it was made for, and about
/// the policy that the local node has on it.
pub proof fn law_complete_inquiries_are_about_the_channel(
    identity: Seq<char>,
    channel: Channel,
    answers: Seq<InquiryAnswer>,
)
    ensures
        match inquiry_after(identity, channel, answers) {
            InquiryPhase::ChanInfo => true,
            InquiryPhase::IncomingForwards { edge, local, .. } => local_policy_of(edge, identity)
                == Some(local),
            InquiryPhase::OutgoingForwards { edge, local, .. } => local_policy_of(edge, identity)
                == Some(local),
            InquiryPhase::Balance { edge, local, .. } => local_policy_of(edge, identity) == Some(
                local,
            ),
            InquiryPhase::LastOutbound { edge, local, .. } => local_policy_of(edge, identity)
                == Some(local),
            InquiryPhase::LastInbound { edge, local, .. } => local_policy_of(edge, identity)
                == Some(local),
            InquiryPhase::Complete { edge, local, seen } => local_policy_of(edge, identity) == Some(
                local,
            ) && seen.channel == channel,
            InquiryPhase::NothingToChange => true,
            InquiryPhase::Failed => true,
        },
    decreases answers.len(),
{
    if answers.len() > 0 {
        law_complete_inquiries_are_about_the_channel(identity, channel, answers.drop_last());
    }
}

/// A channel that cannot be looked up, or on which the local node has no policy,
/// calls for no change, and nothing more is asked about it. Any other answer that
/// cannot be had ends the inquiry without one.
pub proof fn law_missing_answers_end_the_inquiry(
    identity: Seq<char>,
    channel: Channel,
    phase: InquiryPhase,
    edge: ChannelEdge,
    now: Timestamp,
)
    ensures
        inquiry_next(
            identity,
            channel,
            InquiryPhase::ChanInfo,
            InquiryAnswer::ChanInfo { edge: None, now },
        ) is NothingToChange,
        inquiry_next(identity, channel, InquiryPhase::ChanInfo, InquiryAnswer::Failed)
            is NothingToChange,
        inquiry_next(
            identity,
            channel,
            InquiryPhase::ChanInfo,
            InquiryAnswer::ChanInfo { edge: Some(edge), now },
        ) is NothingToChange <==> local_policy_of(edge, identity) is None,
        phase is IncomingForwards || phase is OutgoingForwards || phase is Balance || phase
            is LastOutbound || phase is LastInbound ==> inquiry_next(
            identity,
            channel,
            phase,
            InquiryAnswer::Failed,
        ) is Failed,
{
}

/// An inquiry that has come to an end stays as it is, and an answer to another
/// question than the one that is asked changes nothing.
pub proof fn law_only_answers_that_are_asked_for_count(
    identity: Seq<char>,
    channel: Channel,
    phase: InquiryPhase,
    answer: InquiryAnswer,
)
    ensures
        phase is Complete || phase is NothingToChange || phase is Failed ==> inquiry_next(
            identity,
            channel,
            phase,
            answer,
        ) == phase,
        phase is ChanInfo && !(answer is ChanInfo || answer is Failed) ==> inquiry_next(
            identity,
            channel,
            phase,
            answer,
        ) == phase,
        (phase is IncomingForwards || phase is OutgoingForwards) && !(answer is Forwards || answer
            is Failed) ==> inquiry_next(identity, channel, phase, answer) == phase,
        phase is Balance && !(answer is Balance || answer is Failed) ==> inquiry_next(
            identity,
            channel,
            phase,
            answer,
        ) == phase,
        (phase is LastOutbound || phase is LastInbound) && !(answer is LastChange || answer
            is Failed) ==> inquiry_next(identity, channel, phase, answer) == phase,
{
}

/// What is asked in each phase is what its name says: the forwards of the last
/// 172,800 seconds over the channel, inwards and then outwards, and the last change
/// of the outgoing and then of the incoming fee rate, of the local node on the
/// channel.
pub proof fn law_questions_fit_the_phase(
    identity: Seq<char>,
    channel: Channel,
    phase: InquiryPhase,
    question: InquiryQuestion,
)
    requires
        is_asked(identity, channel, phase, question),
    ensures
        phase is ChanInfo ==> question == (InquiryQuestion::ChanInfo { chan_id: channel.chan_id }),
        phase matches InquiryPhase::IncomingForwards { now, .. } ==> {
            &&& question is Forwards
            &&& question->Forwards_0.sql == COUNT_INCOMING_FORWARDS
            &&& question->Forwards_0.channel_id == channel.chan_id as i64
            &&& question->Forwards_0.after@ == now@ - 172_800_000_000_000
        },
        phase matches InquiryPhase::OutgoingForwards { now, .. } ==> {
            &&& question is Forwards
            &&& question->Forwards_0.sql == COUNT_OUTGOING_FORWARDS
            &&& question->Forwards_0.channel_id == channel.chan_id as i64
            &&& question->Forwards_0.after@ == now@ - 172_800_000_000_000
        },
        phase is Balance ==> question is Balance,
        phase is LastOutbound || phase is LastInbound ==> {
            &&& question is LastChange
            &&& question->LastChange_0.channel_id == channel.chan_id as i64
            &&& hex_decoded(encode_utf8(identity)) == Ok::<Seq<u8>, HexError>(
                question->LastChange_0.pubkey@,
            )
        },
        phase is LastOutbound ==> question->LastChange_0.sql@ == last_policy_change_sql(
            "fee_rate_milli_msat"@,
        ),
        phase is LastInbound ==> question->LastChange_0.sql@ == last_policy_change_sql(
            "inbound_fee_rate_milli_msat"@,
        ),
        phase is Complete || phase is NothingToChange || phase is Failed ==> question is Nothing,
{
}

/// The last change is the first row that the database gave, if it gave any.
pub proof fn law_first_row_is_the_last_change(
    rows: Seq<EdgePolicyHistoryRecord>,
    record: EdgePolicyHistoryRecord,
)
    ensures
        last_of(Seq::empty()) is None,
        last_of(seq![record] + rows) == Some(record),
{
    assert((seq![record] + rows)[0] == record);
}

} // verus!
