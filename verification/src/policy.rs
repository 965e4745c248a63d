//! What the node asks for forwarding payments over a channel, and when it asks
//! for something else.
use crate::balance::{
    category_name, has_inbound_liquidity, has_liquidity, has_outbound_liquidity,
    ChannelBalanceCategory,
};
use crate::forwards::{ForwardCount, FORWARDING_HISTORY_WINDOW};
use crate::network::{Channel, ChannelEdge, RoutingPolicy};
use crate::text::{
    contains_char, decimal, decimal_int, digits_value, first_two_pieces, law_decimals_read_back,
    law_numbers_are_parsed, law_two_pieces_are_told_apart, parse_u32, parsed_u32, push_decimal_int,
    split_on,
};
use crate::time::{in_calendar, seconds, span_notation, span_text, Timestamp, LONGEST_SPAN};
use vstd::prelude::*;
use vstd::string::*;

verus! {

/// Time between policy changes on a particular channel and direction, in
/// seconds: four hours.
///
/// Policy is not changed too frequently, to give the network time to propagate
/// the changes and get an accurate signal of their effects.
pub const CHANNEL_POLICY_CHANGE_COOLDOWN: i64 = 14_400;

/// The output that funds a channel.
#[derive(Debug)]
pub struct ChanPoint {
    pub funding_txid_str: String,
    pub output_index: u32,
}

/// What the local node asks for forwarding payments over one of its channels.
#[derive(Debug)]
pub struct ChannelPolicy {
    pub chan_point: ChanPoint,
    pub base_fee_msat: i64,
    pub fee_rate_ppm: i64,
    pub time_lock_delta: u32,
    pub max_htlc_msat: u64,
    pub inbound_fee_base_msat: i32,
    pub inbound_fee_rate_ppm: i32,
}

/// A change of policy that is called for, and why.
#[derive(Debug)]
pub struct ChannelPolicyChange {
    pub apply_at: Timestamp,
    pub channel: Channel,
    pub action: String,
    pub reason: String,
    pub old_policy: ChannelPolicy,
    pub new_policy: ChannelPolicy,
}

/// The view of a `ChannelPolicy`.
#[verifier::ext_equal]
pub struct PolicyView {
    pub funding_txid: Seq<char>,
    pub output_index: u32,
    pub base_fee_msat: i64,
    pub fee_rate_ppm: i64,
    pub time_lock_delta: u32,
    pub max_htlc_msat: u64,
    pub inbound_fee_base_msat: i32,
    pub inbound_fee_rate_ppm: i32,
}

/// The view of a `ChannelPolicyChange`.
#[verifier::ext_equal]
pub struct ChangeView {
    pub apply_at: int,
    pub channel: Channel,
    pub action: Seq<char>,
    pub reason: Seq<char>,
    pub old_policy: PolicyView,
    pub new_policy: PolicyView,
}

impl View for ChannelPolicy {
    type V = PolicyView;

    open spec fn view(&self) -> PolicyView {
        PolicyView {
            funding_txid: self.chan_point.funding_txid_str@,
            output_index: self.chan_point.output_index,
            base_fee_msat: self.base_fee_msat,
            fee_rate_ppm: self.fee_rate_ppm,
            time_lock_delta: self.time_lock_delta,
            max_htlc_msat: self.max_htlc_msat,
            inbound_fee_base_msat: self.inbound_fee_base_msat,
            inbound_fee_rate_ppm: self.inbound_fee_rate_ppm,
        }
    }
}

impl View for ChannelPolicyChange {
    type V = ChangeView;

    open spec fn view(&self) -> ChangeView {
        ChangeView {
            apply_at: self.apply_at@,
            channel: self.channel,
            action: self.action@,
            reason: self.reason@,
            old_policy: self.old_policy@,
            new_policy: self.new_policy@,
        }
    }
}

impl Clone for ChanPoint {
    fn clone(&self) -> (r: ChanPoint)
        ensures
            r == *self,
    {
        ChanPoint {
            funding_txid_str: self.funding_txid_str.clone(),
            output_index: self.output_index,
        }
    }
}

impl Clone for ChannelPolicy {
    fn clone(&self) -> (r: ChannelPolicy)
        ensures
            r == *self,
    {
        ChannelPolicy {
            chan_point: self.chan_point.clone(),
            base_fee_msat: self.base_fee_msat,
            fee_rate_ppm: self.fee_rate_ppm,
            time_lock_delta: self.time_lock_delta,
            max_htlc_msat: self.max_htlc_msat,
            inbound_fee_base_msat: self.inbound_fee_base_msat,
            inbound_fee_rate_ppm: self.inbound_fee_rate_ppm,
        }
    }
}

/// A change of the local node's policy that the network has seen.
#[derive(Clone, Copy, Debug)]
pub struct EdgePolicyHistoryRecord {
    pub valid_from: Timestamp,
    pub fee_rate_milli_msat: Option<i64>,
    pub inbound_fee_rate_milli_msat: Option<i64>,
}

/// What was found out about a channel.
#[derive(Debug)]
pub struct ChannelObservation {
    pub channel: Channel,
    pub channel_balance_category: ChannelBalanceCategory,
    pub incoming_forwards: ForwardCount,
    pub outgoing_forwards: ForwardCount,
    pub last_outbound_policy: Option<EdgePolicyHistoryRecord>,
    pub last_inbound_policy: Option<EdgePolicyHistoryRecord>,
}

/// The fee rates that the steps arrive at, scaled and jittered, before they are
/// bounded. Rates are in parts per million; an inbound rate under zero is a
/// discount.
#[derive(Clone, Copy, Debug, PartialEq, Eq, Structural)]
pub struct FeeRateQuote {
    /// The outgoing rate after the outgoing step.
    pub outgoing: i64,
    /// The deepest inbound discount next to that outgoing rate, once bounded:
    /// 95% of it.
    pub outgoing_discount_limit: i32,
    /// The inbound rate after the incoming step.
    pub incoming: i32,
    /// The deepest inbound discount next to the present outgoing rate: 95% of it.
    pub incoming_discount_limit: i32,
}

/// How the outgoing fee rate is to change.
#[derive(Clone, Copy, Debug, PartialEq, Eq, Structural)]
pub enum OutgoingStep {
    /// By 1% upwards: many forwards are tried, though liquidity is scarce.
    RaiseScarce,
    /// By 1% downwards: few forwards are tried, and liquidity is scarce.
    LowerScarce,
    /// By 2% upwards: many forwards succeed.
    RaiseBusy,
    /// By 1% downwards: few forwards succeed, though there is liquidity.
    LowerIdle,
}

/// How the incoming fee rate is to change.
#[derive(Clone, Copy, Debug, PartialEq, Eq, Structural)]
pub enum IncomingStep {
    /// A 5% deeper discount: there is no liquidity to forward outwards.
    DeepenScarce,
    /// A 15% smaller discount: many forwards succeed.
    ReduceBusy,
    /// No discount: there is no liquidity to forward inwards.
    Drop,
    /// A 10% smaller discount: few forwards succeed, though many are tried.
    ReduceFailing,
    /// A 5% deeper discount: few forwards are even tried.
    DeepenIdle,
}

/// By how many percent an outgoing step scales the rate.
pub open spec fn outgoing_percent(step: OutgoingStep) -> int {
    match step {
        OutgoingStep::RaiseScarce => 1,
        OutgoingStep::LowerScarce => -1,
        OutgoingStep::RaiseBusy => 2,
        OutgoingStep::LowerIdle => -1,
    }
}

/// By how many percent an incoming step scales the discount, where it scales it.
pub open spec fn incoming_percent(step: IncomingStep) -> Option<int> {
    match step {
        IncomingStep::DeepenScarce => Some(5int),
        IncomingStep::ReduceBusy => Some(-15int),
        IncomingStep::Drop => None,
        IncomingStep::ReduceFailing => Some(-10int),
        IncomingStep::DeepenIdle => Some(5int),
    }
}

impl OutgoingStep {
    /// By how many percent the step scales the rate.
    pub fn percent(&self) -> (r: i32)
        ensures
            r == outgoing_percent(*self),
    {
        match self {
            OutgoingStep::RaiseScarce => 1,
            OutgoingStep::LowerScarce => -1,
            OutgoingStep::RaiseBusy => 2,
            OutgoingStep::LowerIdle => -1,
        }
    }
}

impl IncomingStep {
    /// By how many percent the step scales the discount; nothing where it drops
    /// it.
    pub fn percent(&self) -> (r: Option<i32>)
        ensures
            r is Some <==> incoming_percent(*self) is Some,
            r matches Some(p) ==> incoming_percent(*self) == Some(p as int),
    {
        match self {
            IncomingStep::DeepenScarce => Some(5),
            IncomingStep::ReduceBusy => Some(-15),
            IncomingStep::Drop => None,
            IncomingStep::ReduceFailing => Some(-10),
            IncomingStep::DeepenIdle => Some(5),
        }
    }
}

// Which step is taken.

/// Whether a channel's two balances add up in 64 bits.
pub open spec fn total_fits(channel: Channel) -> bool {
    i64::MIN <= channel.local_balance + channel.remote_balance <= i64::MAX
}

/// Whether there is liquidity at the local end of a channel.
pub open spec fn outbound_liquidity(channel: Channel) -> bool {
    has_liquidity(
        channel.local_balance as int,
        channel.local_balance + channel.remote_balance,
    )
}

/// Whether there is liquidity at the remote end of a channel.
pub open spec fn inbound_liquidity(channel: Channel) -> bool {
    has_liquidity(
        channel.remote_balance as int,
        channel.local_balance + channel.remote_balance,
    )
}

/// The change of the outgoing fee rate that the observations call for.
pub open spec fn outgoing_plan(seen: ChannelObservation) -> Option<OutgoingStep> {
    let forwards = seen.outgoing_forwards;
    if !outbound_liquidity(seen.channel) {
        if forwards.total_forwards_count > 30 {
            Some(OutgoingStep::RaiseScarce)
        } else if forwards.total_forwards_count < 24 {
            Some(OutgoingStep::LowerScarce)
        } else {
            None
        }
    } else if forwards.successful_forwards_count > 20 {
        Some(OutgoingStep::RaiseBusy)
    } else if forwards.successful_forwards_count < 2 {
        Some(OutgoingStep::LowerIdle)
    } else {
        None
    }
}

/// The change of the incoming fee rate that the observations call for.
pub open spec fn incoming_plan(seen: ChannelObservation) -> Option<IncomingStep> {
    let forwards = seen.incoming_forwards;
    if !outbound_liquidity(seen.channel) {
        Some(IncomingStep::DeepenScarce)
    } else if forwards.successful_forwards_count > 20 {
        Some(IncomingStep::ReduceBusy)
    } else if forwards.successful_forwards_count < 2 {
        if !inbound_liquidity(seen.channel) {
            Some(IncomingStep::Drop)
        } else if forwards.total_forwards_count > 20 {
            Some(IncomingStep::ReduceFailing)
        } else if forwards.total_forwards_count < 2 {
            Some(IncomingStep::DeepenIdle)
        } else {
            None
        }
    } else {
        None
    }
}

/// Finds the change of the outgoing fee rate that the observations call for.
pub fn outgoing_step(seen: &ChannelObservation) -> (r: Option<OutgoingStep>)
    requires
        total_fits(seen.channel),
    ensures
        r == outgoing_plan(*seen),
{
    let local_balance: i64 = seen.channel.local_balance;
    let total_balance: i64 = local_balance + seen.channel.remote_balance;
    if !has_outbound_liquidity(local_balance, total_balance) {
        let forwards: i64 = seen.outgoing_forwards.total_forwards_count;
        if forwards > 30 {
            Some(OutgoingStep::RaiseScarce)
        } else if forwards < 24 {
            Some(OutgoingStep::LowerScarce)
        } else {
            None
        }
    } else {
        let successful: i64 = seen.outgoing_forwards.successful_forwards_count;
        if successful > 20 {
            Some(OutgoingStep::RaiseBusy)
        } else if successful < 2 {
            Some(OutgoingStep::LowerIdle)
        } else {
            None
        }
    }
}

/// Finds the change of the incoming fee rate that the observations call for.
pub fn incoming_step(seen: &ChannelObservation) -> (r: Option<IncomingStep>)
    requires
        total_fits(seen.channel),
    ensures
        r == incoming_plan(*seen),
{
    let local_balance: i64 = seen.channel.local_balance;
    let remote_balance: i64 = seen.channel.remote_balance;
    let total_balance: i64 = local_balance + remote_balance;
    let successful: i64 = seen.incoming_forwards.successful_forwards_count;
    let total: i64 = seen.incoming_forwards.total_forwards_count;
    if !has_outbound_liquidity(local_balance, total_balance) {
        Some(IncomingStep::DeepenScarce)
    } else if successful > 20 {
        Some(IncomingStep::ReduceBusy)
    } else if successful < 2 {
        if !has_inbound_liquidity(remote_balance, total_balance) {
            Some(IncomingStep::Drop)
        } else if total > 20 {
            Some(IncomingStep::ReduceFailing)
        } else if total < 2 {
            Some(IncomingStep::DeepenIdle)
        } else {
            None
        }
    } else {
        None
    }
}

// What the step makes of the fee rates.

/// The greater of two numbers.
pub open spec fn greater(a: int, b: int) -> int {
    if a >= b {
        a
    } else {
        b
    }
}

/// The lesser of two numbers.
pub open spec fn lesser(a: int, b: int) -> int {
    if a <= b {
        a
    } else {
        b
    }
}

/// An outgoing fee rate after a step, from what the step arrived at: never under
/// zero.
pub fn adjust_outgoing_fee_rate(adjusted: i64) -> (r: i64)
    ensures
        r == greater(0, adjusted as int),
        adjusted >= 0 ==> r == adjusted,
        adjusted < 0 ==> r == 0,
{
    if adjusted > 0 {
        adjusted
    } else {
        0
    }
}

/// An incoming fee rate after a step, from what the step arrived at: never above
/// zero.
pub fn adjust_incoming_fee_rate(adjusted: i32) -> (r: i32)
    ensures
        r == lesser(0, adjusted as int),
        adjusted <= 0 ==> r == adjusted,
        adjusted > 0 ==> r == 0,
{
    if adjusted < 0 {
        adjusted
    } else {
        0
    }
}

fn greater_of(a: i32, b: i32) -> (r: i32)
    ensures
        r == greater(a as int, b as int),
{
    if a >= b {
        a
    } else {
        b
    }
}

/// The policy after a step of the outgoing fee rate. Where the rate goes down,
/// so does the deepest discount that may stand next to it.
pub open spec fn after_outgoing_step(
    policy: PolicyView,
    step: OutgoingStep,
    quote: FeeRateQuote,
) -> PolicyView {
    let raised = PolicyView { fee_rate_ppm: greater(0, quote.outgoing as int) as i64, ..policy };
    match step {
        OutgoingStep::RaiseScarce | OutgoingStep::RaiseBusy => raised,
        OutgoingStep::LowerScarce | OutgoingStep::LowerIdle => PolicyView {
            inbound_fee_rate_ppm: greater(
                quote.outgoing_discount_limit as int,
                policy.inbound_fee_rate_ppm as int,
            ) as i32,
            ..raised
        },
    }
}

/// The incoming fee rate after a step.
pub open spec fn inbound_rate_after(step: IncomingStep, quote: FeeRateQuote) -> i32 {
    match step {
        IncomingStep::DeepenScarce => greater(
            quote.incoming_discount_limit as int,
            lesser(0, quote.incoming as int),
        ) as i32,
        IncomingStep::ReduceBusy => lesser(0, quote.incoming as int) as i32,
        IncomingStep::Drop => 0i32,
        IncomingStep::ReduceFailing => lesser(0, quote.incoming as int) as i32,
        IncomingStep::DeepenIdle => greater(
            quote.incoming_discount_limit as int,
            quote.incoming as int,
        ) as i32,
    }
}

/// The policy after a step of the incoming fee rate.
pub open spec fn after_incoming_step(
    policy: PolicyView,
    step: IncomingStep,
    quote: FeeRateQuote,
) -> PolicyView {
    PolicyView { inbound_fee_rate_ppm: inbound_rate_after(step, quote), ..policy }
}

fn take_outgoing_step(policy: &ChannelPolicy, step: OutgoingStep, quote: &FeeRateQuote) -> (r:
    ChannelPolicy)
    ensures
        r@ == after_outgoing_step(policy@, step, *quote),
{
    let mut changed = policy.clone();
    changed.fee_rate_ppm = adjust_outgoing_fee_rate(quote.outgoing);
    match step {
        OutgoingStep::RaiseScarce | OutgoingStep::RaiseBusy => {},
        OutgoingStep::LowerScarce | OutgoingStep::LowerIdle => {
            changed.inbound_fee_rate_ppm =
            greater_of(quote.outgoing_discount_limit, policy.inbound_fee_rate_ppm);
        },
    }
    changed
}

fn take_incoming_step(policy: &ChannelPolicy, step: IncomingStep, quote: &FeeRateQuote) -> (r:
    ChannelPolicy)
    ensures
        r@ == after_incoming_step(policy@, step, *quote),
{
    let mut changed = policy.clone();
    changed.inbound_fee_rate_ppm =
    match step {
        IncomingStep::DeepenScarce => greater_of(
            quote.incoming_discount_limit,
            adjust_incoming_fee_rate(quote.incoming),
        ),
        IncomingStep::ReduceBusy | IncomingStep::ReduceFailing => adjust_incoming_fee_rate(
            quote.incoming,
        ),
        IncomingStep::Drop => 0,
        IncomingStep::DeepenIdle => greater_of(quote.incoming_discount_limit, quote.incoming),
    };
    changed
}

// How the step is put into words.

/// What is done in an outgoing step.
pub open spec fn outgoing_action(step: OutgoingStep) -> Seq<char> {
    match step {
        OutgoingStep::RaiseScarce => "Increase Outgoing Fee Rate by 1%"@,
        OutgoingStep::LowerScarce => "Decrease Outgoing Fee Rate by 1%"@,
        OutgoingStep::RaiseBusy => "Increase Outgoing Fee Rate by 2%"@,
        OutgoingStep::LowerIdle => "Decrease Outgoing Fee Rate by 1%"@,
    }
}

/// What is done in an incoming step.
pub open spec fn incoming_action(step: IncomingStep) -> Seq<char> {
    match step {
        IncomingStep::DeepenScarce => "Increase Incoming Fee Rate Discount by 5%"@,
        IncomingStep::ReduceBusy => "Decrease Incoming Fee Rate Discount by 15%"@,
        IncomingStep::Drop => "Set Incoming Fee Rate Discount to 0"@,
        IncomingStep::ReduceFailing => "Decrease Incoming Fee Rate Discount by 10%"@,
        IncomingStep::DeepenIdle => "Increase Incoming Fee Rate Discount by 5%"@,
    }
}

/// A count that passed a mark, behind `prefix`.
pub open spec fn passed_mark(
    prefix: Seq<char>,
    label: Seq<char>,
    count: int,
    relation: Seq<char>,
    mark: int,
    window: int,
) -> Seq<char> {
    prefix + label + decimal_int(count) + relation + decimal_int(mark) + " (window: "@
        + span_notation(window) + ")"@
}

/// Why an outgoing step is taken.
pub open spec fn outgoing_reason(step: OutgoingStep, seen: ChannelObservation) -> Seq<char> {
    let category = category_name(seen.channel_balance_category);
    let total = seen.outgoing_forwards.total_forwards_count as int;
    let successful = seen.outgoing_forwards.successful_forwards_count as int;
    match step {
        OutgoingStep::RaiseScarce => passed_mark(
            category,
            "; Outgoing Forward Count "@,
            total,
            " > "@,
            30,
            FORWARDING_HISTORY_WINDOW as int,
        ),
        OutgoingStep::LowerScarce => passed_mark(
            category,
            "; Outgoing Forward Count "@,
            total,
            " < "@,
            24,
            FORWARDING_HISTORY_WINDOW as int,
        ),
        OutgoingStep::RaiseBusy => passed_mark(
            category,
            "; Outgoing Successful Forward Count "@,
            successful,
            " > "@,
            20,
            FORWARDING_HISTORY_WINDOW as int,
        ),
        OutgoingStep::LowerIdle => passed_mark(
            category,
            "; Outgoing Successful Forward Count "@,
            successful,
            " < "@,
            2,
            FORWARDING_HISTORY_WINDOW as int,
        ),
    }
}

/// Why an incoming step is taken.
pub open spec fn incoming_reason(step: IncomingStep, seen: ChannelObservation) -> Seq<char> {
    let category = category_name(seen.channel_balance_category);
    let total = seen.incoming_forwards.total_forwards_count as int;
    let successful = seen.incoming_forwards.successful_forwards_count as int;
    match step {
        IncomingStep::DeepenScarce => category + "; "@,
        IncomingStep::ReduceBusy => passed_mark(
            category,
            "; Incoming Successful Forward Count "@,
            successful,
            " > "@,
            20,
            FORWARDING_HISTORY_WINDOW as int,
        ),
        IncomingStep::Drop => category,
        IncomingStep::ReduceFailing => passed_mark(
            Seq::empty(),
            "Incoming Forward Count "@,
            total,
            " > "@,
            20,
            FORWARDING_HISTORY_WINDOW as int,
        ),
        IncomingStep::DeepenIdle => passed_mark(
            Seq::empty(),
            "Incoming Forward Count "@,
            total,
            " < "@,
            2,
            FORWARDING_HISTORY_WINDOW as int,
        ),
    }
}

fn push_passed_mark(
    out: &mut String,
    label: &str,
    count: i64,
    relation: &str,
    mark: i64,
    window: i64,
)
    requires
        0 <= window <= 1_000_000,
    ensures
        final(out)@ == passed_mark(
            old(out)@,
            label@,
            count as int,
            relation@,
            mark as int,
            window as int,
        ),
{
    out.append(label);
    push_decimal_int(out, count);
    out.append(relation);
    push_decimal_int(out, mark);
    out.append(" (window: ");
    out.append(span_text(window).as_str());
    out.append(")");
}

fn outgoing_reason_text(step: OutgoingStep, seen: &ChannelObservation) -> (r: String)
    ensures
        r@ == outgoing_reason(step, *seen),
{
    let total: i64 = seen.outgoing_forwards.total_forwards_count;
    let successful: i64 = seen.outgoing_forwards.successful_forwards_count;
    let mut out = String::from_str(seen.channel_balance_category.name());
    match step {
        OutgoingStep::RaiseScarce => push_passed_mark(
            &mut out,
            "; Outgoing Forward Count ",
            total,
            " > ",
            30,
            FORWARDING_HISTORY_WINDOW,
        ),
        OutgoingStep::LowerScarce => push_passed_mark(
            &mut out,
            "; Outgoing Forward Count ",
            total,
            " < ",
            24,
            FORWARDING_HISTORY_WINDOW,
        ),
        OutgoingStep::RaiseBusy => push_passed_mark(
            &mut out,
            "; Outgoing Successful Forward Count ",
            successful,
            " > ",
            20,
            FORWARDING_HISTORY_WINDOW,
        ),
        OutgoingStep::LowerIdle => push_passed_mark(
            &mut out,
            "; Outgoing Successful Forward Count ",
            successful,
            " < ",
            2,
            FORWARDING_HISTORY_WINDOW,
        ),
    }
    out
}

fn incoming_reason_text(step: IncomingStep, seen: &ChannelObservation) -> (r: String)
    ensures
        r@ == incoming_reason(step, *seen),
{
    let total: i64 = seen.incoming_forwards.total_forwards_count;
    let successful: i64 = seen.incoming_forwards.successful_forwards_count;
    let mut out = String::new();
    match step {
        IncomingStep::DeepenScarce => {
            out = String::from_str(seen.channel_balance_category.name());
            out.append("; ");
        },
        IncomingStep::ReduceBusy => {
            out = String::from_str(seen.channel_balance_category.name());
            push_passed_mark(
                &mut out,
                "; Incoming Successful Forward Count ",
                successful,
                " > ",
                20,
                FORWARDING_HISTORY_WINDOW,
            );
        },
        IncomingStep::Drop => {
            out = String::from_str(seen.channel_balance_category.name());
        },
        IncomingStep::ReduceFailing => push_passed_mark(
            &mut out,
            "Incoming Forward Count ",
            total,
            " > ",
            20,
            FORWARDING_HISTORY_WINDOW,
        ),
        IncomingStep::DeepenIdle => push_passed_mark(
            &mut out,
            "Incoming Forward Count ",
            total,
            " < ",
            2,
            FORWARDING_HISTORY_WINDOW,
        ),
    }
    out
}

fn outgoing_action_text(step: OutgoingStep) -> (r: String)
    ensures
        r@ == outgoing_action(step),
{
    String::from_str(
        match step {
            OutgoingStep::RaiseScarce => "Increase Outgoing Fee Rate by 1%",
            OutgoingStep::LowerScarce => "Decrease Outgoing Fee Rate by 1%",
            OutgoingStep::RaiseBusy => "Increase Outgoing Fee Rate by 2%",
            OutgoingStep::LowerIdle => "Decrease Outgoing Fee Rate by 1%",
        },
    )
}

fn incoming_action_text(step: IncomingStep) -> (r: String)
    ensures
        r@ == incoming_action(step),
{
    String::from_str(
        match step {
            IncomingStep::DeepenScarce => "Increase Incoming Fee Rate Discount by 5%",
            IncomingStep::ReduceBusy => "Decrease Incoming Fee Rate Discount by 15%",
            IncomingStep::Drop => "Set Incoming Fee Rate Discount to 0",
            IncomingStep::ReduceFailing => "Decrease Incoming Fee Rate Discount by 10%",
            IncomingStep::DeepenIdle => "Increase Incoming Fee Rate Discount by 5%",
        },
    )
}

// When the step is taken.

/// The time at which a change of policy may be applied: a cooldown after the last
/// one, or now where there was none.
pub open spec fn change_time(
    last_policy: Option<EdgePolicyHistoryRecord>,
    cooldown: int,
    now: int,
) -> int {
    match last_policy {
        Some(last) => last.valid_from@ + seconds(cooldown),
        None => now,
    }
}

/// Whether the end of the cooldown after the last change still lies in the
/// calendar.
pub open spec fn cooldown_in_calendar(
    last_policy: Option<EdgePolicyHistoryRecord>,
    cooldown: int,
) -> bool {
    last_policy matches Some(last) ==> in_calendar(last.valid_from@ + seconds(cooldown))
}

/// The time at which a change of policy may be applied, given the current time.
pub fn policy_change_time(
    last_policy: Option<&EdgePolicyHistoryRecord>,
    cooldown: i64,
    now: Timestamp,
) -> (at: Timestamp)
    requires
        last_policy matches Some(last) ==> in_calendar(
            last.valid_from@ + seconds(cooldown as int),
        ),
        -LONGEST_SPAN <= cooldown <= LONGEST_SPAN,
    ensures
        at@ == match last_policy {
            Some(last) => last.valid_from@ + seconds(cooldown as int),
            None => now@,
        },
{
    match last_policy {
        Some(last) => last.valid_from.plus_seconds(cooldown),
        None => now,
    }
}

/// The time at which a change of policy may be applied: a cooldown after the last
/// one, or at once where there was none.
pub fn add_time_to_policy_change(
    last_policy: Option<&EdgePolicyHistoryRecord>,
    cooldown: i64,
) -> (at: Timestamp)
    requires
        last_policy matches Some(last) ==> in_calendar(
            last.valid_from@ + seconds(cooldown as int),
        ),
        -LONGEST_SPAN <= cooldown <= LONGEST_SPAN,
    ensures
        last_policy matches Some(last) ==> at@ == last.valid_from@ + seconds(cooldown as int),
        last_policy is None ==> in_calendar(at@) && at@ >= 0,
{
    policy_change_time(last_policy, cooldown, Timestamp::now())
}

// All of it together.

/// The policy that the local node, known by its public key, has on a channel.
pub open spec fn local_policy_of(edge: ChannelEdge, identity: Seq<char>) -> Option<RoutingPolicy> {
    if edge.node1_pub@ == identity {
        edge.node1_policy
    } else if edge.node2_pub@ == identity {
        edge.node2_policy
    } else {
        None
    }
}

/// Finds the policy that the local node has on a channel.
pub fn local_policy(edge: &ChannelEdge, identity: &String) -> (r: Option<RoutingPolicy>)
    ensures
        r == local_policy_of(*edge, identity@),
{
    if edge.node1_pub == *identity {
        edge.node1_policy
    } else if edge.node2_pub == *identity {
        edge.node2_policy
    } else {
        None
    }
}

/// The policy as it is set on a channel. An output that is no number counts as
/// the first.
pub open spec fn current_policy_of(edge: ChannelEdge, local: RoutingPolicy) -> PolicyView {
    PolicyView {
        funding_txid: split_on(edge.chan_point@, ':')[0],
        output_index: match parsed_u32(split_on(edge.chan_point@, ':')[1]) {
            Some(index) => index,
            None => 0,
        },
        base_fee_msat: local.fee_base_msat,
        fee_rate_ppm: local.fee_rate_milli_msat,
        time_lock_delta: local.time_lock_delta,
        max_htlc_msat: local.max_htlc_msat,
        inbound_fee_base_msat: local.inbound_fee_base_msat,
        inbound_fee_rate_ppm: local.inbound_fee_rate_milli_msat,
    }
}

/// Puts the local node's policy into the form in which it is set on a channel.
pub fn current_policy(edge: &ChannelEdge, local: &RoutingPolicy) -> (r: ChannelPolicy)
    requires
        edge.chan_point@.contains(':'),
    ensures
        r@ == current_policy_of(*edge, *local),
{
    let (funding_txid_str, index) = first_two_pieces(edge.chan_point.as_str(), ':');
    let output_index: u32 = match parse_u32(index.as_str()) {
        Some(n) => n,
        None => 0,
    };
    ChannelPolicy {
        chan_point: ChanPoint { funding_txid_str, output_index },
        base_fee_msat: local.fee_base_msat,
        fee_rate_ppm: local.fee_rate_milli_msat,
        time_lock_delta: local.time_lock_delta,
        max_htlc_msat: local.max_htlc_msat,
        inbound_fee_base_msat: local.inbound_fee_base_msat,
        inbound_fee_rate_ppm: local.inbound_fee_rate_milli_msat,
    }
}

/// The policy that the observations call for in the outgoing direction, and the
/// step that leads there, if it leaves the outgoing fee rate other than it was.
pub open spec fn outgoing_target(
    policy: PolicyView,
    seen: ChannelObservation,
    quote: FeeRateQuote,
) -> Option<(OutgoingStep, PolicyView)> {
    match outgoing_plan(seen) {
        Some(step) => {
            let changed = after_outgoing_step(policy, step, quote);
            if changed.fee_rate_ppm != policy.fee_rate_ppm {
                Some((step, changed))
            } else {
                None
            }
        },
        None => None,
    }
}

/// The policy that the observations call for in the incoming direction, and the
/// step that leads there, if it leaves the incoming fee rate other than it was.
pub open spec fn incoming_target(
    policy: PolicyView,
    seen: ChannelObservation,
    quote: FeeRateQuote,
) -> Option<(IncomingStep, PolicyView)> {
    match incoming_plan(seen) {
        Some(step) => {
            let changed = after_incoming_step(policy, step, quote);
            if changed.inbound_fee_rate_ppm != policy.inbound_fee_rate_ppm {
                Some((step, changed))
            } else {
                None
            }
        },
        None => None,
    }
}

/// Finds the policy that the observations call for in the outgoing direction.
pub fn outgoing_policy(
    policy: &ChannelPolicy,
    seen: &ChannelObservation,
    quote: &FeeRateQuote,
) -> (r: Option<(OutgoingStep, ChannelPolicy)>)
    requires
        total_fits(seen.channel),
    ensures
        match outgoing_target(policy@, *seen, *quote) {
            Some((step, changed)) => r matches Some(found) && found.0 == step && found.1@
                == changed,
            None => r is None,
        },
{
    match outgoing_step(seen) {
        Some(step) => {
            let changed = take_outgoing_step(policy, step, quote);
            if changed.fee_rate_ppm != policy.fee_rate_ppm {
                Some((step, changed))
            } else {
                None
            }
        },
        None => None,
    }
}

/// Finds the policy that the observations call for in the incoming direction.
pub fn incoming_policy(
    policy: &ChannelPolicy,
    seen: &ChannelObservation,
    quote: &FeeRateQuote,
) -> (r: Option<(IncomingStep, ChannelPolicy)>)
    requires
        total_fits(seen.channel),
    ensures
        match incoming_target(policy@, *seen, *quote) {
            Some((step, changed)) => r matches Some(found) && found.0 == step && found.1@
                == changed,
            None => r is None,
        },
{
    match incoming_step(seen) {
        Some(step) => {
            let changed = take_incoming_step(policy, step, quote);
            if changed.inbound_fee_rate_ppm != policy.inbound_fee_rate_ppm {
                Some((step, changed))
            } else {
                None
            }
        },
        None => None,
    }
}

/// The change of the outgoing fee rate, if one is called for.
pub open spec fn outgoing_changes(
    policy: PolicyView,
    seen: ChannelObservation,
    quote: FeeRateQuote,
    now: int,
) -> Seq<ChangeView> {
    match outgoing_target(policy, seen, quote) {
        Some((step, changed)) => seq![
            ChangeView {
                apply_at: change_time(
                    seen.last_outbound_policy,
                    CHANNEL_POLICY_CHANGE_COOLDOWN as int,
                    now,
                ),
                channel: seen.channel,
                action: outgoing_action(step),
                reason: outgoing_reason(step, seen),
                old_policy: policy,
                new_policy: changed,
            },
        ],
        None => Seq::empty(),
    }
}

/// The change of the incoming fee rate, if one is called for.
pub open spec fn incoming_changes(
    policy: PolicyView,
    seen: ChannelObservation,
    quote: FeeRateQuote,
    now: int,
) -> Seq<ChangeView> {
    match incoming_target(policy, seen, quote) {
        Some((step, changed)) => seq![
            ChangeView {
                apply_at: change_time(
                    seen.last_inbound_policy,
                    CHANNEL_POLICY_CHANGE_COOLDOWN as int,
                    now,
                ),
                channel: seen.channel,
                action: incoming_action(step),
                reason: incoming_reason(step, seen),
                old_policy: policy,
                new_policy: changed,
            },
        ],
        None => Seq::empty(),
    }
}

/// The changes of policy that are called for on a channel, the outgoing before
/// the incoming. On a channel that is not known, or on which the local node has no
/// policy, there are none.
pub open spec fn called_for(
    identity: Seq<char>,
    chan_info: Option<ChannelEdge>,
    seen: ChannelObservation,
    quote: FeeRateQuote,
    now: int,
) -> Seq<ChangeView> {
    match chan_info {
        Some(edge) => match local_policy_of(edge, identity) {
            Some(local) => {
                let policy = current_policy_of(edge, local);
                outgoing_changes(policy, seen, quote, now) + incoming_changes(
                    policy,
                    seen,
                    quote,
                    now,
                )
            },
            None => Seq::empty(),
        },
        None => Seq::empty(),
    }
}

/// The views of a list of changes.
pub open spec fn change_views(changes: Seq<ChannelPolicyChange>) -> Seq<ChangeView> {
    changes.map_values(|change: ChannelPolicyChange| change@)
}

/// Whether what is known of a channel can be worked with: the funding output has
/// two parts, the balances add up in 64 bits, and the cooldown before each change
/// that is called for ends within the calendar.
pub open spec fn workable(
    identity: Seq<char>,
    chan_info: Option<ChannelEdge>,
    seen: ChannelObservation,
    quote: FeeRateQuote,
) -> bool {
    chan_info matches Some(edge) ==> (local_policy_of(edge, identity) matches Some(local) ==> {
        let policy = current_policy_of(edge, local);
        let cooldown = CHANNEL_POLICY_CHANGE_COOLDOWN as int;
        &&& edge.chan_point@.contains(':')
        &&& total_fits(seen.channel)
        &&& outgoing_target(policy, seen, quote) is Some ==> cooldown_in_calendar(
            seen.last_outbound_policy,
            cooldown,
        )
        &&& incoming_target(policy, seen, quote) is Some ==> cooldown_in_calendar(
            seen.last_inbound_policy,
            cooldown,
        )
    })
}

/// Tests whether a channel's two balances add up in 64 bits.
pub fn balances_fit(channel: &Channel) -> (r: bool)
    ensures
        r == total_fits(*channel),
{
    channel.local_balance.checked_add(channel.remote_balance).is_some()
}

/// Tests whether the end of the cooldown after the last change lies in the
/// calendar.
fn cooldown_ends(last_policy: &Option<EdgePolicyHistoryRecord>) -> (r: bool)
    ensures
        r == cooldown_in_calendar(*last_policy, CHANNEL_POLICY_CHANGE_COOLDOWN as int),
{
    match last_policy {
        Some(last) => last.valid_from.can_plus_seconds(CHANNEL_POLICY_CHANGE_COOLDOWN),
        None => true,
    }
}

/// Tests whether what is known of a channel can be worked with.
pub fn is_workable(
    identity: &String,
    chan_info: &Option<ChannelEdge>,
    seen: &ChannelObservation,
    quote: &FeeRateQuote,
) -> (r: bool)
    ensures
        r == workable(identity@, *chan_info, *seen, *quote),
{
    let edge = match chan_info {
        Some(edge) => edge,
        None => return true,
    };
    let local = match local_policy(edge, identity) {
        Some(local) => local,
        None => return true,
    };
    if !contains_char(edge.chan_point.as_str(), ':') || !balances_fit(&seen.channel) {
        return false;
    }
    let policy = current_policy(edge, &local);
    if outgoing_policy(&policy, seen, quote).is_some() && !cooldown_ends(
        &seen.last_outbound_policy,
    ) {
        return false;
    }
    incoming_policy(&policy, seen, quote).is_none() || cooldown_ends(&seen.last_inbound_policy)
}

/// Finds the changes of policy that are called for on a channel, given the current
/// time.
pub fn channel_policy_changes(
    identity: &String,
    chan_info: &Option<ChannelEdge>,
    seen: &ChannelObservation,
    quote: &FeeRateQuote,
    now: Timestamp,
) -> (r: Vec<ChannelPolicyChange>)
    requires
        workable(identity@, *chan_info, *seen, *quote),
    ensures
        change_views(r@) == called_for(identity@, *chan_info, *seen, *quote, now@),
{
    let mut changes: Vec<ChannelPolicyChange> = Vec::new();
    assert(change_views(changes@) =~= Seq::empty());
    let edge = match chan_info {
        Some(edge) => edge,
        None => return changes,
    };
    let local = match local_policy(edge, identity) {
        Some(local) => local,
        None => return changes,
    };
    let policy = current_policy(edge, &local);
    if let Some((step, changed)) = outgoing_policy(&policy, seen, quote) {
        changes.push(
            ChannelPolicyChange {
                apply_at: policy_change_time(
                    seen.last_outbound_policy.as_ref(),
                    CHANNEL_POLICY_CHANGE_COOLDOWN,
                    now,
                ),
                channel: seen.channel.clone(),
                action: outgoing_action_text(step),
                reason: outgoing_reason_text(step, seen),
                old_policy: policy.clone(),
                new_policy: changed,
            },
        );
    }
    assert(change_views(changes@) =~= outgoing_changes(policy@, *seen, *quote, now@));
    let ghost outgoing = changes@;
    if let Some((step, changed)) = incoming_policy(&policy, seen, quote) {
        changes.push(
            ChannelPolicyChange {
                apply_at: policy_change_time(
                    seen.last_inbound_policy.as_ref(),
                    CHANNEL_POLICY_CHANGE_COOLDOWN,
                    now,
                ),
                channel: seen.channel.clone(),
                action: incoming_action_text(step),
                reason: incoming_reason_text(step, seen),
                old_policy: policy.clone(),
                new_policy: changed,
            },
        );
    }
    assert(change_views(changes@) =~= change_views(outgoing) + incoming_changes(
        policy@,
        *seen,
        *quote,
        now@,
    ));
    changes
}

/// Finds the changes of policy that are called for on a channel now. Each may be
/// applied a cooldown after the last change in its direction, or at once where
/// there was none.
pub fn process_channel(
    identity: &String,
    chan_info: &Option<ChannelEdge>,
    seen: &ChannelObservation,
    quote: &FeeRateQuote,
) -> (r: Vec<ChannelPolicyChange>)
    requires
        workable(identity@, *chan_info, *seen, *quote),
    ensures
        exists|now: int|
            {
                &&& in_calendar(now)
                &&& now >= 0
                &&& change_views(r@) == #[trigger] called_for(
                    identity@,
                    *chan_info,
                    *seen,
                    *quote,
                    now,
                )
            },
{
    channel_policy_changes(identity, chan_info, seen, quote, Timestamp::now())
}

// What holds of every change that is called for.

/// A change of policy starts from the policy that is set, and touches nothing but
/// the two fee rates; it does touch one of them. There are at most two, the first
/// of them of the outgoing rate where that is changed at all.
pub proof fn law_changes_touch_only_rates(
    identity: Seq<char>,
    edge: ChannelEdge,
    local: RoutingPolicy,
    seen: ChannelObservation,
    quote: FeeRateQuote,
    now: int,
)
    requires
        local_policy_of(edge, identity) == Some(local),
    ensures
        ({
            let changes = called_for(identity, Some(edge), seen, quote, now);
            &&& changes.len() <= 2
            &&& forall|i: int|
                0 <= i < changes.len() ==> {
                    let change = #[trigger] changes[i];
                    &&& change.channel == seen.channel
                    &&& change.old_policy == current_policy_of(edge, local)
                    &&& change.new_policy == (PolicyView {
                        fee_rate_ppm: change.new_policy.fee_rate_ppm,
                        inbound_fee_rate_ppm: change.new_policy.inbound_fee_rate_ppm,
                        ..change.old_policy
                    })
                    &&& change.new_policy != change.old_policy
                    &&& i == 1 ==> change.new_policy.fee_rate_ppm
                        == change.old_policy.fee_rate_ppm
                }
        }),
{
}

/// No change of policy turns the outgoing fee rate into one under zero.
pub proof fn law_outgoing_rate_is_never_negative(
    identity: Seq<char>,
    chan_info: Option<ChannelEdge>,
    seen: ChannelObservation,
    quote: FeeRateQuote,
    now: int,
    i: int,
)
    requires
        0 <= i < called_for(identity, chan_info, seen, quote, now).len(),
    ensures
        ({
            let change = called_for(identity, chan_info, seen, quote, now)[i];
            change.new_policy.fee_rate_ppm != change.old_policy.fee_rate_ppm
                ==> change.new_policy.fee_rate_ppm >= 0
        }),
{
}

/// A step that raises the outgoing fee rate leaves the incoming one alone. A step
/// that lowers it never deepens the discount, and holds it within the limit.
pub proof fn law_lower_rate_bounds_discount(
    policy: PolicyView,
    step: OutgoingStep,
    quote: FeeRateQuote,
)
    ensures
        outgoing_percent(step) > 0 ==> after_outgoing_step(policy, step, quote).inbound_fee_rate_ppm
            == policy.inbound_fee_rate_ppm,
        outgoing_percent(step) < 0 ==> {
            &&& after_outgoing_step(policy, step, quote).inbound_fee_rate_ppm
                >= policy.inbound_fee_rate_ppm
            &&& after_outgoing_step(policy, step, quote).inbound_fee_rate_ppm
                >= quote.outgoing_discount_limit
        },
{
}

/// A step that deepens the discount holds it within the limit. No step turns the
/// discount into a surcharge, unless it was quoted as one where the discount is
/// to be deepened, or the limit is one.
pub proof fn law_incoming_rate_is_a_discount(step: IncomingStep, quote: FeeRateQuote)
    ensures
        step == IncomingStep::DeepenScarce || step == IncomingStep::DeepenIdle
            ==> inbound_rate_after(step, quote) >= quote.incoming_discount_limit,
        quote.incoming_discount_limit <= 0 && (step == IncomingStep::DeepenIdle ==> quote.incoming
            <= 0) ==> inbound_rate_after(step, quote) <= 0,
{
}

/// Between the marks nothing is changed: a channel with liquidity at the local end
/// over which some payments are forwarded in each direction, but not many, keeps
/// its policy.
pub proof fn law_moderate_traffic_changes_nothing(
    identity: Seq<char>,
    chan_info: Option<ChannelEdge>,
    seen: ChannelObservation,
    quote: FeeRateQuote,
    now: int,
)
    requires
        outbound_liquidity(seen.channel),
        2 <= seen.outgoing_forwards.successful_forwards_count <= 20,
        2 <= seen.incoming_forwards.successful_forwards_count <= 20,
    ensures
        called_for(identity, chan_info, seen, quote, now).len() == 0,
{
}

/// A change of the outgoing fee rate is applied only when the cooldown after the
/// last change in that direction has passed; so is a change of the incoming fee
/// rate alone. (A change that lowers the outgoing fee rate may make the discount
/// smaller along with it.)
pub proof fn law_cooldown_is_kept(
    identity: Seq<char>,
    chan_info: Option<ChannelEdge>,
    seen: ChannelObservation,
    quote: FeeRateQuote,
    now: int,
    i: int,
    applied_at: int,
)
    requires
        0 <= i < called_for(identity, chan_info, seen, quote, now).len(),
        called_for(identity, chan_info, seen, quote, now)[i].apply_at < applied_at,
    ensures
        ({
            let change = called_for(identity, chan_info, seen, quote, now)[i];
            let last = if change.new_policy.fee_rate_ppm != change.old_policy.fee_rate_ppm {
                seen.last_outbound_policy
            } else {
                seen.last_inbound_policy
            };
            last matches Some(last) ==> applied_at - last.valid_from@ > seconds(
                CHANNEL_POLICY_CHANGE_COOLDOWN as int,
            )
        }),
{
}

/// Whether a reason ends with the window over which forwards are counted.
pub open spec fn names_history_window(reason: Seq<char>) -> bool {
    let window = " (window: "@ + span_notation(FORWARDING_HISTORY_WINDOW as int) + ")"@;
    reason.len() >= window.len() && reason.skip(reason.len() - window.len()) == window
}

/// Whether a step of the incoming fee rate is taken for a count of forwards, and
/// not for want of liquidity alone.
pub open spec fn rests_on_count(step: IncomingStep) -> bool {
    step != IncomingStep::DeepenScarce && step != IncomingStep::Drop
}

/// A change that is called for by a count of forwards names, in its reason, the
/// window over which they were counted. The only changes that are not are those of
/// the incoming fee rate for want of liquidity.
pub proof fn law_reasons_name_the_window(
    identity: Seq<char>,
    chan_info: Option<ChannelEdge>,
    seen: ChannelObservation,
    quote: FeeRateQuote,
    now: int,
    i: int,
)
    requires
        0 <= i < called_for(identity, chan_info, seen, quote, now).len(),
    ensures
        ({
            let change = called_for(identity, chan_info, seen, quote, now)[i];
            change.new_policy.fee_rate_ppm != change.old_policy.fee_rate_ppm || rests_on_count(
                incoming_plan(seen)->0,
            ) ==> names_history_window(change.reason)
        }),
{
    let window = " (window: "@ + span_notation(FORWARDING_HISTORY_WINDOW as int) + ")"@;
    let reason = called_for(identity, chan_info, seen, quote, now)[i].reason;
    if outgoing_plan(seen) is Some && reason == outgoing_reason(outgoing_plan(seen)->0, seen) {
        assert(reason.skip(reason.len() - window.len()) =~= window);
    } else if rests_on_count(incoming_plan(seen)->0) {
        assert(reason.skip(reason.len() - window.len()) =~= window);
    }
}

// What each change rests on, and what it comes to.

/// On a channel without liquidity at its local end, the outgoing step rests on how
/// many forwards were tried, and on nothing else: it raises the rate where they are
/// more than 30, and lowers it where they are fewer than 24. How many of them
/// succeeded does not matter.
pub proof fn law_scarce_outgoing_step_rests_on_tries(
    seen: ChannelObservation,
    other: ChannelObservation,
)
    requires
        !has_liquidity(
            seen.channel.local_balance as int,
            seen.channel.local_balance + seen.channel.remote_balance,
        ),
        other.channel.local_balance == seen.channel.local_balance,
        other.channel.remote_balance == seen.channel.remote_balance,
        other.outgoing_forwards.total_forwards_count == seen.outgoing_forwards.total_forwards_count,
    ensures
        outgoing_plan(seen) == Some(OutgoingStep::RaiseScarce)
            <==> seen.outgoing_forwards.total_forwards_count > 30,
        outgoing_plan(seen) == Some(OutgoingStep::LowerScarce)
            <==> seen.outgoing_forwards.total_forwards_count < 24,
        outgoing_plan(seen) is None <==> 24 <= seen.outgoing_forwards.total_forwards_count <= 30,
        outgoing_plan(other) == outgoing_plan(seen),
{
}

/// On a channel with liquidity at its local end, the outgoing step rests on how many
/// forwards succeeded, and on nothing else: it raises the rate where they are more
/// than 20, and lowers it where they are fewer than 2. How many were tried does not
/// matter.
pub proof fn law_outgoing_step_rests_on_successes(
    seen: ChannelObservation,
    other: ChannelObservation,
)
    requires
        has_liquidity(
            seen.channel.local_balance as int,
            seen.channel.local_balance + seen.channel.remote_balance,
        ),
        other.channel.local_balance == seen.channel.local_balance,
        other.channel.remote_balance == seen.channel.remote_balance,
        other.outgoing_forwards.successful_forwards_count
            == seen.outgoing_forwards.successful_forwards_count,
    ensures
        outgoing_plan(seen) == Some(OutgoingStep::RaiseBusy)
            <==> seen.outgoing_forwards.successful_forwards_count > 20,
        outgoing_plan(seen) == Some(OutgoingStep::LowerIdle)
            <==> seen.outgoing_forwards.successful_forwards_count < 2,
        outgoing_plan(seen) is None <==> 2 <= seen.outgoing_forwards.successful_forwards_count
            <= 20,
        outgoing_plan(other) == outgoing_plan(seen),
{
}

/// The incoming step rests on the liquidity of both ends and on the forwards that
/// came in, in this order: without liquidity to forward outwards the discount is
/// deepened, whatever came in; where more than 20 forwards succeeded it is reduced;
/// where fewer than 2 did, it is dropped without liquidity to forward inwards,
/// however many were tried, and else reduced where more than 20 were tried and
/// deepened where fewer than 2 were.
pub proof fn law_incoming_step_rests_on_liquidity_first(
    seen: ChannelObservation,
    other: ChannelObservation,
)
    requires
        other.channel.local_balance == seen.channel.local_balance,
        other.channel.remote_balance == seen.channel.remote_balance,
        other.incoming_forwards.total_forwards_count == seen.incoming_forwards.total_forwards_count,
        other.incoming_forwards.successful_forwards_count
            == seen.incoming_forwards.successful_forwards_count,
    ensures
        ({
            let total_balance = seen.channel.local_balance + seen.channel.remote_balance;
            let outbound = has_liquidity(seen.channel.local_balance as int, total_balance);
            let inbound = has_liquidity(seen.channel.remote_balance as int, total_balance);
            let tried = seen.incoming_forwards.total_forwards_count;
            let successful = seen.incoming_forwards.successful_forwards_count;
            let step = incoming_plan(seen);
            &&& step == Some(IncomingStep::DeepenScarce) <==> !outbound
            &&& step == Some(IncomingStep::ReduceBusy) <==> outbound && successful > 20
            &&& step == Some(IncomingStep::Drop) <==> outbound && successful < 2 && !inbound
            &&& step == Some(IncomingStep::ReduceFailing) <==> outbound && successful < 2 && inbound
                && tried > 20
            &&& step == Some(IncomingStep::DeepenIdle) <==> outbound && successful < 2 && inbound
                && tried < 2
            &&& step is None <==> outbound && successful <= 20 && (successful >= 2 || inbound && 2
                <= tried <= 20)
        }),
        incoming_plan(other) == incoming_plan(seen),
{
}

/// Whether the outgoing fee rate is set to `rate`, together with the inbound fee
/// rate `inbound`: by every change that changes it, and by some change unless it is
/// `rate` already.
pub open spec fn sets_outgoing(
    changes: Seq<ChangeView>,
    current: RoutingPolicy,
    rate: int,
    inbound: int,
) -> bool {
    &&& forall|i: int|
        0 <= i < changes.len() && (#[trigger] changes[i]).new_policy.fee_rate_ppm
            != current.fee_rate_milli_msat ==> changes[i].new_policy.fee_rate_ppm == rate
            && changes[i].new_policy.inbound_fee_rate_ppm == inbound
    &&& rate != current.fee_rate_milli_msat ==> exists|i: int|
        0 <= i < changes.len() && (#[trigger] changes[i]).new_policy.fee_rate_ppm == rate
}

/// Whether the inbound fee rate is set to `rate` by every change that leaves the
/// outgoing fee rate alone, and by some such change unless it is `rate` already.
pub open spec fn sets_inbound(changes: Seq<ChangeView>, current: RoutingPolicy, rate: int) -> bool {
    &&& forall|i: int|
        0 <= i < changes.len() && (#[trigger] changes[i]).new_policy.fee_rate_ppm
            == current.fee_rate_milli_msat ==> changes[i].new_policy.inbound_fee_rate_ppm == rate
            && rate != current.inbound_fee_rate_milli_msat
    &&& rate != current.inbound_fee_rate_milli_msat ==> exists|i: int|
        0 <= i < changes.len() && (#[trigger] changes[i]).new_policy.fee_rate_ppm
            == current.fee_rate_milli_msat && changes[i].new_policy.inbound_fee_rate_ppm == rate
}

/// Whether no change changes the outgoing fee rate.
pub open spec fn leaves_outgoing(changes: Seq<ChangeView>, current: RoutingPolicy) -> bool {
    forall|i: int|
        0 <= i < changes.len() ==> (#[trigger] changes[i]).new_policy.fee_rate_ppm
            == current.fee_rate_milli_msat
}

/// Whether every change changes the outgoing fee rate.
pub open spec fn leaves_inbound(changes: Seq<ChangeView>, current: RoutingPolicy) -> bool {
    forall|i: int|
        0 <= i < changes.len() ==> (#[trigger] changes[i]).new_policy.fee_rate_ppm
            != current.fee_rate_milli_msat
}

/// What is called for in the outgoing direction, on a channel on which the local
/// node has a policy. Without liquidity at the local end, more than 30 forwards that
/// were tried set the rate as it was quoted, and fewer than 24 do so along with a
/// discount within the limit; with liquidity, more than 20 that succeeded and fewer
/// than 2 do. The rate is never set under zero. Else the rate stays.
pub proof fn law_outgoing_rate_follows_the_forwards(
    identity: Seq<char>,
    edge: ChannelEdge,
    local: RoutingPolicy,
    seen: ChannelObservation,
    quote: FeeRateQuote,
    now: int,
)
    requires
        local_policy_of(edge, identity) == Some(local),
    ensures
        ({
            let changes = called_for(identity, Some(edge), seen, quote, now);
            let outbound = has_liquidity(
                seen.channel.local_balance as int,
                seen.channel.local_balance + seen.channel.remote_balance,
            );
            let tried = seen.outgoing_forwards.total_forwards_count;
            let successful = seen.outgoing_forwards.successful_forwards_count;
            let rate = if quote.outgoing < 0 {
                0
            } else {
                quote.outgoing as int
            };
            let inbound = local.inbound_fee_rate_milli_msat as int;
            let held = if quote.outgoing_discount_limit > inbound {
                quote.outgoing_discount_limit as int
            } else {
                inbound
            };
            &&& !outbound && tried > 30 ==> sets_outgoing(changes, local, rate, inbound)
            &&& !outbound && tried < 24 ==> sets_outgoing(changes, local, rate, held)
            &&& !outbound && 24 <= tried <= 30 ==> leaves_outgoing(changes, local)
            &&& outbound && successful > 20 ==> sets_outgoing(changes, local, rate, inbound)
            &&& outbound && successful < 2 ==> sets_outgoing(changes, local, rate, held)
            &&& outbound && 2 <= successful <= 20 ==> leaves_outgoing(changes, local)
        }),
{
    let changes = called_for(identity, Some(edge), seen, quote, now);
    let policy = current_policy_of(edge, local);
    if outgoing_target(policy, seen, quote) is Some {
        assert(changes[0].new_policy == (outgoing_target(policy, seen, quote)->0).1);
    }
}

/// What is called for in the incoming direction, on a channel on which the local
/// node has a policy. Without liquidity at the local end, the discount is set as it
/// was quoted, within the limit, and never to a surcharge unless the limit is one.
/// With it, more than 20 forwards that succeeded set the discount as it was quoted,
/// to nothing at least. Fewer than 2 set it to nothing where the remote end has no
/// liquidity, however many were tried; where it has some, more than 20 that were
/// tried set it as it was quoted, to nothing at least, and fewer than 2 set it as it
/// was quoted, within the limit. Else it stays.
pub proof fn law_inbound_rate_follows_the_forwards(
    identity: Seq<char>,
    edge: ChannelEdge,
    local: RoutingPolicy,
    seen: ChannelObservation,
    quote: FeeRateQuote,
    now: int,
)
    requires
        local_policy_of(edge, identity) == Some(local),
    ensures
        ({
            let changes = called_for(identity, Some(edge), seen, quote, now);
            let total_balance = seen.channel.local_balance + seen.channel.remote_balance;
            let outbound = has_liquidity(seen.channel.local_balance as int, total_balance);
            let inbound = has_liquidity(seen.channel.remote_balance as int, total_balance);
            let tried = seen.incoming_forwards.total_forwards_count;
            let successful = seen.incoming_forwards.successful_forwards_count;
            let quoted = quote.incoming as int;
            let limit = quote.incoming_discount_limit as int;
            let discount = if quoted > 0 {
                0
            } else {
                quoted
            };
            let held = if limit > discount {
                limit
            } else {
                discount
            };
            let quoted_within = if limit > quoted {
                limit
            } else {
                quoted
            };
            &&& !outbound ==> sets_inbound(changes, local, held)
            &&& outbound && successful > 20 ==> sets_inbound(changes, local, discount)
            &&& outbound && 2 <= successful <= 20 ==> leaves_inbound(changes, local)
            &&& outbound && successful < 2 && !inbound ==> sets_inbound(changes, local, 0)
            &&& outbound && successful < 2 && inbound && tried > 20 ==> sets_inbound(
                changes,
                local,
                discount,
            )
            &&& outbound && successful < 2 && inbound && tried < 2 ==> sets_inbound(
                changes,
                local,
                quoted_within,
            )
            &&& outbound && successful < 2 && inbound && 2 <= tried <= 20 ==> leaves_inbound(
                changes,
                local,
            )
        }),
{
    let changes = called_for(identity, Some(edge), seen, quote, now);
    let policy = current_policy_of(edge, local);
    if incoming_target(policy, seen, quote) is Some {
        assert(changes[changes.len() - 1].new_policy == (incoming_target(policy, seen, quote)->0).1);
    }
}

/// Where nothing can come in, the discount is dropped: on a channel with liquidity at
/// the local end and none at the remote end, over which fewer than 2 forwards came
/// in successfully, every change that leaves the outgoing fee rate alone sets the
/// inbound fee rate to 0, and there is one unless it is 0 already.
pub proof fn law_discount_is_dropped_where_nothing_comes_in(
    identity: Seq<char>,
    edge: ChannelEdge,
    local: RoutingPolicy,
    seen: ChannelObservation,
    quote: FeeRateQuote,
    now: int,
)
    requires
        local_policy_of(edge, identity) == Some(local),
        has_liquidity(
            seen.channel.local_balance as int,
            seen.channel.local_balance + seen.channel.remote_balance,
        ),
        !has_liquidity(
            seen.channel.remote_balance as int,
            seen.channel.local_balance + seen.channel.remote_balance,
        ),
        seen.incoming_forwards.successful_forwards_count < 2,
    ensures
        ({
            let changes = called_for(identity, Some(edge), seen, quote, now);
            &&& forall|i: int|
                0 <= i < changes.len() && (#[trigger] changes[i]).new_policy.fee_rate_ppm
                    == changes[i].old_policy.fee_rate_ppm
                    ==> changes[i].new_policy.inbound_fee_rate_ppm == 0
            &&& local.inbound_fee_rate_milli_msat != 0 ==> exists|i: int|
                0 <= i < changes.len() && (#[trigger] changes[i]).new_policy.fee_rate_ppm
                    == changes[i].old_policy.fee_rate_ppm
        }),
{
    law_inbound_rate_follows_the_forwards(identity, edge, local, seen, quote, now);
    let changes = called_for(identity, Some(edge), seen, quote, now);
    if local.inbound_fee_rate_milli_msat != 0 {
        assert(changes[changes.len() - 1].new_policy.fee_rate_ppm
            == local.fee_rate_milli_msat);
    }
}

/// A change of the outgoing fee rate waits four hours from the last change of that
/// rate, a change of the incoming one alone from the last change of that; each may
/// be applied now where there was none.
pub proof fn law_each_direction_waits_for_itself(
    identity: Seq<char>,
    chan_info: Option<ChannelEdge>,
    seen: ChannelObservation,
    quote: FeeRateQuote,
    now: int,
    i: int,
)
    requires
        0 <= i < called_for(identity, chan_info, seen, quote, now).len(),
    ensures
        ({
            let change = called_for(identity, chan_info, seen, quote, now)[i];
            let last = if change.new_policy.fee_rate_ppm != change.old_policy.fee_rate_ppm {
                seen.last_outbound_policy
            } else {
                seen.last_inbound_policy
            };
            match last {
                Some(last) => change.apply_at == last.valid_from@ + 14_400_000_000_000,
                None => change.apply_at == now,
            }
        }),
{
}

/// A change of the outgoing fee rate tells what is done and why: by how many percent
/// the rate goes up or down, where the liquidity lies, and which count passed which
/// mark within 48 hours.
pub proof fn law_outgoing_changes_tell_why(
    identity: Seq<char>,
    chan_info: Option<ChannelEdge>,
    seen: ChannelObservation,
    quote: FeeRateQuote,
    now: int,
    i: int,
)
    requires
        0 <= i < called_for(identity, chan_info, seen, quote, now).len(),
        called_for(identity, chan_info, seen, quote, now)[i].new_policy.fee_rate_ppm
            != called_for(identity, chan_info, seen, quote, now)[i].old_policy.fee_rate_ppm,
    ensures
        ({
            let change = called_for(identity, chan_info, seen, quote, now)[i];
            let liquidity = category_name(seen.channel_balance_category);
            let window = " (window: "@ + span_notation(172_800) + ")"@;
            let tried = decimal_int(seen.outgoing_forwards.total_forwards_count as int);
            let successful = decimal_int(seen.outgoing_forwards.successful_forwards_count as int);
            if !has_liquidity(
                seen.channel.local_balance as int,
                seen.channel.local_balance + seen.channel.remote_balance,
            ) {
                if seen.outgoing_forwards.total_forwards_count > 30 {
                    &&& change.action == "Increase Outgoing Fee Rate by 1%"@
                    &&& change.reason == liquidity + "; Outgoing Forward Count "@ + tried + " > "@
                        + decimal(30) + window
                } else {
                    &&& change.action == "Decrease Outgoing Fee Rate by 1%"@
                    &&& change.reason == liquidity + "; Outgoing Forward Count "@ + tried + " < "@
                        + decimal(24) + window
                }
            } else if seen.outgoing_forwards.successful_forwards_count > 20 {
                &&& change.action == "Increase Outgoing Fee Rate by 2%"@
                &&& change.reason == liquidity + "; Outgoing Successful Forward Count "@
                    + successful + " > "@ + decimal(20) + window
            } else {
                &&& change.action == "Decrease Outgoing Fee Rate by 1%"@
                &&& change.reason == liquidity + "; Outgoing Successful Forward Count "@
                    + successful + " < "@ + decimal(2) + window
            }
        }),
{
    let change = called_for(identity, chan_info, seen, quote, now)[i];
    let liquidity = category_name(seen.channel_balance_category);
    let window = " (window: "@ + span_notation(172_800) + ")"@;
    let tried = decimal_int(seen.outgoing_forwards.total_forwards_count as int);
    let successful = decimal_int(seen.outgoing_forwards.successful_forwards_count as int);
    match outgoing_plan(seen)->0 {
        OutgoingStep::RaiseScarce => assert(change.reason =~= liquidity
            + "; Outgoing Forward Count "@ + tried + " > "@ + decimal(30) + window),
        OutgoingStep::LowerScarce => assert(change.reason =~= liquidity
            + "; Outgoing Forward Count "@ + tried + " < "@ + decimal(24) + window),
        OutgoingStep::RaiseBusy => assert(change.reason =~= liquidity
            + "; Outgoing Successful Forward Count "@ + successful + " > "@ + decimal(20) + window),
        OutgoingStep::LowerIdle => assert(change.reason =~= liquidity
            + "; Outgoing Successful Forward Count "@ + successful + " < "@ + decimal(2) + window),
    }
}

/// A change of the incoming fee rate alone tells what is done and why, likewise.
pub proof fn law_incoming_changes_tell_why(
    identity: Seq<char>,
    chan_info: Option<ChannelEdge>,
    seen: ChannelObservation,
    quote: FeeRateQuote,
    now: int,
    i: int,
)
    requires
        0 <= i < called_for(identity, chan_info, seen, quote, now).len(),
        called_for(identity, chan_info, seen, quote, now)[i].new_policy.fee_rate_ppm
            == called_for(identity, chan_info, seen, quote, now)[i].old_policy.fee_rate_ppm,
    ensures
        ({
            let change = called_for(identity, chan_info, seen, quote, now)[i];
            let liquidity = category_name(seen.channel_balance_category);
            let window = " (window: "@ + span_notation(172_800) + ")"@;
            let total_balance = seen.channel.local_balance + seen.channel.remote_balance;
            let tried = decimal_int(seen.incoming_forwards.total_forwards_count as int);
            let successful = decimal_int(seen.incoming_forwards.successful_forwards_count as int);
            if !has_liquidity(seen.channel.local_balance as int, total_balance) {
                &&& change.action == "Increase Incoming Fee Rate Discount by 5%"@
                &&& change.reason == liquidity + "; "@
            } else if seen.incoming_forwards.successful_forwards_count > 20 {
                &&& change.action == "Decrease Incoming Fee Rate Discount by 15%"@
                &&& change.reason == liquidity + "; Incoming Successful Forward Count "@
                    + successful + " > "@ + decimal(20) + window
            } else if !has_liquidity(seen.channel.remote_balance as int, total_balance) {
                &&& change.action == "Set Incoming Fee Rate Discount to 0"@
                &&& change.reason == liquidity
            } else if seen.incoming_forwards.total_forwards_count > 20 {
                &&& change.action == "Decrease Incoming Fee Rate Discount by 10%"@
                &&& change.reason == "Incoming Forward Count "@ + tried + " > "@ + decimal(20)
                    + window
            } else {
                &&& change.action == "Increase Incoming Fee Rate Discount by 5%"@
                &&& change.reason == "Incoming Forward Count "@ + tried + " < "@ + decimal(2)
                    + window
            }
        }),
{
    let change = called_for(identity, chan_info, seen, quote, now)[i];
    let liquidity = category_name(seen.channel_balance_category);
    let window = " (window: "@ + span_notation(172_800) + ")"@;
    let tried = decimal_int(seen.incoming_forwards.total_forwards_count as int);
    let successful = decimal_int(seen.incoming_forwards.successful_forwards_count as int);
    match incoming_plan(seen)->0 {
        IncomingStep::DeepenScarce => {},
        IncomingStep::ReduceBusy => assert(change.reason =~= liquidity
            + "; Incoming Successful Forward Count "@ + successful + " > "@ + decimal(20) + window),
        IncomingStep::Drop => {},
        IncomingStep::ReduceFailing => assert(change.reason =~= "Incoming Forward Count "@ + tried
            + " > "@ + decimal(20) + window),
        IncomingStep::DeepenIdle => assert(change.reason =~= "Incoming Forward Count "@ + tried
            + " < "@ + decimal(2) + window),
    }
}

/// The local node's policy on a channel is the one at the end that has its public
/// key, the first end before the second; on a channel of others it has none.
pub proof fn law_local_policy_is_at_the_local_end(edge: ChannelEdge, identity: Seq<char>)
    ensures
        edge.node1_pub@ == identity ==> local_policy_of(edge, identity) == edge.node1_policy,
        edge.node1_pub@ != identity && edge.node2_pub@ == identity ==> local_policy_of(
            edge,
            identity,
        ) == edge.node2_policy,
        edge.node1_pub@ != identity && edge.node2_pub@ != identity ==> local_policy_of(
            edge,
            identity,
        ) is None,
{
}

/// No change is called for on a channel that is not known, or on which the local node
/// has no policy.
pub proof fn law_without_a_policy_nothing_changes(
    identity: Seq<char>,
    edge: ChannelEdge,
    seen: ChannelObservation,
    quote: FeeRateQuote,
    now: int,
)
    ensures
        called_for(identity, None, seen, quote, now).len() == 0,
        local_policy_of(edge, identity) is None ==> called_for(
            identity,
            Some(edge),
            seen,
            quote,
            now,
        ).len() == 0,
{
}

/// The policy as it is set is the one that the node told, field by field, and the
/// funding output is read back as it was written: the transaction before the colon,
/// the number of the output behind it.
pub proof fn law_policy_is_taken_over(
    edge: ChannelEdge,
    local: RoutingPolicy,
    txid: Seq<char>,
    output_index: u32,
)
    requires
        !txid.contains(':'),
        edge.chan_point@ == txid + seq![':'] + decimal(output_index as nat),
    ensures
        ({
            let policy = current_policy_of(edge, local);
            &&& policy.funding_txid == txid
            &&& policy.output_index == output_index
            &&& policy.base_fee_msat == local.fee_base_msat
            &&& policy.fee_rate_ppm == local.fee_rate_milli_msat
            &&& policy.time_lock_delta == local.time_lock_delta
            &&& policy.max_htlc_msat == local.max_htlc_msat
            &&& policy.inbound_fee_base_msat == local.inbound_fee_base_msat
            &&& policy.inbound_fee_rate_ppm == local.inbound_fee_rate_milli_msat
        }),
{
    let digits = decimal(output_index as nat);
    law_decimals_read_back(output_index as nat);
    assert(!digits.contains(':'));
    law_two_pieces_are_told_apart(txid, digits, ':');
    law_numbers_are_parsed(output_index, digits);
}

/// An output that is no number counts as the first.
pub proof fn law_unreadable_output_is_the_first(
    edge: ChannelEdge,
    local: RoutingPolicy,
    txid: Seq<char>,
    output: Seq<char>,
)
    requires
        !txid.contains(':'),
        !output.contains(':'),
        edge.chan_point@ == txid + seq![':'] + output,
        output.len() == 0 || output[0] != '+' && digits_value(output) is None,
    ensures
        current_policy_of(edge, local).funding_txid == txid,
        current_policy_of(edge, local).output_index == 0,
{
    law_two_pieces_are_told_apart(txid, output, ':');
    law_numbers_are_parsed(0, output);
}

/// What is known of a channel can be worked with where there is nothing to work
/// out; else it takes a funding output with a colon, balances that add up, and, for
/// each change that is called for, a cooldown that ends within the calendar.
pub proof fn law_what_can_be_worked_with(
    identity: Seq<char>,
    edge: ChannelEdge,
    seen: ChannelObservation,
    quote: FeeRateQuote,
    now: int,
)
    ensures
        workable(identity, None, seen, quote),
        local_policy_of(edge, identity) is None ==> workable(identity, Some(edge), seen, quote),
        workable(identity, Some(edge), seen, quote) && local_policy_of(edge, identity) is Some ==> {
            &&& edge.chan_point@.contains(':')
            &&& i64::MIN <= seen.channel.local_balance + seen.channel.remote_balance <= i64::MAX
            &&& in_calendar(now) ==> forall|i: int|
                0 <= i < called_for(identity, Some(edge), seen, quote, now).len() ==> in_calendar(
                    (#[trigger] called_for(identity, Some(edge), seen, quote, now)[i]).apply_at,
                )
        },
        edge.chan_point@.contains(':') && i64::MIN <= seen.channel.local_balance
            + seen.channel.remote_balance <= i64::MAX && (seen.last_outbound_policy matches Some(
            last,
        ) ==> in_calendar(last.valid_from@ + 14_400_000_000_000)) && (
        seen.last_inbound_policy matches Some(last) ==> in_calendar(
            last.valid_from@ + 14_400_000_000_000,
        )) ==> workable(identity, Some(edge), seen, quote),
{
}

/// The view of a list of changes shows each change as it is, one for one: when it may
/// be applied, on which channel, what is done and why, and both policies.
pub proof fn law_changes_are_viewed_as_they_are(changes: Seq<ChannelPolicyChange>, i: int)
    requires
        0 <= i < changes.len(),
    ensures
        change_views(changes).len() == changes.len(),
        ({
            let view = change_views(changes)[i];
            let (old, new) = (changes[i].old_policy, changes[i].new_policy);
            &&& view.apply_at == changes[i].apply_at@
            &&& view.channel == changes[i].channel
            &&& view.action == changes[i].action@
            &&& view.reason == changes[i].reason@
            &&& view.old_policy.funding_txid == old.chan_point.funding_txid_str@
            &&& view.old_policy.output_index == old.chan_point.output_index
            &&& view.old_policy.fee_rate_ppm == old.fee_rate_ppm
            &&& view.old_policy.inbound_fee_rate_ppm == old.inbound_fee_rate_ppm
            &&& view.new_policy.funding_txid == new.chan_point.funding_txid_str@
            &&& view.new_policy.output_index == new.chan_point.output_index
            &&& view.new_policy.base_fee_msat == new.base_fee_msat
            &&& view.new_policy.fee_rate_ppm == new.fee_rate_ppm
            &&& view.new_policy.time_lock_delta == new.time_lock_delta
            &&& view.new_policy.max_htlc_msat == new.max_htlc_msat
            &&& view.new_policy.inbound_fee_base_msat == new.inbound_fee_base_msat
            &&& view.new_policy.inbound_fee_rate_ppm == new.inbound_fee_rate_ppm
        }),
{
}

} // verus!
