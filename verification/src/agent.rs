//! Which of the changes of policy that are called for get applied.
use crate::policy::{ChanPoint, ChangeView, ChannelPolicy, ChannelPolicyChange};
use crate::text::{
    decimal, decimal_int, decimal_text, pad_left, push_decimal, push_padded, push_signed_decimal,
    signed_decimal,
};
use crate::time::{rfc3339, Timestamp, NANOS_PER_SECOND};
use vstd::prelude::*;
use vstd::string::*;

verus! {

/// The changes of all the channels that could be looked into, one channel behind
/// the other.
pub open spec fn collected<E>(
    results: Seq<Result<Vec<ChannelPolicyChange>, E>>,
) -> Seq<ChannelPolicyChange>
    decreases results.len(),
{
    if results.len() == 0 {
        Seq::empty()
    } else {
        let before = collected(results.drop_last());
        match results.last() {
            Ok(changes) => before + changes@,
            Err(_) => before,
        }
    }
}

/// Collects the changes of all channels. A channel that could not be looked into
/// is passed over.
pub fn collect_channel_policy_changes<E>(results: Vec<Result<Vec<ChannelPolicyChange>, E>>) -> (r:
    Vec<ChannelPolicyChange>)
    ensures
        r@ == collected(results@),
{
    let mut results = results;
    let ghost all = results@;
    let mut collected_changes: Vec<ChannelPolicyChange> = Vec::new();
    assert(collected(all) + collected_changes@ =~= collected(all));
    while results.len() > 0
        invariant
            collected(results@) + collected_changes@ == collected(all),
        decreases results@.len(),
    {
        let ghost before = results@;
        if let Some(result) = results.pop() {
            assert(before.drop_last() =~= results@);
            if let Ok(changes) = result {
                let mut changes = changes;
                let ghost head = changes@;
                let ghost behind = collected_changes@;
                changes.append(&mut collected_changes);
                collected_changes = changes;
                assert(collected(results@) + (head + behind) =~= collected(results@) + head
                    + behind);
            }
        }
    }
    assert(collected(results@) + collected_changes@ =~= collected_changes@);
    collected_changes
}

/// The changes of the channels that could be looked into are collected whether or
/// not another channel could be.
pub proof fn law_failed_channels_hide_no_others<E>(
    results: Seq<Result<Vec<ChannelPolicyChange>, E>>,
    i: int,
    j: int,
)
    requires
        0 <= i < results.len(),
        results[i] is Ok,
        0 <= j < results[i]->Ok_0@.len(),
    ensures
        collected(results).contains(results[i]->Ok_0@[j]),
    decreases results.len(),
{
    let before = collected(results.drop_last());
    if i == results.len() - 1 {
        assert(collected(results)[before.len() + j] == results[i]->Ok_0@[j]);
    } else {
        law_failed_channels_hide_no_others(results.drop_last(), i, j);
        let change = results.drop_last()[i]->Ok_0@[j];
        let k = choose|k: int| 0 <= k < before.len() && before[k] == change;
        assert(collected(results)[k] == change);
    }
}

// Selection.

/// What the agent does with the changes that are called for.
#[derive(Debug)]
pub enum AgentDecision {
    /// No change is called for.
    NoChangesNeeded,
    /// The time for none of the changes has come; that for the first that was
    /// found comes at `next_at`.
    NothingReady { next_at: Timestamp },
    /// The changes at these positions are applied, in this order.
    Apply { order: Vec<usize> },
}

/// The times at which changes may be applied.
pub open spec fn times(changes: Seq<ChannelPolicyChange>) -> Seq<int> {
    changes.map_values(|change: ChannelPolicyChange| change.apply_at@)
}

/// Whether the time for some change has come.
pub open spec fn any_ready(times: Seq<int>, now: int) -> bool {
    exists|i: int| 0 <= i < times.len() && #[trigger] times[i] < now
}

/// Whether the change at `i` comes before the one at `j`: by time, and by
/// position where the times are the same.
pub open spec fn comes_before(times: Seq<int>, i: int, j: int) -> bool {
    times[i] < times[j] || (times[i] == times[j] && i < j)
}

/// Whether `order` holds the positions of all the changes whose time has come,
/// and of no others, each where it belongs.
pub open spec fn is_ready_order(times: Seq<int>, now: int, order: Seq<usize>) -> bool {
    &&& forall|k: int|
        0 <= k < order.len() ==> (#[trigger] order[k]) < times.len() && times[order[k] as int] < now
    &&& forall|i: int|
        0 <= i < times.len() && #[trigger] times[i] < now ==> i <= usize::MAX && order.contains(
            i as usize,
        )
    &&& forall|a: int, b: int|
        0 <= a < b < order.len() ==> comes_before(
            times,
            #[trigger] order[a] as int,
            #[trigger] order[b] as int,
        )
}

/// The positions of the changes whose time has come, in order.
fn ready_order(changes: &Vec<ChannelPolicyChange>, now: &Timestamp) -> (order: Vec<usize>)
    ensures
        is_ready_order(times(changes@), now@, order@),
{
    let ghost ts = times(changes@);
    let mut order: Vec<usize> = Vec::new();
    let mut i: usize = 0;
    while i < changes.len()
        invariant
            i <= changes@.len(),
            ts == times(changes@),
            forall|k: int| 0 <= k < order@.len() ==> (#[trigger] order@[k]) < i,
            is_ready_order(ts.take(i as int), now@, order@),
        decreases changes@.len() - i,
    {
        assert(ts[i as int] == changes@[i as int].apply_at@);
        let ghost before = order@;
        let ghost shown = ts.take(i as int);
        let ghost next = ts.take(i + 1);
        assert(shown =~= next.take(i as int));
        if changes[i].apply_at.is_before(now) {
            let mut p: usize = 0;
            while p < order.len() && !changes[i].apply_at.is_before(&changes[order[p]].apply_at)
                invariant
                    i < changes@.len(),
                    order@ == before,
                    p <= order@.len(),
                    ts == times(changes@),
                    forall|k: int| 0 <= k < order@.len() ==> (#[trigger] order@[k]) < i,
                    forall|k: int|
                        0 <= k < p ==> ts[(#[trigger] order@[k]) as int] <= ts[i as int],
                decreases order@.len() - p,
            {
                p = p + 1;
            }
            order.insert(p, i);
            proof {
                lemma_insert_keeps_order(shown, next, now@, before, p as int, i);
            }
        } else {
            proof {
                assert forall|j: int| 0 <= j < next.len() && #[trigger] next[j] < now@ implies j
                    <= usize::MAX && order@.contains(j as usize) by {
                    assert(j < i);
                    assert(shown[j] == next[j]);
                }
                assert forall|a: int, b: int| 0 <= a < b < order@.len() implies comes_before(
                    next,
                    #[trigger] order@[a] as int,
                    #[trigger] order@[b] as int,
                ) by {
                    assert(comes_before(shown, order@[a] as int, order@[b] as int));
                }
            }
        }
        i = i + 1;
    }
    assert(ts.take(changes@.len() as int) =~= ts);
    order
}

/// Inserting the next position where it belongs keeps the order.
proof fn lemma_insert_keeps_order(
    shown: Seq<int>,
    next: Seq<int>,
    now: int,
    before: Seq<usize>,
    p: int,
    i: usize,
)
    requires
        next.len() == i + 1,
        shown == next.take(i as int),
        next[i as int] < now,
        is_ready_order(shown, now, before),
        0 <= p <= before.len(),
        forall|k: int| 0 <= k < p ==> next[(#[trigger] before[k]) as int] <= next[i as int],
        p < before.len() ==> next[i as int] < next[before[p] as int],
    ensures
        is_ready_order(next, now, before.insert(p, i)),
        forall|k: int| 0 <= k < before.len() + 1 ==> (#[trigger] before.insert(p, i)[k]) <= i,
{
    let order = before.insert(p, i);
    assert forall|k: int| 0 <= k < order.len() implies (#[trigger] order[k]) < next.len()
        && next[order[k] as int] < now && order[k] <= i by {
        if k < p {
            assert(order[k] == before[k]);
        } else if k > p {
            assert(order[k] == before[k - 1]);
        }
    }
    assert forall|j: int| 0 <= j < next.len() && #[trigger] next[j] < now implies j <= usize::MAX
        && order.contains(j as usize) by {
        if j == i {
            assert(order[p] == i);
        } else {
            assert(shown[j] == next[j]);
            let k = choose|k: int| 0 <= k < before.len() && before[k] == j as usize;
            if k < p {
                assert(order[k] == j as usize);
            } else {
                assert(order[k + 1] == j as usize);
            }
        }
    }
    assert forall|a: int, b: int| 0 <= a < b < order.len() implies comes_before(
        next,
        #[trigger] order[a] as int,
        #[trigger] order[b] as int,
    ) by {
        let x = if a < p {
            before[a]
        } else if a == p {
            i
        } else {
            before[a - 1]
        };
        let y = if b < p {
            before[b]
        } else if b == p {
            i
        } else {
            before[b - 1]
        };
        assert(order[a] == x && order[b] == y);
        if a == p {
            assert(before[p] < shown.len());
            if b - 1 > p {
                assert(comes_before(shown, before[p] as int, before[b - 1] as int));
            }
        } else if b == p {
            assert(before[a] < shown.len());
        } else {
            assert(comes_before(shown, x as int, y as int));
        }
    }
}

/// Whether `order` holds the position of one change whose time has come, before
/// which no other such change belongs.
pub open spec fn is_first_ready(times: Seq<int>, now: int, order: Seq<usize>) -> bool {
    &&& order.len() == 1
    &&& order[0] < times.len()
    &&& times[order[0] as int] < now
    &&& forall|i: int|
        0 <= i < times.len() && #[trigger] times[i] < now ==> i == order[0] || comes_before(
            times,
            order[0] as int,
            i,
        )
}

/// Decides which changes to apply now: all whose time has come, or only the first
/// of them, in the order in which their times came.
pub fn select_changes(changes: &Vec<ChannelPolicyChange>, now: &Timestamp, all: bool) -> (r:
    AgentDecision)
    ensures
        match r {
            AgentDecision::NoChangesNeeded => changes@.len() == 0,
            AgentDecision::NothingReady { next_at } => {
                &&& changes@.len() > 0
                &&& !any_ready(times(changes@), now@)
                &&& next_at@ == changes@[0].apply_at@
            },
            AgentDecision::Apply { order } => {
                &&& any_ready(times(changes@), now@)
                &&& all ==> is_ready_order(times(changes@), now@, order@)
                &&& !all ==> is_first_ready(times(changes@), now@, order@)
            },
        },
{
    let mut order = ready_order(changes, now);
    let ghost full = order@;
    let ghost ts = times(changes@);
    if order.len() == 0 {
        assert(!any_ready(ts, now@));
        if changes.len() > 0 {
            AgentDecision::NothingReady { next_at: changes[0].apply_at }
        } else {
            AgentDecision::NoChangesNeeded
        }
    } else {
        assert(ts[full[0] as int] < now@);
        if !all {
            order.truncate(1);
            proof {
                assert(order@ =~= full.take(1));
                lemma_first_of_order(ts, now@, full);
            }
        }
        AgentDecision::Apply { order }
    }
}

/// The first change of all that are to be applied is the first whose time has
/// come.
proof fn lemma_first_of_order(times: Seq<int>, now: int, full: Seq<usize>)
    requires
        is_ready_order(times, now, full),
        full.len() > 0,
    ensures
        is_first_ready(times, now, full.take(1)),
{
    assert(times[full[0] as int] < now);
    assert forall|i: int| 0 <= i < times.len() && #[trigger] times[i] < now implies i == full[0]
        || comes_before(times, full[0] as int, i) by {
        let k = choose|k: int| 0 <= k < full.len() && full[k] == i as usize;
        if k > 0 {
            assert(comes_before(times, full[0] as int, full[k] as int));
        }
    }
}

/// Where only one change is applied, it is the first of those that are applied
/// where all are.
pub proof fn law_one_change_is_the_first_of_all(
    times: Seq<int>,
    now: int,
    one: Seq<usize>,
    all: Seq<usize>,
)
    requires
        is_first_ready(times, now, one),
        is_ready_order(times, now, all),
    ensures
        one == all.take(1),
{
    assert(times[one[0] as int] < now);
    assert(all.contains(one[0] as int as usize));
    lemma_first_of_order(times, now, all);
    let first = all.take(1);
    assert(times[first[0] as int] < now);
    assert(one[0] == first[0]);
    assert(one =~= first);
}

/// There is only one order in which the changes whose time has come belong.
pub proof fn law_ready_order_is_unique(times: Seq<int>, now: int, a: Seq<usize>, b: Seq<usize>)
    requires
        is_ready_order(times, now, a),
        is_ready_order(times, now, b),
    ensures
        a == b,
{
    lemma_ready_order_prefix(times, now, a, b, a.len() as int);
    lemma_ready_order_prefix(times, now, b, a, b.len() as int);
    assert(a =~= b);
}

/// One such order starts with any part of another that starts it.
proof fn lemma_ready_order_prefix(
    times: Seq<int>,
    now: int,
    a: Seq<usize>,
    b: Seq<usize>,
    n: int,
)
    requires
        is_ready_order(times, now, a),
        is_ready_order(times, now, b),
        0 <= n <= a.len(),
    ensures
        n <= b.len(),
        forall|k: int| 0 <= k < n ==> #[trigger] a[k] == b[k],
    decreases n,
{
    if n > 0 {
        lemma_ready_order_prefix(times, now, a, b, n - 1);
        let m = n - 1;
        let x = a[m];
        assert(times[x as int] < now);
        assert(b.contains(x as int as usize));
        let k = choose|k: int| 0 <= k < b.len() && b[k] == x;
        if k < m {
            assert(a[k] == b[k]);
            assert(comes_before(times, a[k] as int, a[m] as int));
        }
        if k > m {
            let y = b[m];
            assert(comes_before(times, b[m] as int, b[k] as int));
            assert(times[y as int] < now);
            assert(a.contains(y as int as usize));
            let l = choose|l: int| 0 <= l < a.len() && a[l] == y;
            if l < m {
                assert(a[l] == b[l]);
                assert(comes_before(times, b[l] as int, b[m] as int));
            } else if l > m {
                assert(comes_before(times, a[m] as int, a[l] as int));
            }
        }
    }
}

/// What is announced of a decision. The time for which the next change has to
/// wait, if any, is given as text.
pub open spec fn announcement_text(decision: AgentDecision, next_at: Seq<char>) -> Seq<char> {
    match decision {
        AgentDecision::NoChangesNeeded => "No policy changes needed"@,
        AgentDecision::NothingReady { .. } => "No policy changes to apply (next at "@ + next_at
            + ")"@,
        AgentDecision::Apply { order } => "Applying "@ + decimal(order@.len()) + " policy change"@
            + (if order@.len() > 1 {
            "s"@
        } else {
            ""@
        }),
    }
}

/// Announces a decision, given the time for which the next change has to wait.
pub fn announcement_with(decision: &AgentDecision, next_at: &str) -> (r: String)
    ensures
        r@ == announcement_text(*decision, next_at@),
{
    match decision {
        AgentDecision::NoChangesNeeded => String::from_str("No policy changes needed"),
        AgentDecision::NothingReady { .. } => {
            let mut line = String::from_str("No policy changes to apply (next at ");
            line.append(next_at);
            line.append(")");
            line
        },
        AgentDecision::Apply { order } => {
            let mut line = String::from_str("Applying ");
            push_decimal(&mut line, order.len() as u64);
            line.append(" policy change");
            line.append(
                if order.len() > 1 {
                    "s"
                } else {
                    ""
                },
            );
            line
        },
    }
}

/// Announces a decision.
pub fn announcement(decision: &AgentDecision) -> (r: String)
    ensures
        r@ == announcement_text(
            *decision,
            match decision {
                AgentDecision::NothingReady { next_at } => rfc3339(
                    next_at@ / (NANOS_PER_SECOND as int),
                    next_at@ % (NANOS_PER_SECOND as int),
                ),
                _ => Seq::empty(),
            },
        ),
{
    match decision {
        AgentDecision::NothingReady { next_at } => announcement_with(
            decision,
            next_at.to_rfc3339().as_str(),
        ),
        _ => announcement_with(decision, ""),
    }
}

// Application.

/// What the node is told to set on a channel.
#[derive(Debug)]
pub struct PolicyUpdate {
    pub chan_point: ChanPoint,
    pub base_fee_msat: i64,
    pub fee_rate_ppm: u32,
    pub time_lock_delta: u32,
    pub max_htlc_msat: u64,
    pub min_htlc_msat: u64,
    /// Whether the least amount is to be set at all.
    pub min_htlc_msat_specified: bool,
    pub inbound_base_fee_msat: i32,
    pub inbound_fee_rate_ppm: i32,
    /// Whether an edge that is missing from the graph is to be created.
    pub create_missing_edge: bool,
}

/// Whether the node is told to set `policy`, its outgoing fee rate cut to 32
/// bits, and nothing besides.
pub open spec fn sets_policy(update: PolicyUpdate, policy: ChannelPolicy) -> bool {
    &&& update.chan_point == policy.chan_point
    &&& update.base_fee_msat == policy.base_fee_msat
    &&& update.fee_rate_ppm == policy.fee_rate_ppm as u32
    &&& update.time_lock_delta == policy.time_lock_delta
    &&& update.max_htlc_msat == policy.max_htlc_msat
    &&& update.inbound_base_fee_msat == policy.inbound_fee_base_msat
    &&& update.inbound_fee_rate_ppm == policy.inbound_fee_rate_ppm
    &&& update.min_htlc_msat == 0
    &&& !update.min_htlc_msat_specified
    &&& !update.create_missing_edge
}

/// Puts a policy into the form in which the node is told to set it.
pub fn update_channel_policy(policy: &ChannelPolicy) -> (r: PolicyUpdate)
    ensures
        sets_policy(r, *policy),
        0 <= policy.fee_rate_ppm <= u32::MAX ==> r.fee_rate_ppm == policy.fee_rate_ppm,
{
    PolicyUpdate {
        chan_point: policy.chan_point.clone(),
        base_fee_msat: policy.base_fee_msat,
        fee_rate_ppm: #[verifier::truncate] (policy.fee_rate_ppm as u32),
        time_lock_delta: policy.time_lock_delta,
        max_htlc_msat: policy.max_htlc_msat,
        min_htlc_msat: 0,
        min_htlc_msat_specified: false,
        inbound_base_fee_msat: policy.inbound_fee_base_msat,
        inbound_fee_rate_ppm: policy.inbound_fee_rate_ppm,
        create_missing_edge: false,
    }
}

/// What comes of a change of policy that is applied.
#[derive(Debug)]
pub struct AppliedChange {
    /// What is reported of the change.
    pub report: Vec<String>,
    /// What the node is told to set, if anything.
    pub update: Option<PolicyUpdate>,
}

/// The line in which a change from one fee rate to another is reported.
pub open spec fn rate_line(label: Seq<char>, from: int, to: int) -> Seq<char> {
    label + pad_left(decimal_int(from), 5) + " -> "@ + pad_left(decimal_int(to), 5) + " ppm   ("@
        + signed_decimal(to - from) + ")"@
}

/// What is reported of a change of policy, on a channel with the peer `alias`.
pub open spec fn change_report(change: ChangeView, alias: Seq<char>) -> Seq<Seq<char>> {
    seq![
        "Applying channel policy change on "@ + decimal(change.channel.chan_id as nat) + " ("@
            + alias + ")"@,
        "Action: "@ + change.action,
        "Reason: "@ + change.reason,
        "Policy Changes:"@,
        rate_line(
            "    Outgoing Fee Rate: "@,
            change.old_policy.fee_rate_ppm as int,
            change.new_policy.fee_rate_ppm as int,
        ),
        rate_line(
            "    Incoming Fee Rate: "@,
            change.old_policy.inbound_fee_rate_ppm as int,
            change.new_policy.inbound_fee_rate_ppm as int,
        ),
    ]
}

/// The views of a list of texts.
pub open spec fn texts(lines: Seq<String>) -> Seq<Seq<char>> {
    lines.map_values(|line: String| line@)
}

fn rate_line_text(label: &str, from: i64, to: i64) -> (r: String)
    requires
        i64::MIN <= to - from <= i64::MAX,
    ensures
        r@ == rate_line(label@, from as int, to as int),
{
    let mut line = String::from_str(label);
    push_padded(&mut line, &decimal_text(from), 5);
    line.append(" -> ");
    push_padded(&mut line, &decimal_text(to), 5);
    line.append(" ppm   (");
    push_signed_decimal(&mut line, to - from);
    line.append(")");
    line
}

/// Applies a change of policy: reports it and, unless only a rehearsal is asked
/// for, tells the node to set the new policy.
pub fn apply_channel_policy_change(
    dry_run: bool,
    change: &ChannelPolicyChange,
    alias: &str,
) -> (r: AppliedChange)
    requires
        i64::MIN <= change.new_policy.fee_rate_ppm - change.old_policy.fee_rate_ppm <= i64::MAX,
        i32::MIN <= change.new_policy.inbound_fee_rate_ppm - change.old_policy.inbound_fee_rate_ppm
            <= i32::MAX,
    ensures
        texts(r.report@) == change_report(change@, alias@),
        r.update is None <==> dry_run,
        r.update matches Some(update) ==> sets_policy(update, change.new_policy),
{
    let mut report: Vec<String> = Vec::new();
    let mut title = String::from_str("Applying channel policy change on ");
    push_decimal(&mut title, change.channel.chan_id);
    title.append(" (");
    title.append(alias);
    title.append(")");
    report.push(title);
    report.push(String::from_str("Action: ").concat(change.action.as_str()));
    report.push(String::from_str("Reason: ").concat(change.reason.as_str()));
    report.push(String::from_str("Policy Changes:"));
    report.push(
        rate_line_text(
            "    Outgoing Fee Rate: ",
            change.old_policy.fee_rate_ppm,
            change.new_policy.fee_rate_ppm,
        ),
    );
    report.push(
        rate_line_text(
            "    Incoming Fee Rate: ",
            change.old_policy.inbound_fee_rate_ppm as i64,
            change.new_policy.inbound_fee_rate_ppm as i64,
        ),
    );
    assert(texts(report@) =~= change_report(change@, alias@));
    let update = if dry_run {
        None
    } else {
        Some(update_channel_policy(&change.new_policy))
    };
    AppliedChange { report, update }
}

/// The name by which a peer is reported: the alias that it gave itself, or a dash
/// where it gave none or is not known.
pub fn get_node_alias(alias: Option<String>) -> (r: String)
    ensures
        r@ == match alias {
            Some(name) => if name@.len() > 0 {
                name@
            } else {
                "-"@
            },
            None => "-"@,
        },
{
    match alias {
        Some(name) => if name.as_str().is_empty() {
            String::from_str("-")
        } else {
            name
        },
        None => String::from_str("-"),
    }
}

// What the decisions come to.

/// The changes of two groups of channels are collected one group behind the other; a
/// channel that could be looked into adds all its changes, one that could not adds
/// none.
pub proof fn law_changes_are_collected_in_turn<E>(
    a: Seq<Result<Vec<ChannelPolicyChange>, E>>,
    b: Seq<Result<Vec<ChannelPolicyChange>, E>>,
    one: Result<Vec<ChannelPolicyChange>, E>,
)
    ensures
        collected(a + b) == collected(a) + collected(b),
        one matches Ok(changes) ==> collected(seq![one]) == changes@,
        one is Err ==> collected(seq![one]) == Seq::<ChannelPolicyChange>::empty(),
    decreases b.len(),
{
    assert(seq![one].drop_last() =~= Seq::<Result<Vec<ChannelPolicyChange>, E>>::empty());
    reveal_with_fuel(collected, 2);
    if let Ok(changes) = one {
        assert(Seq::<ChannelPolicyChange>::empty() + changes@ =~= changes@);
    }
    if b.len() == 0 {
        assert(a + b =~= a);
        assert(collected(a) + collected(b) =~= collected(a));
    } else {
        law_changes_are_collected_in_turn(a, b.drop_last(), one);
        assert((a + b).drop_last() =~= a + b.drop_last());
        assert(collected(a + b) =~= collected(a) + collected(b));
    }
}

/// The changes that are applied where all are: exactly those whose time lies before
/// now, each once, an earlier time before a later one and, at the same time, the one
/// that was found first before the other.
pub proof fn law_ripe_changes_come_in_the_order_of_their_times(
    changes: Seq<ChannelPolicyChange>,
    now: int,
    order: Seq<usize>,
)
    requires
        is_ready_order(times(changes), now, order),
    ensures
        forall|k: int|
            0 <= k < order.len() ==> (#[trigger] order[k]) < changes.len() && changes[
                order[k] as int
            ].apply_at@ < now,
        forall|i: int|
            0 <= i < changes.len() && (#[trigger] changes[i]).apply_at@ < now ==> exists|k: int|
                0 <= k < order.len() && #[trigger] order[k] == i,
        forall|a: int, b: int|
            0 <= a < b < order.len() ==> changes[(#[trigger] order[a]) as int].apply_at@ <= changes[(
            #[trigger] order[b]) as int].apply_at@ && (changes[order[a] as int].apply_at@
                == changes[order[b] as int].apply_at@ ==> order[a] < order[b]),
{
    let ts = times(changes);
    assert forall|k: int| 0 <= k < order.len() implies (#[trigger] order[k]) < changes.len()
        && changes[order[k] as int].apply_at@ < now by {
        assert(ts[order[k] as int] < now);
    }
    assert forall|i: int|
        0 <= i < changes.len() && (#[trigger] changes[i]).apply_at@ < now implies exists|k: int|
        0 <= k < order.len() && #[trigger] order[k] == i by {
        assert(ts[i] < now);
        let k = choose|k: int| 0 <= k < order.len() && order[k] == i as usize;
        assert(order[k] == i);
    }
    assert forall|a: int, b: int| 0 <= a < b < order.len() implies changes[(
    #[trigger] order[a]) as int].apply_at@ <= changes[(#[trigger] order[b]) as int].apply_at@ && (
    changes[order[a] as int].apply_at@ == changes[order[b] as int].apply_at@ ==> order[a]
        < order[b]) by {
        assert(comes_before(ts, order[a] as int, order[b] as int));
        assert(ts[order[a] as int] == changes[order[a] as int].apply_at@);
        assert(ts[order[b] as int] == changes[order[b] as int].apply_at@);
    }
}

/// The change that is applied where only one is: its time lies before now, no other
/// has an earlier time, and none that was found before it has the same. Something is
/// applied exactly where the time of some change lies before now.
pub proof fn law_one_change_waited_longest(
    changes: Seq<ChannelPolicyChange>,
    now: int,
    order: Seq<usize>,
)
    ensures
        is_first_ready(times(changes), now, order) ==> {
            &&& order.len() == 1
            &&& order[0] < changes.len()
            &&& changes[order[0] as int].apply_at@ < now
            &&& forall|i: int|
                0 <= i < changes.len() ==> changes[order[0] as int].apply_at@ <= (
                #[trigger] changes[i]).apply_at@
            &&& forall|i: int|
                0 <= i < order[0] ==> changes[order[0] as int].apply_at@ < (
                #[trigger] changes[i]).apply_at@
        },
        any_ready(times(changes), now) <==> exists|i: int|
            0 <= i < changes.len() && (#[trigger] changes[i]).apply_at@ < now,
{
    let ts = times(changes);
    if is_first_ready(ts, now, order) {
        let first = order[0] as int;
        assert(ts[first] == changes[first].apply_at@);
        assert forall|i: int| 0 <= i < changes.len() implies changes[first].apply_at@ <= (
        #[trigger] changes[i]).apply_at@ && (i < first ==> changes[first].apply_at@
            < changes[i].apply_at@) by {
            assert(ts[i] == changes[i].apply_at@);
            assert(ts[i] < now ==> i == first || comes_before(ts, first, i));
        }
    }
    if exists|i: int| 0 <= i < changes.len() && (#[trigger] changes[i]).apply_at@ < now {
        let i = choose|i: int| 0 <= i < changes.len() && (#[trigger] changes[i]).apply_at@ < now;
        assert(ts[i] < now);
    }
    if any_ready(ts, now) {
        let i = choose|i: int| 0 <= i < ts.len() && #[trigger] ts[i] < now;
        assert(changes[i].apply_at@ < now);
    }
}

/// The number of changes that are applied is announced, as one or as several.
pub proof fn law_announcements_count_changes(order: Vec<usize>, next_at: Seq<char>)
    ensures
        order@.len() == 1 ==> announcement_text(AgentDecision::Apply { order }, next_at)
            == "Applying "@ + decimal(1) + " policy change"@,
        order@.len() > 1 ==> announcement_text(AgentDecision::Apply { order }, next_at)
            == "Applying "@ + decimal(order@.len()) + " policy change"@ + "s"@,
        announcement_text(AgentDecision::NoChangesNeeded, next_at) == "No policy changes needed"@,
{
    reveal_strlit("");
    let head = "Applying "@ + decimal(1) + " policy change"@;
    assert(head + ""@ =~= head);
}

/// What the node is told to set is the policy itself, on its own channel and on no
/// other: both fees and both rates, the time lock and the largest payment. An
/// outgoing fee rate that fits is set as it is. No least payment is set, and no edge
/// is created.
pub proof fn law_the_policy_itself_is_set(update: PolicyUpdate, policy: ChannelPolicy)
    requires
        sets_policy(update, policy),
    ensures
        update.chan_point.funding_txid_str@ == policy.chan_point.funding_txid_str@,
        update.chan_point.output_index == policy.chan_point.output_index,
        update.base_fee_msat == policy.base_fee_msat,
        0 <= policy.fee_rate_ppm <= 0xffff_ffff ==> update.fee_rate_ppm == policy.fee_rate_ppm,
        update.time_lock_delta == policy.time_lock_delta,
        update.max_htlc_msat == policy.max_htlc_msat,
        update.inbound_base_fee_msat == policy.inbound_fee_base_msat,
        update.inbound_fee_rate_ppm == policy.inbound_fee_rate_ppm,
        update.min_htlc_msat == 0,
        !update.min_htlc_msat_specified,
        !update.create_missing_edge,
{
}

/// The report of a change names the channel and the peer, tells what is done and
/// why, and tells of each fee rate what it was, what it becomes and by how much it
/// changes.
pub proof fn law_reports_tell_both_rates(change: ChangeView, alias: Seq<char>)
    ensures
        ({
            let report = change_report(change, alias);
            let (old, new) = (change.old_policy, change.new_policy);
            &&& report.len() == 6
            &&& report[0] == "Applying channel policy change on "@ + decimal(
                change.channel.chan_id as nat,
            ) + " ("@ + alias + ")"@
            &&& report[1] == "Action: "@ + change.action
            &&& report[2] == "Reason: "@ + change.reason
            &&& report[3] == "Policy Changes:"@
            &&& report[4] == "    Outgoing Fee Rate: "@ + pad_left(
                decimal_int(old.fee_rate_ppm as int),
                5,
            ) + " -> "@ + pad_left(decimal_int(new.fee_rate_ppm as int), 5) + " ppm   ("@
                + signed_decimal(new.fee_rate_ppm - old.fee_rate_ppm) + ")"@
            &&& report[5] == "    Incoming Fee Rate: "@ + pad_left(
                decimal_int(old.inbound_fee_rate_ppm as int),
                5,
            ) + " -> "@ + pad_left(decimal_int(new.inbound_fee_rate_ppm as int), 5) + " ppm   ("@
                + signed_decimal(new.inbound_fee_rate_ppm - old.inbound_fee_rate_ppm) + ")"@
        }),
{
}

/// The views of a list of texts are those of its texts, one for one.
pub proof fn law_texts_are_viewed_one_for_one(lines: Seq<String>)
    ensures
        texts(lines).len() == lines.len(),
        forall|i: int| 0 <= i < lines.len() ==> #[trigger] texts(lines)[i] == lines[i]@,
{
}

} // verus!
