//! Which nodes of the network's graph are worth a probe.
use crate::network::{ChannelEdge, ChannelGraph, LightningNode};
use crate::time::{seconds, Timestamp};
use vstd::hash_map::StringHashMap;
use vstd::prelude::*;

verus! {

/// How long ago, in seconds, a node may have changed a policy last and still count
/// as alive: seven days.
pub const NODE_ACTIVITY_WINDOW: i64 = 604_800;

/// How many ends of channels the node with the given public key has.
pub open spec fn channel_count(key: Seq<char>, edges: Seq<ChannelEdge>) -> nat
    decreases edges.len(),
{
    if edges.len() == 0 {
        0
    } else {
        let edge = edges.last();
        channel_count(key, edges.drop_last()) + (if edge.node1_pub@ == key {
            1nat
        } else {
            0nat
        }) + (if edge.node2_pub@ == key {
            1nat
        } else {
            0nat
        })
    }
}

/// When the policy was last changed that the node with the given public key has
/// on the last of its channels on which it has one, in seconds from the Unix epoch;
/// the epoch itself where it has none.
pub open spec fn last_update(key: Seq<char>, edges: Seq<ChannelEdge>) -> u32
    decreases edges.len(),
{
    if edges.len() == 0 {
        0
    } else {
        let edge = edges.last();
        if edge.node2_pub@ == key && edge.node2_policy is Some {
            edge.node2_policy->0.last_update
        } else if edge.node1_pub@ == key && edge.node1_policy is Some {
            edge.node1_policy->0.last_update
        } else {
            last_update(key, edges.drop_last())
        }
    }
}

/// Whether a node is worth a probe: it has more than three channels, and is
/// alive.
pub open spec fn worth_probing(key: Seq<char>, edges: Seq<ChannelEdge>, now: int) -> bool {
    &&& channel_count(key, edges) > 3
    &&& now - seconds(last_update(key, edges) as int) < seconds(NODE_ACTIVITY_WINDOW as int)
}

/// What the edges tell of one node.
#[derive(Clone, Copy)]
struct Stats {
    /// The number of its channels, as far as it can be counted.
    channel_count: i32,
    last_update: u32,
}

/// Whether `stats` is what `edges` tell of a node.
spec fn tells(stats: Stats, key: Seq<char>, edges: Seq<ChannelEdge>) -> bool {
    &&& stats.channel_count == if channel_count(key, edges) <= i32::MAX {
        channel_count(key, edges) as int
    } else {
        i32::MAX as int
    }
    &&& stats.last_update == last_update(key, edges)
}

/// What is known of the node with the given public key.
spec fn stats_of(index: Map<Seq<char>, usize>, stats: Seq<Stats>, key: Seq<char>) -> Stats {
    stats[index[key] as int]
}

/// Whether every node that is looked for has a place of its own.
spec fn indexes(index: Map<Seq<char>, usize>, stats: Seq<Stats>) -> bool {
    &&& forall|key: Seq<char>| #[trigger] index.contains_key(key) ==> index[key] < stats.len()
    &&& forall|a: Seq<char>, b: Seq<char>|
        #[trigger] index.contains_key(a) && #[trigger] index.contains_key(b) && index[a] == index[b]
            ==> a == b
}

/// Counts one end of a channel, if it belongs to a node that is looked for.
fn count_end(
    index: &StringHashMap<usize>,
    stats: &mut Vec<Stats>,
    key: &String,
    updated: Option<u32>,
)
    requires
        indexes(index@, old(stats)@),
    ensures
        final(stats)@.len() == old(stats)@.len(),
        forall|other: Seq<char>| #[trigger]
            index@.contains_key(other) && other != key@ ==> stats_of(
                index@,
                final(stats)@,
                other,
            ) == stats_of(index@, old(stats)@, other),
        index@.contains_key(key@) ==> {
            let before = stats_of(index@, old(stats)@, key@);
            stats_of(index@, final(stats)@, key@) == (Stats {
                channel_count: if before.channel_count < i32::MAX {
                    (before.channel_count + 1) as i32
                } else {
                    before.channel_count
                },
                last_update: match updated {
                    Some(time) => time,
                    None => before.last_update,
                },
            })
        },
{
    if let Some(slot) = index.get(key.as_str()) {
        let slot: usize = *slot;
        let before = stats[slot];
        let channel_count: i32 = if before.channel_count < i32::MAX {
            before.channel_count + 1
        } else {
            before.channel_count
        };
        let last_update: u32 = match updated {
            Some(time) => time,
            None => before.last_update,
        };
        stats.set(slot, Stats { channel_count, last_update });
    }
}

/// Lists the nodes of the graph that are worth a probe, in the order of the graph.
pub fn list_nodes(graph: &ChannelGraph, now: &Timestamp) -> (r: Vec<LightningNode>)
    ensures
        r@ == graph.nodes@.filter(
            |node: LightningNode| worth_probing(node.pub_key@, graph.edges@, now@),
        ),
{
    let ghost edges = graph.edges@;
    let mut index: StringHashMap<usize> = StringHashMap::new();
    let mut stats: Vec<Stats> = Vec::new();
    let mut n: usize = 0;
    while n < graph.nodes.len()
        invariant
            n <= graph.nodes@.len(),
            indexes(index@, stats@),
            forall|i: int|
                0 <= i < n ==> index@.contains_key((#[trigger] graph.nodes@[i]).pub_key@),
            forall|k: int|
                0 <= k < stats@.len() ==> (#[trigger] stats@[k]) == (Stats {
                    channel_count: 0,
                    last_update: 0,
                }),
        decreases graph.nodes@.len() - n,
    {
        let key = &graph.nodes[n].pub_key;
        if !index.contains_key(key.as_str()) {
            index.insert(key.clone(), stats.len());
            stats.push(Stats { channel_count: 0, last_update: 0 });
        }
        n = n + 1;
    }
    let mut e: usize = 0;
    assert(edges.take(0) =~= Seq::<ChannelEdge>::empty());
    while e < graph.edges.len()
        invariant
            e <= graph.edges@.len(),
            edges == graph.edges@,
            indexes(index@, stats@),
            forall|key: Seq<char>| #[trigger]
                index@.contains_key(key) ==> tells(
                    stats_of(index@, stats@, key),
                    key,
                    edges.take(e as int),
                ),
        decreases graph.edges@.len() - e,
    {
        let edge = &graph.edges[e];
        let node1_update: Option<u32> = match &edge.node1_policy {
            Some(policy) => Some(policy.last_update),
            None => None,
        };
        let node2_update: Option<u32> = match &edge.node2_policy {
            Some(policy) => Some(policy.last_update),
            None => None,
        };
        count_end(&index, &mut stats, &edge.node1_pub, node1_update);
        count_end(&index, &mut stats, &edge.node2_pub, node2_update);
        assert(edges.take(e + 1).drop_last() =~= edges.take(e as int));
        e = e + 1;
    }
    assert(edges.take(edges.len() as int) =~= edges);
    let ghost worth = |node: LightningNode| worth_probing(node.pub_key@, edges, now@);
    let mut nodes: Vec<LightningNode> = Vec::new();
    let mut m: usize = 0;
    assert(graph.nodes@.take(0).filter(worth) =~= Seq::empty()) by {
        reveal(Seq::filter);
    }
    while m < graph.nodes.len()
        invariant
            m <= graph.nodes@.len(),
            edges == graph.edges@,
            worth == (|node: LightningNode| worth_probing(node.pub_key@, edges, now@)),
            indexes(index@, stats@),
            forall|i: int|
                0 <= i < graph.nodes@.len() ==> index@.contains_key(
                    (#[trigger] graph.nodes@[i]).pub_key@,
                ),
            forall|key: Seq<char>| #[trigger]
                index@.contains_key(key) ==> tells(stats_of(index@, stats@, key), key, edges),
            nodes@ == graph.nodes@.take(m as int).filter(worth),
        decreases graph.nodes@.len() - m,
    {
        let node = &graph.nodes[m];
        assert(index@.contains_key(node.pub_key@));
        proof {
            reveal(Seq::filter);
            assert(graph.nodes@.take(m + 1).drop_last() =~= graph.nodes@.take(m as int));
        }
        if let Some(slot) = index.get(node.pub_key.as_str()) {
            let known = stats[*slot];
            assert(known == stats_of(index@, stats@, node.pub_key@));
            if known.channel_count > 3 && now.is_later_by_less_than(
                &Timestamp::from_unix(known.last_update),
                NODE_ACTIVITY_WINDOW,
            ) {
                nodes.push(node.clone());
            }
        }
        m = m + 1;
    }
    assert(graph.nodes@.take(graph.nodes@.len() as int) =~= graph.nodes@);
    nodes
}

/// Every node that is listed is a node of the graph that has more than three
/// channels and is alive, and every such node is listed.
pub proof fn law_listed_nodes_are_worth_probing(
    nodes: Seq<LightningNode>,
    edges: Seq<ChannelEdge>,
    now: int,
    node: LightningNode,
)
    ensures
        nodes.filter(
            |node: LightningNode| worth_probing(node.pub_key@, edges, now),
        ).contains(node) <==> nodes.contains(node) && worth_probing(node.pub_key@, edges, now),
{
    let worth = |node: LightningNode| worth_probing(node.pub_key@, edges, now);
    let listed = nodes.filter(worth);
    if listed.contains(node) {
        nodes.lemma_filter_contains_rev(worth, node);
        let i = choose|i: int| 0 <= i < listed.len() && listed[i] == node;
        nodes.lemma_filter_pred(worth, i);
    }
    if nodes.contains(node) && worth(node) {
        let i = choose|i: int| 0 <= i < nodes.len() && nodes[i] == node;
        nodes.lemma_filter_contains(worth, i);
    }
}

// What a node is judged by.

/// The ends of channels in two parts of a graph add up. One channel adds one end
/// for each of its two ends that belongs to the node, whatever the policies on it.
pub proof fn law_channel_ends_add_up(
    key: Seq<char>,
    a: Seq<ChannelEdge>,
    b: Seq<ChannelEdge>,
    edge: ChannelEdge,
)
    ensures
        channel_count(key, a + b) == channel_count(key, a) + channel_count(key, b),
        edge.node1_pub@ != key && edge.node2_pub@ != key ==> channel_count(key, seq![edge]) == 0,
        edge.node1_pub@ == key && edge.node2_pub@ != key ==> channel_count(key, seq![edge]) == 1,
        edge.node1_pub@ != key && edge.node2_pub@ == key ==> channel_count(key, seq![edge]) == 1,
        edge.node1_pub@ == key && edge.node2_pub@ == key ==> channel_count(key, seq![edge]) == 2,
    decreases b.len(),
{
    assert(seq![edge].drop_last() =~= Seq::<ChannelEdge>::empty());
    reveal_with_fuel(channel_count, 2);
    if b.len() == 0 {
        assert(a + b =~= a);
    } else {
        law_channel_ends_add_up(key, a, b.drop_last(), edge);
        assert((a + b).drop_last() =~= a + b.drop_last());
    }
}

/// Whether the two lists name the same nodes at the ends of each channel, and agree
/// in every policy that belongs to the node with the given public key.
pub open spec fn same_for_node(
    key: Seq<char>,
    a: Seq<ChannelEdge>,
    b: Seq<ChannelEdge>,
) -> bool {
    &&& a.len() == b.len()
    &&& forall|i: int|
        0 <= i < a.len() ==> {
            &&& (#[trigger] a[i]).node1_pub@ == b[i].node1_pub@
            &&& a[i].node2_pub@ == b[i].node2_pub@
            &&& a[i].node1_pub@ == key ==> a[i].node1_policy == b[i].node1_policy
            &&& a[i].node2_pub@ == key ==> a[i].node2_policy == b[i].node2_policy
        }
}

/// A node is judged by its own policies alone: what its peers set on the channels
/// with it changes nothing.
pub proof fn law_nodes_are_judged_by_their_own_policies(
    key: Seq<char>,
    a: Seq<ChannelEdge>,
    b: Seq<ChannelEdge>,
    now: int,
)
    requires
        same_for_node(key, a, b),
    ensures
        worth_probing(key, a, now) <==> worth_probing(key, b, now),
        channel_count(key, a) == channel_count(key, b),
        last_update(key, a) == last_update(key, b),
    decreases a.len(),
{
    if a.len() > 0 {
        law_nodes_are_judged_by_their_own_policies(key, a.drop_last(), b.drop_last(), now);
        assert(a.last() == a[a.len() - 1] && b.last() == b[a.len() - 1]);
        assert(a[a.len() - 1].node1_pub@ == b[a.len() - 1].node1_pub@);
    }
}

/// Whether a node has a policy of its own on a channel, and changed it last at the
/// given time.
pub open spec fn has_own_update(key: Seq<char>, edge: ChannelEdge, time: u32) -> bool {
    ||| edge.node1_pub@ == key && (edge.node1_policy matches Some(policy) && policy.last_update
        == time)
    ||| edge.node2_pub@ == key && (edge.node2_policy matches Some(policy) && policy.last_update
        == time)
}

/// The last change of a node that has policies of its own is the change of one of
/// them; that of a node without any lies at the epoch.
pub proof fn law_last_update_is_an_own_one(key: Seq<char>, edges: Seq<ChannelEdge>)
    ensures
        (exists|i: int, time: u32|
            0 <= i < edges.len() && #[trigger] has_own_update(key, edges[i], time)) ==> exists|
            i: int,
        |
            0 <= i < edges.len() && #[trigger] has_own_update(
                key,
                edges[i],
                last_update(key, edges),
            ),
        (forall|i: int, time: u32|
            0 <= i < edges.len() ==> !#[trigger] has_own_update(key, edges[i], time))
            ==> last_update(key, edges) == 0,
    decreases edges.len(),
{
    if edges.len() > 0 {
        let n = edges.len() - 1;
        let before = edges.drop_last();
        law_last_update_is_an_own_one(key, before);
        assert(edges.last() == edges[n]);
        if edges[n].node2_pub@ == key && edges[n].node2_policy is Some || edges[n].node1_pub@ == key
            && edges[n].node1_policy is Some {
            assert(has_own_update(key, edges[n], last_update(key, edges)));
        } else {
            assert forall|time: u32| !has_own_update(key, edges[n], time) by {}
            if exists|i: int, time: u32|
                0 <= i < edges.len() && #[trigger] has_own_update(key, edges[i], time) {
                let (i, time) = choose|i: int, time: u32|
                    0 <= i < edges.len() && #[trigger] has_own_update(key, edges[i], time);
                assert(has_own_update(key, before[i], time));
                let j = choose|j: int|
                    0 <= j < before.len() && #[trigger] has_own_update(
                        key,
                        before[j],
                        last_update(key, before),
                    );
                assert(has_own_update(key, edges[j], last_update(key, edges)));
            } else {
                assert forall|i: int, time: u32| 0 <= i < before.len() implies !#[trigger]
                has_own_update(key, before[i], time) by {
                    assert(!has_own_update(key, edges[i], time));
                }
            }
        }
    }
}

/// A node that has changed none of its own policies for seven days is not worth a
/// probe, however busy its peers are.
pub proof fn law_quiet_nodes_are_not_probed(
    key: Seq<char>,
    edges: Seq<ChannelEdge>,
    now: int,
    own: int,
    own_time: u32,
)
    requires
        0 <= own < edges.len(),
        has_own_update(key, edges[own], own_time),
        forall|i: int, time: u32|
            0 <= i < edges.len() && #[trigger] has_own_update(key, edges[i], time) ==> now - time
                * 1_000_000_000 >= 604_800 * 1_000_000_000,
    ensures
        !worth_probing(key, edges, now),
{
    law_last_update_is_an_own_one(key, edges);
}

/// A node that has more than three ends of channels, and has changed each of its own
/// policies in the last seven days, is worth a probe. One with three or fewer is
/// not.
pub proof fn law_busy_nodes_are_probed(
    key: Seq<char>,
    edges: Seq<ChannelEdge>,
    now: int,
    own: int,
    own_time: u32,
)
    requires
        0 <= own < edges.len(),
        has_own_update(key, edges[own], own_time),
        forall|i: int, time: u32|
            0 <= i < edges.len() && #[trigger] has_own_update(key, edges[i], time) ==> now - time
                * 1_000_000_000 < 604_800 * 1_000_000_000,
    ensures
        worth_probing(key, edges, now) <==> channel_count(key, edges) >= 4,
{
    law_last_update_is_an_own_one(key, edges);
}

/// The policy on a later channel of the graph counts, not that on an earlier one;
/// where both ends of a channel belong to the node, that of the second end does.
/// Channels on which the node has no policy change nothing.
pub proof fn law_later_channels_count(key: Seq<char>, edges: Seq<ChannelEdge>, edge: ChannelEdge)
    ensures
        edge.node2_pub@ == key && edge.node2_policy is Some ==> last_update(key, edges.push(edge))
            == edge.node2_policy->0.last_update,
        edge.node1_pub@ == key && edge.node1_policy is Some && !(edge.node2_pub@ == key
            && edge.node2_policy is Some) ==> last_update(key, edges.push(edge))
            == edge.node1_policy->0.last_update,
        (forall|time: u32| !#[trigger] has_own_update(key, edge, time)) ==> last_update(
            key,
            edges.push(edge),
        ) == last_update(key, edges),
{
    assert(edges.push(edge).drop_last() =~= edges);
    if edge.node1_policy is Some {
        let time = edge.node1_policy->0.last_update;
        assert(edge.node1_pub@ == key ==> has_own_update(key, edge, time));
    }
    if edge.node2_policy is Some {
        let time = edge.node2_policy->0.last_update;
        assert(edge.node2_pub@ == key ==> has_own_update(key, edge, time));
    }
}

/// A node is worth a probe exactly where it has more than three ends of channels and
/// its last change is less than seven days old.
pub proof fn law_worth_rests_on_channels_and_age(
    key: Seq<char>,
    edges: Seq<ChannelEdge>,
    now: int,
)
    ensures
        worth_probing(key, edges, now) <==> channel_count(key, edges) >= 4 && now < (last_update(
            key,
            edges,
        ) + 604_800) * 1_000_000_000,
{
}

} // verus!
