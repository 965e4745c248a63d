//! The rounds of probes with which the network is watched.
use crate::choice::pick;
use crate::network::{Channel, LightningNode};
use crate::probe::{PaymentProbe, ProbeEnd};
use crate::time::Timestamp;
use vstd::prelude::*;

verus! {

/// The amount, in satoshi, around which the amounts of probes are spread.
pub const BASE_AMOUNT_SAT: u64 = 200_000;

/// The least amount, in satoshi, that a probe can be of: 35% under the base amount.
pub const LEAST_AMOUNT_SAT: u64 = 130_000;

/// The greatest amount, in satoshi, that a probe can be of: 35% over the base
/// amount.
pub const GREATEST_AMOUNT_SAT: u64 = 270_000;

/// Why the radar stops.
#[derive(Clone, Copy, Debug, PartialEq, Eq, Structural)]
pub enum RadarEnd {
    /// It is asked to.
    Cancelled,
    /// There is no node to probe.
    NoNodes,
    /// There is no channel to probe through.
    NoChannels,
    /// The node could not be asked.
    Failed,
}

/// How far a round has come.
///
/// For each destination two probes are run. For the first, the node picks the best
/// route. For the second, a channel to leave by is picked at random, which forces
/// the node to pick another route and gives a more diverse view on the network.
#[derive(Debug)]
pub enum RadarPhase {
    /// A destination is to be picked.
    PickDestination,
    /// The best route to the destination is to be probed.
    ProbeBest { destination: LightningNode },
    /// A channel to leave by is to be picked.
    PickChannel { destination: LightningNode },
    /// The route through the channel is to be probed.
    ProbeThrough { destination: LightningNode, channel: Channel },
    /// There is nothing left to do.
    Stopped(RadarEnd),
}

/// What happens to the radar.
#[derive(Debug)]
pub enum RadarEvent {
    /// It is asked to stop.
    Cancelled,
    /// The node could not be asked.
    Failed,
    /// A destination was picked, if there is any.
    Destination(Option<LightningNode>),
    /// A channel was picked, if there is any.
    Through(Option<Channel>),
    /// A probe was run.
    Probed,
}

/// What an event makes of a round, on the node with the public key `source`.
pub open spec fn radar_next(source: Seq<char>, phase: RadarPhase, event: RadarEvent) -> RadarPhase {
    match (phase, event) {
        (RadarPhase::PickDestination, RadarEvent::Cancelled) => RadarPhase::Stopped(
            RadarEnd::Cancelled,
        ),
        (RadarPhase::PickDestination, RadarEvent::Failed) => RadarPhase::Stopped(RadarEnd::Failed),
        (RadarPhase::PickDestination, RadarEvent::Destination(None)) => RadarPhase::Stopped(
            RadarEnd::NoNodes,
        ),
        (RadarPhase::PickDestination, RadarEvent::Destination(Some(destination))) => {
            if destination.pub_key@ == source {
                RadarPhase::PickDestination
            } else {
                RadarPhase::ProbeBest { destination }
            }
        },
        (RadarPhase::ProbeBest { destination }, RadarEvent::Probed) => RadarPhase::PickChannel {
            destination,
        },
        (RadarPhase::PickChannel { .. }, RadarEvent::Failed) => RadarPhase::Stopped(
            RadarEnd::Failed,
        ),
        (RadarPhase::PickChannel { .. }, RadarEvent::Through(None)) => RadarPhase::Stopped(
            RadarEnd::NoChannels,
        ),
        (RadarPhase::PickChannel { destination }, RadarEvent::Through(Some(channel))) => {
            if channel.remote_pubkey@ == destination.pub_key@ {
                RadarPhase::PickDestination
            } else {
                RadarPhase::ProbeThrough { destination, channel }
            }
        },
        (RadarPhase::ProbeThrough { .. }, RadarEvent::Probed) => RadarPhase::PickDestination,
        _ => phase,
    }
}

/// Takes a round on by what happened. What cannot happen as far as it has come
/// changes nothing.
pub fn radar_thread(source: &String, phase: RadarPhase, event: RadarEvent) -> (r: RadarPhase)
    ensures
        r == radar_next(source@, phase, event),
{
    match (phase, event) {
        (RadarPhase::PickDestination, RadarEvent::Cancelled) => RadarPhase::Stopped(
            RadarEnd::Cancelled,
        ),
        (RadarPhase::PickDestination, RadarEvent::Failed) => RadarPhase::Stopped(RadarEnd::Failed),
        (RadarPhase::PickDestination, RadarEvent::Destination(None)) => RadarPhase::Stopped(
            RadarEnd::NoNodes,
        ),
        (RadarPhase::PickDestination, RadarEvent::Destination(Some(destination))) => {
            // If the local node was picked, skip it.
            if destination.pub_key == *source {
                RadarPhase::PickDestination
            } else {
                RadarPhase::ProbeBest { destination }
            }
        },
        (RadarPhase::ProbeBest { destination }, RadarEvent::Probed) => RadarPhase::PickChannel {
            destination,
        },
        (RadarPhase::PickChannel { .. }, RadarEvent::Failed) => RadarPhase::Stopped(
            RadarEnd::Failed,
        ),
        (RadarPhase::PickChannel { .. }, RadarEvent::Through(None)) => RadarPhase::Stopped(
            RadarEnd::NoChannels,
        ),
        (RadarPhase::PickChannel { destination }, RadarEvent::Through(Some(channel))) => {
            // Skip direct channels with the destination.
            if channel.remote_pubkey == destination.pub_key {
                RadarPhase::PickDestination
            } else {
                RadarPhase::ProbeThrough { destination, channel }
            }
        },
        (RadarPhase::ProbeThrough { .. }, RadarEvent::Probed) => RadarPhase::PickDestination,
        (phase, _) => phase,
    }
}

/// Whether a pick is one of the listed nodes or channels, and missing only where
/// nothing is listed.
pub open spec fn picks_listed(
    event: RadarEvent,
    nodes: Seq<LightningNode>,
    channels: Seq<Channel>,
) -> bool {
    match event {
        RadarEvent::Destination(None) => nodes.len() == 0,
        RadarEvent::Destination(Some(node)) => nodes.contains(node),
        RadarEvent::Through(None) => channels.len() == 0,
        RadarEvent::Through(Some(channel)) => channels.contains(channel),
        _ => true,
    }
}

/// Picks a destination at random.
pub fn pick_destination(nodes: &Vec<LightningNode>) -> (r: RadarEvent)
    ensures
        r is Destination,
        forall|channels: Seq<Channel>| #[trigger] picks_listed(r, nodes@, channels),
        r->Destination_0 matches Some(node) ==> nodes@.contains(node),
        r->Destination_0 is None <==> nodes@.len() == 0,
{
    match pick(nodes) {
        Some(node) => RadarEvent::Destination(Some(node.clone())),
        None => RadarEvent::Destination(None),
    }
}

/// Picks a channel to leave by at random.
pub fn pick_channel(channels: &Vec<Channel>) -> (r: RadarEvent)
    ensures
        r is Through,
        forall|nodes: Seq<LightningNode>| #[trigger] picks_listed(r, nodes, channels@),
        r->Through_0 matches Some(channel) ==> channels@.contains(channel),
        r->Through_0 is None <==> channels@.len() == 0,
{
    match pick(channels) {
        Some(channel) => RadarEvent::Through(Some(channel.clone())),
        None => RadarEvent::Through(None),
    }
}

/// Whether `probe` is the probe that is due, of `amount_sat` satoshi.
pub open spec fn is_due(
    source: Seq<char>,
    phase: RadarPhase,
    created_at: Timestamp,
    amount_sat: u64,
    probe: PaymentProbe,
) -> bool {
    &&& probe.created_at == created_at
    &&& probe.src_node_pubkey@ == source
    &&& LEAST_AMOUNT_SAT <= amount_sat <= GREATEST_AMOUNT_SAT
    &&& probe.amount_msat == amount_sat * 1000
    &&& probe.attempts@.len() == 0
    &&& match phase {
        RadarPhase::ProbeBest { destination } => {
            &&& probe.dst_node_pubkey@ == destination.pub_key@
            &&& probe.channel is None
        },
        RadarPhase::ProbeThrough { destination, channel } => {
            &&& probe.dst_node_pubkey@ == destination.pub_key@
            &&& probe.channel == Some(channel)
        },
        _ => false,
    }
}

/// The probe that is due, if any is, of an amount drawn from the spread.
pub fn due_probe(source: &String, phase: &RadarPhase, created_at: Timestamp, amount_sat: u64) -> (r:
    Option<PaymentProbe>)
    requires
        LEAST_AMOUNT_SAT <= amount_sat <= GREATEST_AMOUNT_SAT,
    ensures
        r is Some <==> *phase is ProbeBest || *phase is ProbeThrough,
        r matches Some(probe) ==> is_due(source@, *phase, created_at, amount_sat, probe),
        r matches Some(probe) ==> {
            &&& probe.created_at == created_at
            &&& probe.src_node_pubkey@ == source@
            &&& probe.amount_msat == amount_sat * 1000
            &&& probe.attempts@.len() == 0
            &&& probe.channel is Some <==> *phase is ProbeThrough
        },
{
    match phase {
        RadarPhase::ProbeBest { destination } => Some(
            PaymentProbe::new(created_at, source, None, &destination.pub_key, amount_sat),
        ),
        RadarPhase::ProbeThrough { destination, channel } => Some(
            PaymentProbe::new(
                created_at,
                source,
                Some(channel.clone()),
                &destination.pub_key,
                amount_sat,
            ),
        ),
        _ => None,
    }
}

// How a probe that is due is carried out.

/// How far a probe that is due has been carried out.
#[derive(Clone, Copy, Debug, PartialEq, Eq, Structural)]
pub enum ExecutionPhase {
    /// It may still be called off.
    Due,
    /// It is to be run.
    Running,
    /// It is to be saved.
    Saving,
    /// It is to be told, under the ID that it was saved under.
    Telling { id: i64 },
    /// The radar is to pause, until the time is up or it is asked to stop.
    Pausing { secs: u64 },
    /// There is nothing left to do.
    Done,
    /// The program is to end: money was paid out.
    Quit,
}

/// What happens to a probe that is carried out.
#[derive(Clone, Copy, Debug, PartialEq, Eq, Structural)]
pub enum ExecutionEvent {
    /// The radar was asked to stop before the probe was begun.
    Cancelled,
    /// The probe may begin.
    Begun,
    /// The probe was run, and tried so many times.
    Ended { end: ProbeEnd, attempts: usize },
    /// The probe was saved.
    Saved { id: i64 },
    /// The probe could not be saved.
    SaveFailed,
    /// The probe was told.
    Told,
    /// The pause is over.
    Paused,
}

/// The pause between probes, if one of so many seconds is asked for.
pub open spec fn pause_phase(delay: int) -> ExecutionPhase {
    if delay > 0 {
        ExecutionPhase::Pausing { secs: delay as u64 }
    } else {
        ExecutionPhase::Done
    }
}

/// What an event makes of a probe that is carried out, where `delay` seconds are
/// asked for between probes.
pub open spec fn execution_next(
    delay: int,
    phase: ExecutionPhase,
    event: ExecutionEvent,
) -> ExecutionPhase {
    match (phase, event) {
        (ExecutionPhase::Due, ExecutionEvent::Cancelled) => ExecutionPhase::Done,
        (ExecutionPhase::Due, ExecutionEvent::Begun) => ExecutionPhase::Running,
        (ExecutionPhase::Running, ExecutionEvent::Ended { end, attempts }) => {
            if end == ProbeEnd::UnexpectedSuccess {
                ExecutionPhase::Quit
            } else if end == ProbeEnd::Finished && attempts > 0 {
                ExecutionPhase::Saving
            } else {
                pause_phase(delay)
            }
        },
        (ExecutionPhase::Saving, ExecutionEvent::Saved { id }) => ExecutionPhase::Telling { id },
        (ExecutionPhase::Saving, ExecutionEvent::SaveFailed) => pause_phase(delay),
        (ExecutionPhase::Telling { .. }, ExecutionEvent::Told) => pause_phase(delay),
        (ExecutionPhase::Pausing { .. }, ExecutionEvent::Paused) => ExecutionPhase::Done,
        _ => phase,
    }
}

/// The pause between probes, if one is asked for.
fn pause(delay: i32) -> (r: ExecutionPhase)
    ensures
        r == pause_phase(delay as int),
{
    if delay > 0 {
        ExecutionPhase::Pausing { secs: delay as u64 }
    } else {
        ExecutionPhase::Done
    }
}

/// Takes on a probe that is carried out, by what happened to it. A probe that ran
/// its course and was tried at all is saved, and one that was saved is told. Then
/// the radar pauses for `delay` seconds if that is more than none, whatever came of
/// the probe. A payment that was settled ends it all. What cannot happen as far as
/// it has come changes nothing.
pub fn execute_payment_probe(delay: i32, phase: ExecutionPhase, event: ExecutionEvent) -> (r:
    ExecutionPhase)
    ensures
        r == execution_next(delay as int, phase, event),
{
    match (phase, event) {
        (ExecutionPhase::Due, ExecutionEvent::Cancelled) => ExecutionPhase::Done,
        (ExecutionPhase::Due, ExecutionEvent::Begun) => ExecutionPhase::Running,
        (ExecutionPhase::Running, ExecutionEvent::Ended { end, attempts }) => match end {
            ProbeEnd::UnexpectedSuccess => ExecutionPhase::Quit,
            ProbeEnd::Finished => if attempts > 0 {
                ExecutionPhase::Saving
            } else {
                pause(delay)
            },
            ProbeEnd::Failed => pause(delay),
        },
        (ExecutionPhase::Saving, ExecutionEvent::Saved { id }) => ExecutionPhase::Telling { id },
        (ExecutionPhase::Saving, ExecutionEvent::SaveFailed) => pause(delay),
        (ExecutionPhase::Telling { .. }, ExecutionEvent::Told) => pause(delay),
        (ExecutionPhase::Pausing { .. }, ExecutionEvent::Paused) => ExecutionPhase::Done,
        (phase, _) => phase,
    }
}

// What holds of every probe that is carried out.

/// What a series of events makes of a probe that is due.
pub open spec fn execution_after(delay: int, events: Seq<ExecutionEvent>) -> ExecutionPhase
    decreases events.len(),
{
    if events.len() == 0 {
        ExecutionPhase::Due
    } else {
        execution_next(delay, execution_after(delay, events.drop_last()), events.last())
    }
}

/// Whether the event at position `j` came when the probe had been carried out as
/// far as `phase`.
pub open spec fn happened_in(
    delay: int,
    events: Seq<ExecutionEvent>,
    j: int,
    phase: ExecutionPhase,
) -> bool {
    0 <= j < events.len() && execution_after(delay, events.take(j)) == phase
}

/// What happened before some point has still happened later.
proof fn lemma_happened_before(
    delay: int,
    events: Seq<ExecutionEvent>,
    j: int,
    phase: ExecutionPhase,
)
    requires
        events.len() > 0,
        happened_in(delay, events.drop_last(), j, phase),
    ensures
        happened_in(delay, events, j, phase),
        events[j] == events.drop_last()[j],
{
    assert(events.drop_last().take(j) =~= events.take(j));
}

/// The last event came when the probe had been carried out as far as the events
/// before it had taken it.
proof fn lemma_happened_last(delay: int, events: Seq<ExecutionEvent>)
    requires
        events.len() > 0,
    ensures
        happened_in(
            delay,
            events,
            events.len() - 1,
            execution_after(delay, events.drop_last()),
        ),
{
    assert(events.take(events.len() - 1) =~= events.drop_last());
}

/// How many steps at least have been taken to come as far as `phase`.
pub open spec fn progress(phase: ExecutionPhase) -> nat {
    match phase {
        ExecutionPhase::Due => 0,
        ExecutionPhase::Running => 1,
        ExecutionPhase::Saving => 2,
        ExecutionPhase::Telling { .. } => 3,
        ExecutionPhase::Pausing { .. } => 4,
        ExecutionPhase::Done => 5,
        ExecutionPhase::Quit => 5,
    }
}

/// A probe never goes back to where it was before, so nothing is done twice for
/// it: it is run, saved and told at most once each.
pub proof fn law_nothing_is_done_twice(delay: int, phase: ExecutionPhase, event: ExecutionEvent)
    ensures
        execution_next(delay, phase, event) == phase || progress(
            execution_next(delay, phase, event),
        ) > progress(phase),
{
}

/// A probe that is called off before it has begun is not run, saved or told, and
/// nothing is waited for: it is done with at once, and stays so.
pub proof fn law_cancelled_probes_do_nothing(delay: int, events: Seq<ExecutionEvent>, j: int)
    requires
        happened_in(delay, events, j, ExecutionPhase::Due),
        events[j] == ExecutionEvent::Cancelled,
    ensures
        forall|m: int|
            j < m <= events.len() ==> #[trigger] execution_after(delay, events.take(m))
                == ExecutionPhase::Done,
{
    assert forall|m: int| j < m <= events.len() implies #[trigger] execution_after(
        delay,
        events.take(m),
    ) == ExecutionPhase::Done by {
        lemma_cancelled_stays_done(delay, events, j, m);
    }
}

/// A probe that was called off is done with at every later point.
proof fn lemma_cancelled_stays_done(delay: int, events: Seq<ExecutionEvent>, j: int, m: int)
    requires
        happened_in(delay, events, j, ExecutionPhase::Due),
        events[j] == ExecutionEvent::Cancelled,
        j < m <= events.len(),
    ensures
        execution_after(delay, events.take(m)) == ExecutionPhase::Done,
    decreases m,
{
    assert(events.take(m).drop_last() =~= events.take(m - 1));
    if m > j + 1 {
        lemma_cancelled_stays_done(delay, events, j, m - 1);
    }
}

/// A probe comes to be saved exactly by having been run to its end and tried at
/// least once.
pub proof fn law_saved_probes_were_tried(delay: int, events: Seq<ExecutionEvent>)
    ensures
        execution_after(delay, events) == ExecutionPhase::Saving ==> exists|j: int|
            #[trigger] happened_in(delay, events, j, ExecutionPhase::Running) && (events[j] matches
                ExecutionEvent::Ended { end, attempts } && end == ProbeEnd::Finished && attempts
                > 0),
        execution_after(delay, events) == ExecutionPhase::Running ==> forall|attempts: usize|
            attempts > 0 ==> execution_after(
                delay,
                #[trigger] events.push(
                    ExecutionEvent::Ended { end: ProbeEnd::Finished, attempts },
                ),
            ) == ExecutionPhase::Saving,
    decreases events.len(),
{
    if execution_after(delay, events) == ExecutionPhase::Saving {
        let before = events.drop_last();
        if execution_after(delay, before) == ExecutionPhase::Saving {
            law_saved_probes_were_tried(delay, before);
            let j = choose|j: int|
                #[trigger] happened_in(delay, before, j, ExecutionPhase::Running) && (
                before[j] matches ExecutionEvent::Ended { end, attempts } && end
                    == ProbeEnd::Finished && attempts > 0);
            lemma_happened_before(delay, events, j, ExecutionPhase::Running);
        } else {
            lemma_happened_last(delay, events);
        }
    }
    assert forall|attempts: usize|
        execution_after(delay, events) == ExecutionPhase::Running && attempts
            > 0 implies execution_after(
        delay,
        #[trigger] events.push(ExecutionEvent::Ended { end: ProbeEnd::Finished, attempts }),
    ) == ExecutionPhase::Saving by {
        let event = ExecutionEvent::Ended { end: ProbeEnd::Finished, attempts };
        assert(events.push(event).drop_last() =~= events);
    }
}

/// A probe comes to be told exactly by having been saved, under the ID that it was
/// saved under.
pub proof fn law_told_probes_were_saved(delay: int, events: Seq<ExecutionEvent>, id: i64)
    ensures
        execution_after(delay, events) == (ExecutionPhase::Telling { id }) ==> exists|j: int|
            #[trigger] happened_in(delay, events, j, ExecutionPhase::Saving) && events[j] == (
            ExecutionEvent::Saved { id }),
        execution_after(delay, events) == ExecutionPhase::Saving ==> execution_after(
            delay,
            events.push(ExecutionEvent::Saved { id }),
        ) == (ExecutionPhase::Telling { id }),
    decreases events.len(),
{
    if execution_after(delay, events) == (ExecutionPhase::Telling { id }) {
        let before = events.drop_last();
        if execution_after(delay, before) == (ExecutionPhase::Telling { id }) {
            law_told_probes_were_saved(delay, before, id);
            let j = choose|j: int|
                #[trigger] happened_in(delay, before, j, ExecutionPhase::Saving) && before[j] == (
                ExecutionEvent::Saved { id });
            lemma_happened_before(delay, events, j, ExecutionPhase::Saving);
        } else {
            lemma_happened_last(delay, events);
        }
    }
    assert(events.push(ExecutionEvent::Saved { id }).drop_last() =~= events);
}

/// Whether the probe was called off at position `j`, or the pause behind it was
/// over then.
pub open spec fn done_at(delay: int, events: Seq<ExecutionEvent>, j: int) -> bool {
    ||| happened_in(delay, events, j, ExecutionPhase::Due) && events[j]
        == ExecutionEvent::Cancelled
    ||| happened_in(delay, events, j, ExecutionPhase::Pausing { secs: delay as u64 }) && events[j]
        == ExecutionEvent::Paused
}

/// Where seconds are asked for between probes, the radar pauses for that many: a
/// probe that was begun is done with only when the pause is over, whatever came of
/// it. Where none are asked for, there is no pause.
pub proof fn law_radar_pauses_between_probes(delay: int, events: Seq<ExecutionEvent>)
    ensures
        delay > 0 && execution_after(delay, events) == ExecutionPhase::Done ==> exists|j: int|
            #[trigger] done_at(delay, events, j),
        execution_after(delay, events) matches ExecutionPhase::Pausing { secs } ==> delay > 0
            && secs == delay as u64,
    decreases events.len(),
{
    if events.len() > 0 {
        let before = events.drop_last();
        law_radar_pauses_between_probes(delay, before);
        lemma_happened_last(delay, events);
        if delay > 0 && execution_after(delay, events) == ExecutionPhase::Done {
            if execution_after(delay, before) == ExecutionPhase::Done {
                let j = choose|j: int| #[trigger] done_at(delay, before, j);
                if before[j] == ExecutionEvent::Cancelled {
                    lemma_happened_before(delay, events, j, ExecutionPhase::Due);
                } else {
                    lemma_happened_before(
                        delay,
                        events,
                        j,
                        ExecutionPhase::Pausing { secs: delay as u64 },
                    );
                }
                assert(done_at(delay, events, j));
            } else {
                assert(done_at(delay, events, events.len() - 1));
            }
        }
    }
}

// What holds of every round.

/// What a series of events makes of the radar.
pub open spec fn radar_after(source: Seq<char>, events: Seq<RadarEvent>) -> RadarPhase
    decreases events.len(),
{
    if events.len() == 0 {
        RadarPhase::PickDestination
    } else {
        radar_next(source, radar_after(source, events.drop_last()), events.last())
    }
}

/// Whether the destination of a round is another node, and the channel to leave
/// by does not lead there directly.
pub open spec fn aims_elsewhere(source: Seq<char>, phase: RadarPhase) -> bool {
    match phase {
        RadarPhase::ProbeBest { destination } => destination.pub_key@ != source,
        RadarPhase::PickChannel { destination } => destination.pub_key@ != source,
        RadarPhase::ProbeThrough { destination, channel } => destination.pub_key@ != source
            && channel.remote_pubkey@ != destination.pub_key@,
        _ => true,
    }
}

/// Whatever happens, the local node is never probed, and no probe is sent out
/// through a direct channel with its destination.
pub proof fn law_probes_aim_elsewhere(
    source: Seq<char>,
    events: Seq<RadarEvent>,
    created_at: Timestamp,
    amount_sat: u64,
    probe: PaymentProbe,
)
    ensures
        aims_elsewhere(source, radar_after(source, events)),
        is_due(source, radar_after(source, events), created_at, amount_sat, probe) ==> {
            &&& probe.dst_node_pubkey@ != probe.src_node_pubkey@
            &&& probe.channel matches Some(channel) ==> channel.remote_pubkey@
                != probe.dst_node_pubkey@
        },
    decreases events.len(),
{
    if events.len() > 0 {
        law_probes_aim_elsewhere(source, events.drop_last(), created_at, amount_sat, probe);
    }
}

/// Whether a round is past its first probe, on its way to `destination`.
pub open spec fn past_first_probe(phase: RadarPhase, destination: LightningNode) -> bool {
    ||| phase == (RadarPhase::PickChannel { destination })
    ||| phase matches RadarPhase::ProbeThrough { destination: d, .. } && d == destination
}

/// A route through a channel picked at random is probed only after the best route
/// to the same destination was, in the same round: from the first probe on, no
/// other destination came between.
pub proof fn law_best_route_is_probed_first(
    source: Seq<char>,
    events: Seq<RadarEvent>,
    destination: LightningNode,
)
    requires
        past_first_probe(radar_after(source, events), destination),
    ensures
        exists|j: int|
            {
                &&& 0 <= j < events.len()
                &&& #[trigger] events[j] is Probed
                &&& radar_after(source, events.take(j)) == (RadarPhase::ProbeBest { destination })
                &&& forall|m: int|
                    j < m <= events.len() ==> past_first_probe(
                        #[trigger] radar_after(source, events.take(m)),
                        destination,
                    )
            },
    decreases events.len(),
{
    let n = events.len() as int;
    let before = events.drop_last();
    let phase = radar_after(source, before);
    assert(events.take(n) =~= events);
    assert(events.take(n - 1) =~= before);
    if past_first_probe(phase, destination) {
        law_best_route_is_probed_first(source, before, destination);
        let j = choose|j: int|
            {
                &&& 0 <= j < before.len()
                &&& #[trigger] before[j] is Probed
                &&& radar_after(source, before.take(j)) == (RadarPhase::ProbeBest { destination })
                &&& forall|m: int|
                    j < m <= before.len() ==> past_first_probe(
                        #[trigger] radar_after(source, before.take(m)),
                        destination,
                    )
            };
        assert(before[j] == events[j]);
        assert(before.take(j) =~= events.take(j));
        assert forall|m: int| j < m <= n implies past_first_probe(
            #[trigger] radar_after(source, events.take(m)),
            destination,
        ) by {
            if m < n {
                assert(before.take(m) =~= events.take(m));
            }
        }
    } else {
        assert(events[n - 1] is Probed);
        assert(phase == (RadarPhase::ProbeBest { destination }));
    }
}

/// The node that a round is on its way to.
pub open spec fn destination_of(phase: RadarPhase) -> Option<LightningNode> {
    match phase {
        RadarPhase::ProbeBest { destination } => Some(destination),
        RadarPhase::PickChannel { destination } => Some(destination),
        RadarPhase::ProbeThrough { destination, .. } => Some(destination),
        _ => None,
    }
}

/// Whether the destination of the present round was picked at position `j`, and
/// kept since.
pub open spec fn destination_picked_at(
    source: Seq<char>,
    events: Seq<RadarEvent>,
    j: int,
    destination: LightningNode,
) -> bool {
    &&& 0 <= j < events.len()
    &&& events[j] == RadarEvent::Destination(Some(destination))
    &&& forall|m: int|
        j < m <= events.len() ==> destination_of(#[trigger] radar_after(source, events.take(m)))
            == Some(destination)
}

/// Whether the channel of the present round was picked at position `j`, for its
/// destination, and kept since.
pub open spec fn channel_picked_at(
    source: Seq<char>,
    events: Seq<RadarEvent>,
    j: int,
    destination: LightningNode,
    channel: Channel,
) -> bool {
    &&& 0 <= j < events.len()
    &&& events[j] == RadarEvent::Through(Some(channel))
    &&& forall|m: int|
        j < m <= events.len() ==> #[trigger] radar_after(source, events.take(m)) == (
        RadarPhase::ProbeThrough { destination, channel })
}

/// The destination of a round was picked at some point, and kept since.
proof fn lemma_destination_was_picked(source: Seq<char>, events: Seq<RadarEvent>) -> (j: int)
    requires
        destination_of(radar_after(source, events)) is Some,
    ensures
        destination_picked_at(
            source,
            events,
            j,
            destination_of(radar_after(source, events))->0,
        ),
    decreases events.len(),
{
    let n = events.len() as int;
    let before = events.drop_last();
    let destination = destination_of(radar_after(source, events))->0;
    assert(events.take(n) =~= events);
    if destination_of(radar_after(source, before)) is Some {
        let j = lemma_destination_was_picked(source, before);
        assert forall|m: int| j < m <= n implies destination_of(
            #[trigger] radar_after(source, events.take(m)),
        ) == Some(destination) by {
            if m < n {
                assert(before.take(m) =~= events.take(m));
            }
        }
        j
    } else {
        n - 1
    }
}

/// The channel of a round was picked at some point, and kept since.
proof fn lemma_channel_was_picked(source: Seq<char>, events: Seq<RadarEvent>) -> (j: int)
    requires
        radar_after(source, events) is ProbeThrough,
    ensures
        radar_after(source, events) matches RadarPhase::ProbeThrough { destination, channel }
            && channel_picked_at(source, events, j, destination, channel),
    decreases events.len(),
{
    let n = events.len() as int;
    let before = events.drop_last();
    assert(events.take(n) =~= events);
    if radar_after(source, before) is ProbeThrough {
        let j = lemma_channel_was_picked(source, before);
        assert forall|m: int| j < m <= n implies #[trigger] radar_after(source, events.take(m))
            == radar_after(source, events) by {
            if m < n {
                assert(before.take(m) =~= events.take(m));
            }
        }
        j
    } else {
        n - 1
    }
}

/// Whatever happens, and however the lists change meanwhile: the destination of
/// every probe is one of the nodes that were listed when it was picked, and the
/// channel that it leaves by, if it is not free to choose, is one of the channels
/// that were. `nodes` and `channels` hold what was listed at each event.
pub proof fn law_probes_use_what_is_listed(
    source: Seq<char>,
    events: Seq<RadarEvent>,
    nodes: Seq<Seq<LightningNode>>,
    channels: Seq<Seq<Channel>>,
    created_at: Timestamp,
    amount_sat: u64,
    probe: PaymentProbe,
)
    requires
        nodes.len() == events.len(),
        channels.len() == events.len(),
        forall|i: int|
            0 <= i < events.len() ==> picks_listed(#[trigger] events[i], nodes[i], channels[i]),
        is_due(source, radar_after(source, events), created_at, amount_sat, probe),
    ensures
        exists|j: int, destination: LightningNode|
            {
                &&& #[trigger] destination_picked_at(source, events, j, destination)
                &&& nodes[j].contains(destination)
                &&& probe.dst_node_pubkey@ == destination.pub_key@
            },
        probe.channel matches Some(channel) ==> exists|j: int, destination: LightningNode|
            {
                &&& #[trigger] channel_picked_at(source, events, j, destination, channel)
                &&& channels[j].contains(channel)
                &&& probe.dst_node_pubkey@ == destination.pub_key@
            },
{
    let destination = destination_of(radar_after(source, events))->0;
    let j = lemma_destination_was_picked(source, events);
    assert(picks_listed(events[j], nodes[j], channels[j]));
    if let Some(channel) = probe.channel {
        let k = lemma_channel_was_picked(source, events);
        assert(picks_listed(events[k], nodes[k], channels[k]));
        assert(channel_picked_at(source, events, k, destination, channel));
    }
}

/// Every probe that is due is of whole satoshi, and keeps to the spread around the
/// base amount. It starts at the local node, and has not been tried.
pub proof fn law_probes_keep_to_the_spread(
    source: Seq<char>,
    phase: RadarPhase,
    created_at: Timestamp,
    amount_sat: u64,
    probe: PaymentProbe,
)
    requires
        is_due(source, phase, created_at, amount_sat, probe),
    ensures
        probe.amount_msat % 1000 == 0,
        130_000_000 <= probe.amount_msat <= 270_000_000,
        probe.src_node_pubkey@ == source,
        probe.attempts@.len() == 0,
{
}

/// A radar that has stopped stays so.
pub proof fn law_stopped_stays_stopped(source: Seq<char>, end: RadarEnd, event: RadarEvent)
    ensures
        radar_next(source, RadarPhase::Stopped(end), event) == RadarPhase::Stopped(end),
{
}

// What each step of a round comes to.

/// A destination that was picked is probed, unless it is the local node itself; only
/// then is another picked.
pub proof fn law_picked_destinations_are_probed(source: Seq<char>, destination: LightningNode)
    ensures
        destination.pub_key@ != source ==> radar_next(
            source,
            RadarPhase::PickDestination,
            RadarEvent::Destination(Some(destination)),
        ) == (RadarPhase::ProbeBest { destination }),
        destination.pub_key@ == source ==> radar_next(
            source,
            RadarPhase::PickDestination,
            RadarEvent::Destination(Some(destination)),
        ) == RadarPhase::PickDestination,
{
}

/// A channel that was picked is probed through, unless it leads to the destination
/// directly; then, and after it was, the round is over.
pub proof fn law_picked_channels_are_probed_through(
    source: Seq<char>,
    destination: LightningNode,
    channel: Channel,
)
    ensures
        channel.remote_pubkey@ != destination.pub_key@ ==> radar_next(
            source,
            RadarPhase::PickChannel { destination },
            RadarEvent::Through(Some(channel)),
        ) == (RadarPhase::ProbeThrough { destination, channel }),
        channel.remote_pubkey@ == destination.pub_key@ ==> radar_next(
            source,
            RadarPhase::PickChannel { destination },
            RadarEvent::Through(Some(channel)),
        ) == RadarPhase::PickDestination,
        radar_next(source, RadarPhase::ProbeBest { destination }, RadarEvent::Probed) == (
        RadarPhase::PickChannel { destination }),
        radar_next(source, RadarPhase::ProbeThrough { destination, channel }, RadarEvent::Probed)
            == RadarPhase::PickDestination,
{
}

/// The radar stops exactly where it is asked to between rounds, where there is
/// nothing to pick from, and where the node could not be asked for what to pick
/// from; and for no other reason than the one it stops for.
pub proof fn law_the_radar_stops_only_for_a_reason(
    source: Seq<char>,
    phase: RadarPhase,
    event: RadarEvent,
)
    requires
        !(phase is Stopped),
    ensures
        radar_next(source, phase, event) == RadarPhase::Stopped(RadarEnd::Cancelled) <==> phase
            is PickDestination && event is Cancelled,
        radar_next(source, phase, event) == RadarPhase::Stopped(RadarEnd::NoNodes) <==> phase
            is PickDestination && event == RadarEvent::Destination(None),
        radar_next(source, phase, event) == RadarPhase::Stopped(RadarEnd::NoChannels) <==> phase
            is PickChannel && event == RadarEvent::Through(None),
        radar_next(source, phase, event) == RadarPhase::Stopped(RadarEnd::Failed) <==> (phase
            is PickDestination || phase is PickChannel) && event is Failed,
{
}

/// What cannot happen as far as a round has come changes nothing.
pub proof fn law_events_out_of_turn_change_nothing(
    source: Seq<char>,
    phase: RadarPhase,
    event: RadarEvent,
)
    ensures
        phase is PickDestination && (event is Through || event is Probed) ==> radar_next(
            source,
            phase,
            event,
        ) == phase,
        phase is PickChannel && (event is Cancelled || event is Destination || event is Probed)
            ==> radar_next(source, phase, event) == phase,
        (phase is ProbeBest || phase is ProbeThrough) && !(event is Probed) ==> radar_next(
            source,
            phase,
            event,
        ) == phase,
{
}

/// The probe that is due goes to the destination of the round: on any route in the
/// first probe, through the channel that was picked in the second. In no other phase
/// is one due.
pub proof fn law_due_probes_follow_the_round(
    source: Seq<char>,
    phase: RadarPhase,
    created_at: Timestamp,
    amount_sat: u64,
    probe: PaymentProbe,
)
    requires
        is_due(source, phase, created_at, amount_sat, probe),
    ensures
        probe.created_at == created_at,
        probe.amount_msat == 1000 * amount_sat,
        phase is ProbeBest || phase is ProbeThrough,
        phase matches RadarPhase::ProbeBest { destination } ==> probe.channel is None
            && probe.dst_node_pubkey@ == destination.pub_key@,
        phase matches RadarPhase::ProbeThrough { destination, channel } ==> probe.channel == Some(
            channel,
        ) && probe.dst_node_pubkey@ == destination.pub_key@,
{
}

/// What comes of a probe that was run: money that was paid out ends the program; one
/// that ran its course and was tried is saved; after any other, and after one that
/// was told or could not be saved, the radar pauses as long as is asked for.
pub proof fn law_runs_lead_on(delay: int, end: ProbeEnd, attempts: usize, id: i64)
    ensures
        ({
            let next = execution_next(
                delay,
                ExecutionPhase::Running,
                ExecutionEvent::Ended { end, attempts },
            );
            let pause = if delay > 0 {
                ExecutionPhase::Pausing { secs: delay as u64 }
            } else {
                ExecutionPhase::Done
            };
            &&& next == ExecutionPhase::Quit <==> end == ProbeEnd::UnexpectedSuccess
            &&& next == ExecutionPhase::Saving <==> end == ProbeEnd::Finished && attempts > 0
            &&& next == pause <==> end == ProbeEnd::Failed || end == ProbeEnd::Finished && attempts
                == 0
            &&& execution_next(delay, ExecutionPhase::Saving, ExecutionEvent::SaveFailed) == pause
            &&& execution_next(delay, ExecutionPhase::Telling { id }, ExecutionEvent::Told)
                == pause
        }),
        execution_next(delay, ExecutionPhase::Due, ExecutionEvent::Begun)
            == ExecutionPhase::Running,
        execution_next(delay, ExecutionPhase::Due, ExecutionEvent::Cancelled)
            == ExecutionPhase::Done,
        forall|secs: u64|
            #[trigger] execution_next(
                delay,
                ExecutionPhase::Pausing { secs },
                ExecutionEvent::Paused,
            ) == ExecutionPhase::Done,
{
}

/// The radar goes on only by what belongs to the phase of the probe.
pub proof fn law_other_events_change_nothing(
    delay: int,
    phase: ExecutionPhase,
    event: ExecutionEvent,
)
    ensures
        execution_next(delay, phase, event) != phase ==> (match phase {
            ExecutionPhase::Due => event == ExecutionEvent::Cancelled || event
                == ExecutionEvent::Begun,
            ExecutionPhase::Running => event is Ended,
            ExecutionPhase::Saving => event is Saved || event == ExecutionEvent::SaveFailed,
            ExecutionPhase::Telling { .. } => event == ExecutionEvent::Told,
            ExecutionPhase::Pausing { .. } => event == ExecutionEvent::Paused,
            ExecutionPhase::Done => false,
            ExecutionPhase::Quit => false,
        }),
{
}

} // verus!
