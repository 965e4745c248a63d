//! What is told of a probe.
use crate::agent::texts;
use crate::network::LightningNode;
use crate::probe::{in_sequence, PaymentProbe, PaymentProbeAttempt};
use crate::text::{decimal, decimal_int, push_decimal, push_decimal_int};
use vstd::prelude::*;
use vstd::string::*;

verus! {

/// The name of a node: its alias, or its public key where it is not known.
pub open spec fn peer_name(nodes: Seq<LightningNode>, key: Seq<char>) -> Seq<char>
    decreases nodes.len(),
{
    if nodes.len() == 0 {
        key
    } else if nodes[0].pub_key@ == key {
        nodes[0].alias@
    } else {
        peer_name(nodes.skip(1), key)
    }
}

fn find_peer_name<'a>(nodes: &'a Vec<LightningNode>, key: &'a String) -> (r: &'a str)
    ensures
        r@ == peer_name(nodes@, key@),
{
    let mut i: usize = 0;
    assert(nodes@.skip(0) =~= nodes@);
    while i < nodes.len()
        invariant
            i <= nodes@.len(),
            peer_name(nodes@, key@) == peer_name(nodes@.skip(i as int), key@),
        decreases nodes@.len() - i,
    {
        if nodes[i].pub_key == *key {
            return nodes[i].alias.as_str();
        }
        assert(nodes@.skip(i as int).skip(1) =~= nodes@.skip(i + 1));
        i = i + 1;
    }
    key.as_str()
}

/// A try of a probe in short: how many seconds it took, and what stopped it where.
pub open spec fn attempt_summary(time: Seq<char>, attempt: PaymentProbeAttempt) -> Seq<char> {
    match attempt.failure {
        None => "["@ + time + "s]"@,
        Some(failure) => "["@ + time + "s; code:"@ + decimal_int(failure.code as int) + "; hop:"@
            + decimal(failure.failure_source_index as nat) + "/"@ + decimal(
            attempt.route.hops@.len(),
        ) + "]"@,
    }
}

/// The tries of a probe in short, with spaces between.
pub open spec fn attempts_summary(
    times: Seq<String>,
    attempts: Seq<PaymentProbeAttempt>,
) -> Seq<char>
    decreases attempts.len(),
{
    if attempts.len() == 0 {
        Seq::empty()
    } else if attempts.len() == 1 {
        attempt_summary(times[0]@, attempts[0])
    } else {
        attempts_summary(times.drop_last(), attempts.drop_last()) + " "@ + attempt_summary(
            times.last()@,
            attempts.last(),
        )
    }
}

fn push_attempt_summary(out: &mut String, time: &String, attempt: &PaymentProbeAttempt)
    ensures
        final(out)@ == old(out)@ + attempt_summary(time@, *attempt),
{
    let ghost before = out@;
    let mut summary = String::from_str("[");
    summary.append(time.as_str());
    match &attempt.failure {
        None => {
            summary.append("s]");
        },
        Some(failure) => {
            summary.append("s; code:");
            push_decimal_int(&mut summary, failure.code as i64);
            summary.append("; hop:");
            push_decimal(&mut summary, failure.failure_source_index as u64);
            summary.append("/");
            push_decimal(&mut summary, attempt.route.hops.len() as u64);
            summary.append("]");
        },
    }
    out.append(summary.as_str());
}

fn attempts_summary_text(times: &Vec<String>, attempts: &Vec<PaymentProbeAttempt>) -> (r: String)
    requires
        times@.len() == attempts@.len(),
    ensures
        r@ == attempts_summary(times@, attempts@),
{
    let mut out = String::new();
    let mut i: usize = 0;
    while i < attempts.len()
        invariant
            i <= attempts@.len(),
            times@.len() == attempts@.len(),
            out@ == attempts_summary(times@.take(i as int), attempts@.take(i as int)),
        decreases attempts@.len() - i,
    {
        assert(times@.take(i + 1).drop_last() =~= times@.take(i as int));
        assert(attempts@.take(i + 1).drop_last() =~= attempts@.take(i as int));
        if i > 0 {
            out.append(" ");
        }
        push_attempt_summary(&mut out, &times[i], &attempts[i]);
        assert(i == 0 ==> out@ =~= attempt_summary(times@[0]@, attempts@[0]));
        i = i + 1;
    }
    assert(times@.take(times@.len() as int) =~= times@);
    assert(attempts@.take(attempts@.len() as int) =~= attempts@);
    out
}

/// Whether a probe arrived: its last try did.
pub open spec fn arrived(attempts: Seq<PaymentProbeAttempt>) -> bool {
    attempts.len() > 0 && attempts.last().failure is None
}

/// What is told of a probe that was recorded under `id`. The seconds that each try
/// took are given as text.
pub open spec fn probe_report(
    nodes: Seq<LightningNode>,
    probe: PaymentProbe,
    destination: LightningNode,
    id: int,
    times: Seq<String>,
) -> Seq<Seq<char>> {
    seq![
        "PROBE "@ + decimal_int(id),
        "    Destination Peer:    "@ + destination.alias@ + " ("@ + destination.pub_key@ + ")"@,
    ] + (match probe.channel {
        Some(channel) => seq![
            "    Outgoing Channel:    "@ + decimal(channel.chan_id as nat) + " ["@ + peer_name(
                nodes,
                channel.remote_pubkey@,
            ) + "]"@,
        ],
        None => seq![],
    }) + seq![
        "    Amount:              "@ + decimal((probe.amount_msat / 1000) as nat) + " sat"@,
        "    Result:              "@ + (if arrived(probe.attempts@) {
            "SUCCESS"@
        } else {
            "FAILURE"@
        }),
        "    Attempts:            "@ + decimal(probe.attempts@.len()) + " "@ + attempts_summary(
            times,
            probe.attempts@,
        ),
    ]
}

/// Puts together what is told of a probe, line by line.
pub fn print_payment_probe(
    nodes: &Vec<LightningNode>,
    probe: &PaymentProbe,
    destination: &LightningNode,
    id: i64,
    times: &Vec<String>,
) -> (r: Vec<String>)
    requires
        times@.len() == probe.attempts@.len(),
    ensures
        texts(r@) == probe_report(nodes@, *probe, *destination, id as int, times@),
{
    let mut lines: Vec<String> = Vec::new();
    let mut line = String::from_str("PROBE ");
    push_decimal_int(&mut line, id);
    lines.push(line);
    let mut line = String::from_str("    Destination Peer:    ");
    line.append(destination.alias.as_str());
    line.append(" (");
    line.append(destination.pub_key.as_str());
    line.append(")");
    lines.push(line);
    if let Some(channel) = &probe.channel {
        let mut line = String::from_str("    Outgoing Channel:    ");
        push_decimal(&mut line, channel.chan_id);
        line.append(" [");
        line.append(find_peer_name(nodes, &channel.remote_pubkey));
        line.append("]");
        lines.push(line);
    }
    let mut line = String::from_str("    Amount:              ");
    push_decimal(&mut line, probe.amount_msat / 1000);
    line.append(" sat");
    lines.push(line);
    let mut line = String::from_str("    Result:              ");
    let count: usize = probe.attempts.len();
    if count > 0 && probe.attempts[count - 1].failure.is_none() {
        line.append("SUCCESS");
    } else {
        line.append("FAILURE");
    }
    lines.push(line);
    let mut line = String::from_str("    Attempts:            ");
    push_decimal(&mut line, count as u64);
    line.append(" ");
    line.append(attempts_summary_text(times, &probe.attempts).as_str());
    lines.push(line);
    assert(texts(lines@) =~= probe_report(nodes@, *probe, *destination, id as int, times@));
    lines
}

/// A probe whose tries are numbered in sequence is told to have arrived exactly
/// where one of them did.
pub proof fn law_success_means_some_try_arrived(attempts: Seq<PaymentProbeAttempt>)
    requires
        in_sequence(attempts),
    ensures
        arrived(attempts) <==> exists|i: int|
            0 <= i < attempts.len() && (#[trigger] attempts[i]).failure is None,
{
    if arrived(attempts) {
        assert(attempts[attempts.len() - 1].failure is None);
    }
}

/// A node is told by the alias of the first node with its public key, and by the key
/// itself where there is none.
pub proof fn law_peers_are_told_by_alias(nodes: Seq<LightningNode>, key: Seq<char>, i: int)
    ensures
        0 <= i < nodes.len() && nodes[i].pub_key@ == key && (forall|j: int|
            0 <= j < i ==> (#[trigger] nodes[j]).pub_key@ != key) ==> peer_name(nodes, key)
            == nodes[i].alias@,
        (forall|j: int| 0 <= j < nodes.len() ==> (#[trigger] nodes[j]).pub_key@ != key)
            ==> peer_name(nodes, key) == key,
    decreases nodes.len(),
{
    if nodes.len() > 0 && nodes[0].pub_key@ != key {
        let rest = nodes.skip(1);
        law_peers_are_told_by_alias(rest, key, i - 1);
        if forall|j: int| 0 <= j < nodes.len() ==> (#[trigger] nodes[j]).pub_key@ != key {
            assert forall|j: int| 0 <= j < rest.len() implies (#[trigger] rest[j]).pub_key@
                != key by {
                assert(nodes[j + 1].pub_key@ != key);
            }
        }
        if 0 <= i < nodes.len() && nodes[i].pub_key@ == key && (forall|j: int|
            0 <= j < i ==> (#[trigger] nodes[j]).pub_key@ != key) {
            assert(rest[i - 1] == nodes[i]);
            assert forall|j: int| 0 <= j < i - 1 implies (#[trigger] rest[j]).pub_key@ != key by {
                assert(nodes[j + 1].pub_key@ != key);
            }
        }
    }
}

/// A try is told by how long it took; one that failed also by the number of the
/// refusal, and by the position of the node that refused among all the hops.
pub proof fn law_tries_are_told_in_short(time: Seq<char>, attempt: PaymentProbeAttempt)
    ensures
        attempt.failure is None ==> attempt_summary(time, attempt) == "["@ + time + "s]"@,
        attempt.failure matches Some(failure) ==> attempt_summary(time, attempt) == "["@ + time
            + "s; code:"@ + decimal_int(failure.code as int) + "; hop:"@ + decimal(
            failure.failure_source_index as nat,
        ) + "/"@ + decimal(attempt.route.hops@.len()) + "]"@,
{
}

/// The tries are told in order, one space between each two.
pub proof fn law_tries_are_told_in_order(
    times: Seq<String>,
    attempts: Seq<PaymentProbeAttempt>,
    time: String,
    attempt: PaymentProbeAttempt,
)
    requires
        times.len() == attempts.len(),
    ensures
        attempts_summary(Seq::empty(), Seq::empty()) == Seq::<char>::empty(),
        attempts.len() == 0 ==> attempts_summary(times.push(time), attempts.push(attempt))
            == attempt_summary(time@, attempt),
        attempts.len() > 0 ==> attempts_summary(times.push(time), attempts.push(attempt))
            == attempts_summary(times, attempts) + " "@ + attempt_summary(time@, attempt),
{
    assert(times.push(time).drop_last() =~= times);
    assert(attempts.push(attempt).drop_last() =~= attempts);
}

/// A probe is told by its ID, its destination, the channel that it left by, if it was
/// not free to choose, its amount in satoshi, whether its last try arrived, and its
/// tries.
pub proof fn law_probes_are_told_line_by_line(
    nodes: Seq<LightningNode>,
    probe: PaymentProbe,
    destination: LightningNode,
    id: int,
    times: Seq<String>,
)
    ensures
        ({
            let lines = probe_report(nodes, probe, destination, id, times);
            let n = lines.len() as int;
            &&& probe.channel is None <==> n == 5
            &&& probe.channel is Some <==> n == 6
            &&& lines[0] == "PROBE "@ + decimal_int(id)
            &&& lines[1] == "    Destination Peer:    "@ + destination.alias@ + " ("@
                + destination.pub_key@ + ")"@
            &&& probe.channel matches Some(channel) ==> lines[2] == "    Outgoing Channel:    "@
                + decimal(channel.chan_id as nat) + " ["@ + peer_name(
                nodes,
                channel.remote_pubkey@,
            ) + "]"@
            &&& lines[n - 3] == "    Amount:              "@ + decimal(
                probe.amount_msat as nat / 1000,
            ) + " sat"@
            &&& probe.attempts@.len() > 0 && probe.attempts@[probe.attempts@.len() - 1].failure
                is None ==> lines[n - 2] == "    Result:              "@ + "SUCCESS"@
            &&& probe.attempts@.len() == 0 || probe.attempts@[probe.attempts@.len() - 1].failure
                is Some ==> lines[n - 2] == "    Result:              "@ + "FAILURE"@
            &&& lines[n - 1] == "    Attempts:            "@ + decimal(probe.attempts@.len()) + " "@
                + attempts_summary(times, probe.attempts@)
        }),
{
}

} // verus!
