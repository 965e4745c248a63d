//! Digests of payments and of the paths that they take.
use crate::encoding::{hex_decoded, node_pubkey_bytes, HexError};
use crate::network::Hop;
use rand::Rng;
use sha2::Digest;
use vstd::prelude::*;
use vstd::utf8::*;

verus! {

/// The SHA-256 digest of `data`.
pub uninterp spec fn sha256(data: Seq<u8>) -> Seq<u8>;

/// Calls `sha2::Sha256::digest`, whose result is named `sha256`, and is 32 bytes
/// long.
#[verifier::external_body]
fn sha256_digest(data: &[u8]) -> (r: Vec<u8>)
    ensures
        r@ == sha256(data@),
        r@.len() == 32,
{
    sha2::Sha256::digest(data).to_vec()
}

/// Calls `rand::Rng::random` on the thread's generator, for an array of 32
/// bytes. Nothing is claimed of the bytes.
#[verifier::external_body]
fn random_preimage() -> (r: [u8; 32]) {
    rand::rng().random()
}

/// The digest under which a payment is sent whose preimage is `preimage`.
pub fn payment_hash(preimage: &[u8; 32]) -> (r: Vec<u8>)
    ensures
        r@ == sha256(preimage@),
        r@.len() == 32,
{
    sha256_digest(preimage.as_slice())
}

/// The digest of a preimage drawn at random. The destination cannot know the
/// preimage, so a payment under this digest is never settled.
pub fn unknown_payment_hash() -> (r: Vec<u8>)
    ensures
        exists|preimage: [u8; 32]| r@ == #[trigger] sha256(preimage@),
        r@.len() == 32,
{
    let preimage = random_preimage();
    payment_hash(&preimage)
}

/// The bytes of `n`, the most significant first.
pub open spec fn be_bytes(n: u64) -> Seq<u8> {
    seq![
        (n / 0x100_0000_0000_0000) as u8,
        (n / 0x1_0000_0000_0000 % 0x100) as u8,
        (n / 0x100_0000_0000 % 0x100) as u8,
        (n / 0x1_0000_0000 % 0x100) as u8,
        (n / 0x100_0000 % 0x100) as u8,
        (n / 0x1_0000 % 0x100) as u8,
        (n / 0x100 % 0x100) as u8,
        (n % 0x100) as u8,
    ]
}

fn push_be_bytes(out: &mut Vec<u8>, n: u64)
    ensures
        final(out)@ == old(out)@ + be_bytes(n),
{
    out.push((n / 0x100_0000_0000_0000) as u8);
    out.push((n / 0x1_0000_0000_0000 % 0x100) as u8);
    out.push((n / 0x100_0000_0000 % 0x100) as u8);
    out.push((n / 0x1_0000_0000 % 0x100) as u8);
    out.push((n / 0x100_0000 % 0x100) as u8);
    out.push((n / 0x1_0000 % 0x100) as u8);
    out.push((n / 0x100 % 0x100) as u8);
    out.push((n % 0x100) as u8);
    assert(out@ =~= old(out)@ + be_bytes(n));
}

/// The public keys along a path, one behind the other, or why the first of them
/// that is none cannot be read.
pub open spec fn node_path(hops: Seq<Hop>) -> Result<Seq<u8>, HexError>
    decreases hops.len(),
{
    if hops.len() == 0 {
        Ok(Seq::empty())
    } else {
        match node_path(hops.drop_last()) {
            Err(e) => Err(e),
            Ok(path) => match hex_decoded(encode_utf8(hops.last().pub_key@)) {
                Err(e) => Err(e),
                Ok(key) => Ok(path + key),
            },
        }
    }
}

/// The channel IDs along a path, one behind the other.
pub open spec fn channel_path(hops: Seq<Hop>) -> Seq<u8>
    decreases hops.len(),
{
    if hops.len() == 0 {
        Seq::empty()
    } else {
        channel_path(hops.drop_last()) + be_bytes(hops.last().chan_id)
    }
}

/// A path that cannot be read up to some hop cannot be read at all, for the same
/// reason.
proof fn lemma_node_path_prefix(hops: Seq<Hop>, k: int)
    requires
        0 <= k <= hops.len(),
        node_path(hops.take(k)) is Err,
    ensures
        node_path(hops) == node_path(hops.take(k)),
    decreases hops.len() - k,
{
    if k == hops.len() {
        assert(hops.take(k) =~= hops);
    } else {
        assert(hops.take(k + 1).drop_last() =~= hops.take(k));
        lemma_node_path_prefix(hops, k + 1);
    }
}

/// The digest of the nodes along a path.
pub fn node_path_hash(hops: &Vec<Hop>) -> (r: Result<Vec<u8>, HexError>)
    ensures
        match r {
            Ok(hash) => node_path(hops@) is Ok && hash@ == sha256(node_path(hops@)->Ok_0)
                && hash@.len() == 32,
            Err(e) => node_path(hops@) == Err::<Seq<u8>, HexError>(e),
        },
{
    let mut path: Vec<u8> = Vec::new();
    let mut i: usize = 0;
    assert(hops@.take(0) =~= Seq::<Hop>::empty());
    while i < hops.len()
        invariant
            i <= hops@.len(),
            node_path(hops@.take(i as int)) == Ok::<Seq<u8>, HexError>(path@),
        decreases hops@.len() - i,
    {
        let key = node_pubkey_bytes(hops[i].pub_key.as_str());
        assert(hops@.take(i + 1).drop_last() =~= hops@.take(i as int));
        match key {
            Err(e) => {
                proof {
                    lemma_node_path_prefix(hops@, i + 1);
                }
                return Err(e);
            },
            Ok(key) => {
                let mut key = key;
                path.append(&mut key);
            },
        }
        i = i + 1;
    }
    assert(hops@.take(hops@.len() as int) =~= hops@);
    Ok(sha256_digest(path.as_slice()))
}

/// The digest of the channels along a path.
pub fn channel_path_hash(hops: &Vec<Hop>) -> (hash: Vec<u8>)
    ensures
        hash@ == sha256(channel_path(hops@)),
        hash@.len() == 32,
{
    let mut path: Vec<u8> = Vec::new();
    let mut i: usize = 0;
    assert(hops@.take(0) =~= Seq::<Hop>::empty());
    while i < hops.len()
        invariant
            i <= hops@.len(),
            path@ == channel_path(hops@.take(i as int)),
        decreases hops@.len() - i,
    {
        push_be_bytes(&mut path, hops[i].chan_id);
        assert(hops@.take(i + 1).drop_last() =~= hops@.take(i as int));
        i = i + 1;
    }
    assert(hops@.take(hops@.len() as int) =~= hops@);
    sha256_digest(path.as_slice())
}

/// The digest of the nodes along a path rests on their public keys alone.
pub proof fn law_node_path_rests_on_keys(a: Seq<Hop>, b: Seq<Hop>)
    requires
        a.len() == b.len(),
        forall|i: int| 0 <= i < a.len() ==> (#[trigger] a[i]).pub_key@ == b[i].pub_key@,
    ensures
        node_path(a) == node_path(b),
    decreases a.len(),
{
    if a.len() > 0 {
        law_node_path_rests_on_keys(a.drop_last(), b.drop_last());
        assert(a.last().pub_key@ == b.last().pub_key@);
    }
}

proof fn lemma_be_bytes_distinct(m: u64, n: u64)
    requires
        be_bytes(m) == be_bytes(n),
    ensures
        m == n,
{
    let x = be_bytes(m);
    let y = be_bytes(n);
    assert(x[0] == y[0] && x[1] == y[1] && x[2] == y[2] && x[3] == y[3] && x[4] == y[4] && x[5]
        == y[5] && x[6] == y[6] && x[7] == y[7]);
    assert(m == n) by (bit_vector)
        requires
            m / 0x100_0000_0000_0000 == n / 0x100_0000_0000_0000,
            m / 0x1_0000_0000_0000 % 0x100 == n / 0x1_0000_0000_0000 % 0x100,
            m / 0x100_0000_0000 % 0x100 == n / 0x100_0000_0000 % 0x100,
            m / 0x1_0000_0000 % 0x100 == n / 0x1_0000_0000 % 0x100,
            m / 0x100_0000 % 0x100 == n / 0x100_0000 % 0x100,
            m / 0x1_0000 % 0x100 == n / 0x1_0000 % 0x100,
            m / 0x100 % 0x100 == n / 0x100 % 0x100,
            m % 0x100 == n % 0x100,
    ;
}

/// Two paths whose channels are digested from the same bytes take the same
/// channels in the same order.
pub proof fn law_channel_path_tells_channels(a: Seq<Hop>, b: Seq<Hop>)
    requires
        channel_path(a) == channel_path(b),
    ensures
        a.len() == b.len(),
        forall|i: int| 0 <= i < a.len() ==> (#[trigger] a[i]).chan_id == b[i].chan_id,
    decreases a.len(),
{
    lemma_channel_path_len(a);
    lemma_channel_path_len(b);
    if a.len() > 0 {
        let ea = be_bytes(a.last().chan_id);
        let eb = be_bytes(b.last().chan_id);
        let pa = channel_path(a.drop_last());
        let pb = channel_path(b.drop_last());
        lemma_channel_path_len(a.drop_last());
        lemma_channel_path_len(b.drop_last());
        assert(pa =~= (pa + ea).take(pa.len() as int));
        assert(pb =~= (pb + eb).take(pb.len() as int));
        assert(ea =~= (pa + ea).skip(pa.len() as int));
        assert(eb =~= (pb + eb).skip(pb.len() as int));
        lemma_be_bytes_distinct(a.last().chan_id, b.last().chan_id);
        law_channel_path_tells_channels(a.drop_last(), b.drop_last());
        assert forall|i: int| 0 <= i < a.len() implies (#[trigger] a[i]).chan_id
            == b[i].chan_id by {
            if i < a.len() - 1 {
                assert(a[i] == a.drop_last()[i]);
            }
        }
    }
}

proof fn lemma_channel_path_len(hops: Seq<Hop>)
    ensures
        channel_path(hops).len() == 8 * hops.len(),
    decreases hops.len(),
{
    if hops.len() > 0 {
        lemma_channel_path_len(hops.drop_last());
    }
}

/// The eight bytes of a number make it up, the most significant first.
pub proof fn law_bytes_make_up_the_number(n: u64)
    ensures
        be_bytes(n).len() == 8,
        ({
            let b = be_bytes(n);
            n == 0x100_0000_0000_0000 * b[0] + 0x1_0000_0000_0000 * b[1] + 0x100_0000_0000 * b[2]
                + 0x1_0000_0000 * b[3] + 0x100_0000 * b[4] + 0x1_0000 * b[5] + 0x100 * b[6] + b[7]
        }),
{
    let b = be_bytes(n);
    let (q1, q2, q3, q4) = (n / 0x100, n / 0x1_0000, n / 0x100_0000, n / 0x1_0000_0000);
    let (q5, q6, q7) = (n / 0x100_0000_0000, n / 0x1_0000_0000_0000, n / 0x100_0000_0000_0000);
    assert(n == 0x100 * q1 + n % 0x100);
    assert(q1 == 0x100 * q2 + q1 % 0x100) by (bit_vector)
        requires
            q1 == n / 0x100,
            q2 == n / 0x1_0000,
    ;
    assert(q2 == 0x100 * q3 + q2 % 0x100) by (bit_vector)
        requires
            q2 == n / 0x1_0000,
            q3 == n / 0x100_0000,
    ;
    assert(q3 == 0x100 * q4 + q3 % 0x100) by (bit_vector)
        requires
            q3 == n / 0x100_0000,
            q4 == n / 0x1_0000_0000,
    ;
    assert(q4 == 0x100 * q5 + q4 % 0x100) by (bit_vector)
        requires
            q4 == n / 0x1_0000_0000,
            q5 == n / 0x100_0000_0000,
    ;
    assert(q5 == 0x100 * q6 + q5 % 0x100) by (bit_vector)
        requires
            q5 == n / 0x100_0000_0000,
            q6 == n / 0x1_0000_0000_0000,
    ;
    assert(q6 == 0x100 * q7 + q6 % 0x100) by (bit_vector)
        requires
            q6 == n / 0x1_0000_0000_0000,
            q7 == n / 0x100_0000_0000_0000,
    ;
    assert(b[0] == q7 && b[1] == q6 % 0x100 && b[2] == q5 % 0x100 && b[3] == q4 % 0x100);
    assert(b[4] == q3 % 0x100 && b[5] == q2 % 0x100 && b[6] == q1 % 0x100 && b[7] == n % 0x100);
}

/// What the channels along a path are digested from is made up hop by hop: eight
/// bytes for each hop, in order, and those of one path before those of a path that
/// goes on from it.
pub proof fn law_channel_paths_are_made_up_of_hops(a: Seq<Hop>, b: Seq<Hop>, hop: Hop)
    ensures
        channel_path(seq![hop]) == be_bytes(hop.chan_id),
        channel_path(a + b) == channel_path(a) + channel_path(b),
    decreases b.len(),
{
    assert(seq![hop].drop_last() =~= Seq::<Hop>::empty());
    assert(channel_path(Seq::<Hop>::empty()) =~= Seq::<u8>::empty());
    assert(channel_path(seq![hop]) =~= be_bytes(hop.chan_id));
    if b.len() == 0 {
        assert(a + b =~= a);
        assert(channel_path(a) + channel_path(b) =~= channel_path(a));
    } else {
        law_channel_paths_are_made_up_of_hops(a, b.drop_last(), hop);
        assert((a + b).drop_last() =~= a + b.drop_last());
        assert(channel_path(a + b) =~= channel_path(a) + channel_path(b));
    }
}

/// What the nodes along a path are digested from is made up hop by hop: the public
/// key of each, in order. A path is read exactly where both parts of it are, and
/// what spoils its first part spoils it.
pub proof fn law_node_paths_are_made_up_of_hops(a: Seq<Hop>, b: Seq<Hop>, hop: Hop)
    ensures
        node_path(seq![hop]) == hex_decoded(encode_utf8(hop.pub_key@)),
        node_path(a + b) == match (node_path(a), node_path(b)) {
            (Err(e), _) => Err::<Seq<u8>, HexError>(e),
            (Ok(_), Err(e)) => Err(e),
            (Ok(head), Ok(tail)) => Ok(head + tail),
        },
    decreases b.len(),
{
    assert(seq![hop].drop_last() =~= Seq::<Hop>::empty());
    assert(node_path(Seq::<Hop>::empty()) == Ok::<Seq<u8>, HexError>(Seq::empty()));
    if let Ok(key) = hex_decoded(encode_utf8(hop.pub_key@)) {
        assert(Seq::<u8>::empty() + key =~= key);
    }
    if b.len() == 0 {
        assert(a + b =~= a);
        if let Ok(head) = node_path(a) {
            assert(head + Seq::<u8>::empty() =~= head);
        }
    } else {
        law_node_paths_are_made_up_of_hops(a, b.drop_last(), hop);
        assert((a + b).drop_last() =~= a + b.drop_last());
        if let (Ok(head), Ok(middle)) = (node_path(a), node_path(b.drop_last())) {
            if let Ok(key) = hex_decoded(encode_utf8(b.last().pub_key@)) {
                assert(head + middle + key =~= head + (middle + key));
            }
        }
    }
}

} // verus!
