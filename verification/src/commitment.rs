//! The 32-byte commitment digest a signature must cover: the hash of the
//! transaction hash, then the length-prefixed authorization witness with its
//! lock field zero-filled, then each further witness of the same input group
//! in ascending index order, then each witness beyond the transaction's input
//! count, each length-prefixed, in that exact order.

use vstd::prelude::*;
use vstd::bytes::{lemma_auto_spec_u64_to_from_le_bytes, spec_u64_to_le_bytes, u64_to_le_bytes};
use vstd::slice::slice_to_vec;
use crate::fingerprint::{blake2b_256, ckb_blake2b_256};

verus! {

/// Length in bytes of the commitment digest.
pub const MESSAGE_LEN: usize = 32;

/// A witness as bound into the digest: its length as a little-endian 64-bit
/// word, then its raw bytes.
pub open spec fn length_prefixed(w: Seq<u8>) -> Seq<u8>
    recommends
        w.len() <= u64::MAX,
{
    spec_u64_to_le_bytes(w.len() as u64) + w
}

/// A run of witnesses bound into the digest, each length-prefixed, in order.
pub open spec fn prefixed_concat(ws: Seq<Seq<u8>>) -> Seq<u8>
    decreases ws.len(),
{
    if ws.len() == 0 {
        Seq::empty()
    } else {
        length_prefixed(ws.first()) + prefixed_concat(ws.drop_first())
    }
}

/// The exact byte stream hashed into the commitment digest.
pub open spec fn commitment_stream(
    tx_hash: Seq<u8>,
    digest_witness: Seq<u8>,
    group_witnesses: Seq<Seq<u8>>,
    trailing_witnesses: Seq<Seq<u8>>,
) -> Seq<u8> {
    tx_hash + length_prefixed(digest_witness) + prefixed_concat(group_witnesses)
        + prefixed_concat(trailing_witnesses)
}

/// Appends the raw bytes of `w` to `stream`.
fn append_bytes(stream: &mut Vec<u8>, w: &[u8])
    ensures
        final(stream)@ == old(stream)@ + w@,
{
    let mut tail = slice_to_vec(w);
    stream.append(&mut tail);
}

/// Appends the length-prefixed form of `w` to `stream`.
fn append_prefixed(stream: &mut Vec<u8>, w: &[u8])
    ensures
        final(stream)@ == old(stream)@ + length_prefixed(w@),
{
    let len: u64 = w.len() as u64;
    let mut prefix = u64_to_le_bytes(len);
    stream.append(&mut prefix);
    append_bytes(stream, w);
    assert(stream@ =~= old(stream)@ + length_prefixed(w@));
}

proof fn lemma_prefixed_concat_take_push(ws: Seq<Seq<u8>>, i: int)
    requires
        0 <= i < ws.len(),
    ensures
        prefixed_concat(ws.take(i + 1)) == prefixed_concat(ws.take(i)) + length_prefixed(ws[i]),
    decreases i,
{
    if i == 0 {
        assert(ws.take(0) =~= Seq::<Seq<u8>>::empty());
        assert(ws.take(1).first() == ws[0]);
        assert(ws.take(1).drop_first() =~= Seq::<Seq<u8>>::empty());
        assert(prefixed_concat(ws.take(1)) =~= Seq::empty() + length_prefixed(ws[0]));
    } else {
        lemma_prefixed_concat_take_push(ws.drop_first(), i - 1);
        assert(ws.take(i + 1).drop_first() =~= ws.drop_first().take(i));
        assert(ws.take(i).drop_first() =~= ws.drop_first().take(i - 1));
        assert(ws.take(i + 1).first() == ws[0]);
        assert(ws.take(i).first() == ws[0]);
        assert(ws.drop_first()[i - 1] == ws[i]);
        assert(prefixed_concat(ws.take(i + 1)) =~= prefixed_concat(ws.take(i)) + length_prefixed(
            ws[i],
        ));
    }
}

/// Builds the commitment digest over the given transaction hash, the
/// zero-locked authorization witness, and the two witness runs, in the fixed
/// order of the scheme.
pub fn generate_message(
    tx_hash: &[u8],
    digest_witness: &[u8],
    group_witnesses: &Vec<Vec<u8>>,
    trailing_witnesses: &Vec<Vec<u8>>,
) -> (r: Vec<u8>)
    ensures
        r@ == ckb_blake2b_256(
            commitment_stream(
                tx_hash@,
                digest_witness@,
                group_witnesses.deep_view(),
                trailing_witnesses.deep_view(),
            ),
        ),
        r@.len() == MESSAGE_LEN,
{
    let ghost groups = group_witnesses.deep_view();
    let ghost trailings = trailing_witnesses.deep_view();
    let mut stream = slice_to_vec(tx_hash);
    append_prefixed(&mut stream, digest_witness);
    let mut i: usize = 0;
    while i < group_witnesses.len()
        invariant
            i <= group_witnesses@.len(),
            groups == group_witnesses.deep_view(),
            stream@ == tx_hash@ + length_prefixed(digest_witness@) + prefixed_concat(
                groups.take(i as int),
            ),
        decreases group_witnesses@.len() - i,
    {
        assert(groups[i as int] == group_witnesses@[i as int]@);
        append_prefixed(&mut stream, group_witnesses[i].as_slice());
        proof {
            lemma_prefixed_concat_take_push(groups, i as int);
        }
        i += 1;
    }
    assert(groups.take(groups.len() as int) =~= groups);
    let mut j: usize = 0;
    while j < trailing_witnesses.len()
        invariant
            j <= trailing_witnesses@.len(),
            trailings == trailing_witnesses.deep_view(),
            stream@ == tx_hash@ + length_prefixed(digest_witness@) + prefixed_concat(groups)
                + prefixed_concat(trailings.take(j as int)),
        decreases trailing_witnesses@.len() - j,
    {
        assert(trailings[j as int] == trailing_witnesses@[j as int]@);
        append_prefixed(&mut stream, trailing_witnesses[j].as_slice());
        proof {
            lemma_prefixed_concat_take_push(trailings, j as int);
        }
        j += 1;
    }
    assert(trailings.take(trailings.len() as int) =~= trailings);
    assert(stream@ == commitment_stream(tx_hash@, digest_witness@, groups, trailings));
    blake2b_256(stream.as_slice())
}

/// Law: the commitment digest is deterministic; two computations over the
/// same transaction hash and witness set yield identical bytes.
pub proof fn lemma_commitment_deterministic(
    tx_hash: Seq<u8>,
    digest_witness: Seq<u8>,
    group_witnesses: Seq<Seq<u8>>,
    trailing_witnesses: Seq<Seq<u8>>,
    d1: Seq<u8>,
    d2: Seq<u8>,
)
    requires
        d1 == ckb_blake2b_256(
            commitment_stream(tx_hash, digest_witness, group_witnesses, trailing_witnesses),
        ),
        d2 == ckb_blake2b_256(
            commitment_stream(tx_hash, digest_witness, group_witnesses, trailing_witnesses),
        ),
    ensures
        d1 == d2,
{
}

proof fn lemma_prefixed_concat_same_shape_len(a: Seq<Seq<u8>>, b: Seq<Seq<u8>>)
    requires
        a.len() == b.len(),
        forall|i: int| 0 <= i < a.len() ==> #[trigger] a[i].len() == b[i].len(),
    ensures
        prefixed_concat(a).len() == prefixed_concat(b).len(),
    decreases a.len(),
{
    lemma_auto_spec_u64_to_from_le_bytes();
    if a.len() == 0 {
    } else {
        assert(forall|i: int|
            0 <= i < a.drop_first().len() ==> #[trigger] a.drop_first()[i].len()
                == b.drop_first()[i].len()) by {
            assert(forall|i: int|
                0 <= i < a.drop_first().len() ==> a.drop_first()[i] == a[i + 1] && b.drop_first()[i]
                    == b[i + 1]);
        }
        lemma_prefixed_concat_same_shape_len(a.drop_first(), b.drop_first());
        assert(a[0].len() == b[0].len());
    }
}

proof fn lemma_prefixed_concat_differs(a: Seq<Seq<u8>>, b: Seq<Seq<u8>>, k: int, j: int)
    requires
        a.len() == b.len(),
        forall|i: int| 0 <= i < a.len() && i != k ==> a[i] == b[i],
        0 <= k < a.len(),
        a[k].len() == b[k].len(),
        0 <= j < a[k].len(),
        a[k][j] != b[k][j],
    ensures
        prefixed_concat(a) != prefixed_concat(b),
    decreases k,
{
    lemma_auto_spec_u64_to_from_le_bytes();
    if k == 0 {
        let idx = 8 + j;
        let la = length_prefixed(a[0]);
        let lb = length_prefixed(b[0]);
        assert(la.len() == 8 + a[0].len());
        assert(la[idx] == a[0][j]);
        assert(lb[idx] == b[0][j]);
        assert(prefixed_concat(a) == la + prefixed_concat(a.drop_first()));
        assert(prefixed_concat(b) == lb + prefixed_concat(b.drop_first()));
        assert(prefixed_concat(a)[idx] == a[0][j]);
        assert(prefixed_concat(b)[idx] == b[0][j]);
    } else {
        assert(a[0] == b[0]);
        assert(forall|i: int|
            0 <= i < a.drop_first().len() && i != k - 1 ==> a.drop_first()[i] == b.drop_first()[i])
            by {
            assert(forall|i: int|
                0 <= i < a.drop_first().len() ==> a.drop_first()[i] == a[i + 1] && b.drop_first()[i]
                    == b[i + 1]);
        }
        assert(a.drop_first()[k - 1] == a[k] && b.drop_first()[k - 1] == b[k]);
        lemma_prefixed_concat_differs(a.drop_first(), b.drop_first(), k - 1, j);
        let la = length_prefixed(a[0]);
        assert(prefixed_concat(a) == la + prefixed_concat(a.drop_first()));
        assert(prefixed_concat(b) == la + prefixed_concat(b.drop_first()));
        if prefixed_concat(a) == prefixed_concat(b) {
            assert(prefixed_concat(a).skip(la.len() as int) =~= prefixed_concat(a.drop_first()));
            assert(prefixed_concat(b).skip(la.len() as int) =~= prefixed_concat(b.drop_first()));
            assert(false);
        }
    }
}

/// Law: the stream hashed into the commitment digest pins every byte of every
/// same-group witness: changing one byte of one of them, all else equal,
/// changes the hashed stream.
pub proof fn lemma_stream_pins_group_witness_byte(
    tx_hash: Seq<u8>,
    digest_witness: Seq<u8>,
    g1: Seq<Seq<u8>>,
    g2: Seq<Seq<u8>>,
    trailing_witnesses: Seq<Seq<u8>>,
    k: int,
    j: int,
)
    requires
        g1.len() == g2.len(),
        forall|i: int| 0 <= i < g1.len() && i != k ==> g1[i] == g2[i],
        0 <= k < g1.len(),
        g1[k].len() == g2[k].len(),
        0 <= j < g1[k].len(),
        g1[k][j] != g2[k][j],
    ensures
        commitment_stream(tx_hash, digest_witness, g1, trailing_witnesses) != commitment_stream(
            tx_hash,
            digest_witness,
            g2,
            trailing_witnesses,
        ),
{
    lemma_prefixed_concat_differs(g1, g2, k, j);
    assert(forall|i: int| 0 <= i < g1.len() ==> #[trigger] g1[i].len() == g2[i].len());
    lemma_prefixed_concat_same_shape_len(g1, g2);
    let s1 = commitment_stream(tx_hash, digest_witness, g1, trailing_witnesses);
    let s2 = commitment_stream(tx_hash, digest_witness, g2, trailing_witnesses);
    let p = tx_hash.len() + length_prefixed(digest_witness).len();
    let l = prefixed_concat(g1).len();
    if s1 == s2 {
        assert(s1.subrange(p as int, (p + l) as int) =~= prefixed_concat(g1));
        assert(s2.subrange(p as int, (p + l) as int) =~= prefixed_concat(g2));
        assert(false);
    }
}

/// Law: the stream hashed into the commitment digest pins every byte of every
/// trailing witness: changing one byte of one of them, all else equal,
/// changes the hashed stream.
pub proof fn lemma_stream_pins_trailing_witness_byte(
    tx_hash: Seq<u8>,
    digest_witness: Seq<u8>,
    group_witnesses: Seq<Seq<u8>>,
    t1: Seq<Seq<u8>>,
    t2: Seq<Seq<u8>>,
    k: int,
    j: int,
)
    requires
        t1.len() == t2.len(),
        forall|i: int| 0 <= i < t1.len() && i != k ==> t1[i] == t2[i],
        0 <= k < t1.len(),
        t1[k].len() == t2[k].len(),
        0 <= j < t1[k].len(),
        t1[k][j] != t2[k][j],
    ensures
        commitment_stream(tx_hash, digest_witness, group_witnesses, t1) != commitment_stream(
            tx_hash,
            digest_witness,
            group_witnesses,
            t2,
        ),
{
    lemma_prefixed_concat_differs(t1, t2, k, j);
    let s1 = commitment_stream(tx_hash, digest_witness, group_witnesses, t1);
    let s2 = commitment_stream(tx_hash, digest_witness, group_witnesses, t2);
    let p = tx_hash.len() + length_prefixed(digest_witness).len() + prefixed_concat(
        group_witnesses,
    ).len();
    if s1 == s2 {
        assert(s1.skip(p as int) =~= prefixed_concat(t1));
        assert(s2.skip(p as int) =~= prefixed_concat(t2));
        assert(false);
    }
}

/// Law: the stream hashed into the commitment digest pins every byte of the
/// zero-locked authorization witness: changing one of its bytes, all else
/// equal, changes the hashed stream.
pub proof fn lemma_stream_pins_digest_witness_byte(
    tx_hash: Seq<u8>,
    w1: Seq<u8>,
    w2: Seq<u8>,
    group_witnesses: Seq<Seq<u8>>,
    trailing_witnesses: Seq<Seq<u8>>,
    j: int,
)
    requires
        w1.len() == w2.len(),
        0 <= j < w1.len(),
        w1[j] != w2[j],
    ensures
        commitment_stream(tx_hash, w1, group_witnesses, trailing_witnesses) != commitment_stream(
            tx_hash,
            w2,
            group_witnesses,
            trailing_witnesses,
        ),
{
    lemma_auto_spec_u64_to_from_le_bytes();
    let s1 = commitment_stream(tx_hash, w1, group_witnesses, trailing_witnesses);
    let s2 = commitment_stream(tx_hash, w2, group_witnesses, trailing_witnesses);
    let idx = tx_hash.len() + 8 + j;
    assert(length_prefixed(w1)[8 + j] == w1[j]);
    assert(length_prefixed(w2)[8 + j] == w2[j]);
    assert(s1[idx as int] == w1[j]);
    assert(s2[idx as int] == w2[j]);
}

} // verus!
