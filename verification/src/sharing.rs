//! Reconstruction of the encrypted payload of a sharded wallet from its
//! shards.
//!
//! What is shared is the encrypted payload, ciphertext and tag: the byte at
//! each position is the constant term of a polynomial over GF(2^8) of degree
//! below the threshold, and the shard with the index `x` holds the value of
//! that polynomial at `x`.

use crate::gf256::multiply;
use crate::lagrange::{
    basis_at_zero, basis_weights, distinct_nonzero, interpolate_at_zero, lagrange_sum,
    lemma_interpolation, poly_eval,
};
use crate::record::{bytes_eq, ShardSet, WalletRecord};
use vstd::prelude::*;

verus! {

/// Why shards could not be combined.
#[derive(Clone, Copy, Debug, PartialEq, Eq, Structural)]
pub enum ShareError {
    /// The shards do not belong to one wallet, or two have one index.
    Inconsistent,
    /// There are fewer shards than the threshold.
    InsufficientShares,
}

/// Whether a record is a shard with sound numbers: a nonzero index and a
/// threshold between 1 and the number of shards.
pub open spec fn sound_shard(r: WalletRecord) -> bool {
    match r.sharding {
        Some(s) => s.share_index != 0 && 1 <= s.threshold <= s.total_shares,
        None => false,
    }
}

/// Whether two shards agree in all that the shards of one wallet share.
pub open spec fn same_wallet(a: WalletRecord, b: WalletRecord) -> bool {
    &&& a.format == b.format
    &&& a.public_key@ == b.public_key@
    &&& a.salt@ == b.salt@
    &&& a.kdf == b.kdf
    &&& a.nonce@ == b.nonce@
    &&& a.pwhash@ == b.pwhash@
    &&& a.ciphertext@.len() == b.ciphertext@.len()
    &&& a.sharding is Some
    &&& b.sharding is Some
    &&& a.sharding->0.threshold == b.sharding->0.threshold
    &&& a.sharding->0.total_shares == b.sharding->0.total_shares
}

/// Whether the records are sound shards of one wallet with different indices.
pub open spec fn consistent(records: Seq<WalletRecord>) -> bool {
    &&& forall|i: int| 0 <= i < records.len() ==> sound_shard(#[trigger] records[i])
    &&& forall|i: int| 0 <= i < records.len() ==> same_wallet(records[0], #[trigger] records[i])
    &&& forall|i: int, j: int|
        0 <= i < j < records.len() ==> records[i].share_x() != records[j].share_x()
}

/// The indices of the first `k` shards.
pub open spec fn quorum_xs(records: Seq<WalletRecord>, k: int) -> Seq<u8> {
    Seq::new(k as nat, |i: int| records[i].share_x())
}

/// The bytes at the position `pos` of the first `k` shards.
pub open spec fn quorum_ys(records: Seq<WalletRecord>, k: int, pos: int) -> Seq<u8> {
    Seq::new(k as nat, |i: int| records[i].ciphertext@[pos])
}

/// The payload that the first `k` shards give: at each position the value at
/// zero of the polynomial through their bytes.
pub open spec fn combined(records: Seq<WalletRecord>, k: int) -> Seq<u8> {
    Seq::new(
        records[0].ciphertext@.len(),
        |pos: int| interpolate_at_zero(quorum_xs(records, k), quorum_ys(records, k, pos)),
    )
}

/// What combining shards gives.
pub open spec fn combine_spec(records: Seq<WalletRecord>) -> Result<Seq<u8>, ShareError> {
    if !consistent(records) {
        Err(ShareError::Inconsistent)
    } else if records.len() == 0 || records.len() < records[0].threshold() {
        Err(ShareError::InsufficientShares)
    } else {
        Ok(combined(records, records[0].threshold() as int))
    }
}

/// Whether the records hold, at each position, the values of the polynomial
/// `polys[pos]` at their indices.
pub open spec fn shares_of(records: Seq<WalletRecord>, polys: Seq<Seq<u8>>) -> bool {
    &&& forall|i: int|
        0 <= i < records.len() ==> (#[trigger] records[i]).ciphertext@.len() == polys.len()
    &&& forall|i: int, pos: int|
        0 <= i < records.len() && 0 <= pos < polys.len() ==> (#[trigger] records[i]).ciphertext@[pos]
            == poly_eval(#[trigger] polys[pos], records[i].share_x())
}

/// Whether `polys` splits `secret` with the threshold `k`: one polynomial
/// with `k` coefficients for each byte, the byte being its constant term.
pub open spec fn splits(polys: Seq<Seq<u8>>, secret: Seq<u8>, k: int) -> bool {
    &&& polys.len() == secret.len()
    &&& forall|pos: int|
        0 <= pos < polys.len() ==> (#[trigger] polys[pos]).len() == k && polys[pos][0]
            == secret[pos]
}

/// Any consistent set of at least `threshold` shards of a split secret
/// combines to that secret.
pub proof fn lemma_quorum_recovers(
    records: Seq<WalletRecord>,
    polys: Seq<Seq<u8>>,
    secret: Seq<u8>,
)
    requires
        consistent(records),
        records.len() >= 1,
        records.len() >= records[0].threshold(),
        splits(polys, secret, records[0].threshold() as int),
        shares_of(records, polys),
    ensures
        combine_spec(records) == Ok::<Seq<u8>, ShareError>(secret),
{
    let k = records[0].threshold() as int;
    let xs = quorum_xs(records, k);
    assert(sound_shard(records[0]));
    assert forall|i: int| 0 <= i < k implies xs[i] != 0 by {
        assert(sound_shard(records[i]));
    }
    assert(distinct_nonzero(xs, k));
    let out = combined(records, k);
    assert(out.len() == secret.len());
    assert forall|pos: int| 0 <= pos < secret.len() implies out[pos] == secret[pos] by {
        let ys = quorum_ys(records, k, pos);
        assert forall|i: int| 0 <= i < k implies ys[i] == poly_eval(polys[pos], xs[i]) by {
            assert(records[i].ciphertext@[pos] == poly_eval(polys[pos], records[i].share_x()));
        }
        lemma_interpolation(xs, ys, polys[pos], k);
    }
    assert(out =~= secret);
}

/// Two consistent sets of at least `threshold` shards of one split secret
/// combine to the same bytes.
pub proof fn lemma_quorums_agree(
    first: Seq<WalletRecord>,
    second: Seq<WalletRecord>,
    polys: Seq<Seq<u8>>,
    secret: Seq<u8>,
)
    requires
        consistent(first),
        consistent(second),
        first.len() >= 1,
        second.len() >= 1,
        first[0].threshold() == second[0].threshold(),
        first.len() >= first[0].threshold(),
        second.len() >= second[0].threshold(),
        splits(polys, secret, first[0].threshold() as int),
        shares_of(first, polys),
        shares_of(second, polys),
    ensures
        combine_spec(first) == combine_spec(second),
{
    lemma_quorum_recovers(first, polys, secret);
    lemma_quorum_recovers(second, polys, secret);
}

/// Fewer shards than the threshold never combine.
pub proof fn lemma_too_few_shares(records: Seq<WalletRecord>)
    requires
        consistent(records),
        records.len() == 0 || records.len() < records[0].threshold(),
    ensures
        combine_spec(records) == Err::<Seq<u8>, ShareError>(ShareError::InsufficientShares),
{
}

/// Whether a record is a shard with sound numbers.
fn is_sound_shard(r: &WalletRecord) -> (b: bool)
    ensures
        b == sound_shard(*r),
{
    match r.sharding {
        Some(s) => s.share_index != 0 && 1 <= s.threshold && s.threshold <= s.total_shares,
        None => false,
    }
}

/// Whether two shards agree in all that the shards of one wallet share.
fn is_same_wallet(a: &WalletRecord, b: &WalletRecord) -> (r: bool)
    ensures
        r == same_wallet(*a, *b),
{
    let (sa, sb) = match (a.sharding, b.sharding) {
        (Some(sa), Some(sb)) => (sa, sb),
        _ => {
            return false;
        },
    };
    a.format == b.format && bytes_eq(a.public_key.as_slice(), b.public_key.as_slice()) && bytes_eq(
        a.salt.as_slice(),
        b.salt.as_slice(),
    ) && a.kdf.memory_kib == b.kdf.memory_kib && a.kdf.iterations == b.kdf.iterations
        && a.kdf.parallelism == b.kdf.parallelism && bytes_eq(
        a.nonce.as_slice(),
        b.nonce.as_slice(),
    ) && bytes_eq(a.pwhash.as_slice(), b.pwhash.as_slice()) && a.ciphertext.len()
        == b.ciphertext.len() && sa.threshold == sb.threshold && sa.total_shares
        == sb.total_shares
}

/// The abscissa of a shard; 0 for a record that is no shard.
fn share_index_of(r: &WalletRecord) -> (x: u8)
    ensures
        x == r.share_x(),
{
    match r.sharding {
        Some(s) => s.share_index,
        None => 0,
    }
}

/// Whether the records are sound shards of one wallet with different indices.
pub fn is_consistent(records: &Vec<WalletRecord>) -> (b: bool)
    ensures
        b == consistent(records@),
{
    let n = records.len();
    let mut i: usize = 0;
    while i < n
        invariant
            i <= n,
            n == records@.len(),
            forall|k: int| 0 <= k < i ==> sound_shard(#[trigger] records@[k]),
            forall|k: int| 0 <= k < i ==> same_wallet(records@[0], #[trigger] records@[k]),
            forall|k: int, j: int|
                0 <= k < j < i ==> records@[k].share_x() != records@[j].share_x(),
        decreases n - i,
    {
        if !is_sound_shard(&records[i]) || !is_same_wallet(&records[0], &records[i]) {
            return false;
        }
        let x = share_index_of(&records[i]);
        let mut k: usize = 0;
        while k < i
            invariant
                k <= i < n,
                n == records@.len(),
                x == records@[i as int].share_x(),
                forall|j: int| 0 <= j < k ==> records@[j].share_x() != x,
            decreases i - k,
        {
            if share_index_of(&records[k]) == x {
                return false;
            }
            k = k + 1;
        }
        i = i + 1;
    }
    true
}

/// Combines the shards of a wallet into its encrypted payload.
///
/// Shards that do not belong together give `Inconsistent`; consistent shards
/// that are fewer than the threshold give `InsufficientShares`. Of more
/// shards than the threshold, the first `threshold` are used.
pub fn combine(shares: &ShardSet) -> (r: Result<Vec<u8>, ShareError>)
    ensures
        match r {
            Ok(bytes) => combine_spec(shares.records@) == Ok::<Seq<u8>, ShareError>(bytes@),
            Err(e) => combine_spec(shares.records@) == Err::<Seq<u8>, ShareError>(e),
        },
{
    let records = &shares.records;
    if !is_consistent(records) {
        return Err(ShareError::Inconsistent);
    }
    if records.len() == 0 {
        return Err(ShareError::InsufficientShares);
    }
    let k = match records[0].sharding {
        Some(s) => s.threshold as usize,
        None => 0,
    };
    if records.len() < k {
        return Err(ShareError::InsufficientShares);
    }
    assert(sound_shard(records@[0]));
    let mut xs: Vec<u8> = Vec::new();
    let mut i: usize = 0;
    while i < k
        invariant
            i <= k <= records@.len(),
            consistent(records@),
            xs@.len() == i,
            forall|j: int| 0 <= j < i ==> xs@[j] == records@[j].share_x(),
        decreases k - i,
    {
        xs.push(share_index_of(&records[i]));
        i = i + 1;
    }
    assert(xs@ =~= quorum_xs(records@, k as int));
    let weights = basis_weights(&xs);
    let len = records[0].ciphertext.len();
    let mut out: Vec<u8> = Vec::new();
    let mut pos: usize = 0;
    while pos < len
        invariant
            pos <= len,
            1 <= k <= records@.len(),
            len == records@[0].ciphertext@.len(),
            consistent(records@),
            xs@ == quorum_xs(records@, k as int),
            weights@.len() == k,
            forall|j: int|
                0 <= j < k ==> #[trigger] weights@[j] == basis_at_zero(xs@, j, k as int),
            out@.len() == pos,
            forall|p: int|
                0 <= p < pos ==> out@[p] == interpolate_at_zero(
                    xs@,
                    quorum_ys(records@, k as int, p),
                ),
        decreases len - pos,
    {
        let ghost ys = quorum_ys(records@, k as int, pos as int);
        let mut acc: u8 = 0;
        let mut j: usize = 0;
        while j < k
            invariant
                j <= k <= records@.len(),
                pos < len,
                len == records@[0].ciphertext@.len(),
                consistent(records@),
                xs@.len() == k,
                weights@.len() == k,
                forall|i: int|
                    0 <= i < k ==> #[trigger] weights@[i] == basis_at_zero(xs@, i, k as int),
                ys == quorum_ys(records@, k as int, pos as int),
                acc == lagrange_sum(xs@, ys, k as int, j as int),
            decreases k - j,
        {
            assert(same_wallet(records@[0], records@[j as int]));
            let y = records[j].ciphertext[pos];
            acc = acc ^ multiply(y, weights[j]);
            j = j + 1;
        }
        out.push(acc);
        pos = pos + 1;
    }
    assert(out@ =~= combined(records@, k as int));
    Ok(out)
}

} // verus!
