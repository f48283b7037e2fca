//! Values as groups of bits, the highest bit first, and the regrouping of a
//! bit string into values of another width.

use vstd::arithmetic::div_mod::{
    lemma_div_by_multiple, lemma_fundamental_div_mod, lemma_mod_pos_bound,
};
use vstd::arithmetic::power2::{lemma2_to64, lemma_pow2_unfold, pow2};
use vstd::prelude::*;

verus! {

/// The lowest `w` bits of `v`, the highest of them first.
pub open spec fn to_bits(v: nat, w: nat) -> Seq<bool>
    decreases w,
{
    if w == 0 {
        Seq::empty()
    } else {
        to_bits(v / 2, (w - 1) as nat).push(v % 2 == 1)
    }
}

/// The number that the bits spell, the highest bit first.
pub open spec fn from_bits(bits: Seq<bool>) -> nat
    decreases bits.len(),
{
    if bits.len() == 0 {
        0
    } else {
        2 * from_bits(bits.drop_last()) + (if bits.last() {
            1nat
        } else {
            0nat
        })
    }
}

/// The bits of all the values in turn, `w` bits for each.
pub open spec fn spread(vals: Seq<nat>, w: nat) -> Seq<bool>
    decreases vals.len(),
{
    if vals.len() == 0 {
        Seq::empty()
    } else {
        spread(vals.drop_last(), w) + to_bits(vals.last(), w)
    }
}

/// The values that successive groups of `w` bits spell; bits left over at
/// the end are dropped.
pub open spec fn gather(bits: Seq<bool>, w: nat) -> Seq<nat>
    recommends
        w > 0,
{
    Seq::new((bits.len() / w) as nat, |k: int| from_bits(bits.subrange(k * w, k * w + w)))
}

/// Bytes as numbers.
pub open spec fn bytes_as_nats(bytes: Seq<u8>) -> Seq<nat> {
    Seq::new(bytes.len(), |i: int| bytes[i] as nat)
}

/// Numbers as bytes; each is taken modulo 256.
pub open spec fn nats_as_bytes(vals: Seq<nat>) -> Seq<u8> {
    Seq::new(vals.len(), |i: int| (vals[i] % 256) as u8)
}

/// Word indices as numbers.
pub open spec fn indices_as_nats(indices: Seq<u16>) -> Seq<nat> {
    Seq::new(indices.len(), |i: int| indices[i] as nat)
}

/// A number written with `w` bits has `w` bits.
pub proof fn lemma_to_bits_len(v: nat, w: nat)
    ensures
        to_bits(v, w).len() == w,
    decreases w,
{
    if w > 0 {
        lemma_to_bits_len(v / 2, (w - 1) as nat);
    }
}

/// Writing a number below `2^w` as `w` bits and reading them gives it back.
pub proof fn lemma_from_to_bits(v: nat, w: nat)
    requires
        v < pow2(w),
    ensures
        from_bits(to_bits(v, w)) == v,
    decreases w,
{
    if w == 0 {
        lemma2_to64();
    } else {
        lemma_pow2_unfold(w);
        let rest = to_bits(v / 2, (w - 1) as nat);
        let t = to_bits(v, w);
        assert(t.drop_last() =~= rest);
        lemma_from_to_bits(v / 2, (w - 1) as nat);
    }
}

/// Reading bits and writing the number with as many bits gives them back.
pub proof fn lemma_to_from_bits(bits: Seq<bool>)
    ensures
        to_bits(from_bits(bits), bits.len()) == bits,
        from_bits(bits) < pow2(bits.len()),
    decreases bits.len(),
{
    if bits.len() == 0 {
        lemma2_to64();
        assert(to_bits(from_bits(bits), 0) =~= bits);
    } else {
        lemma_pow2_unfold(bits.len());
        lemma_to_from_bits(bits.drop_last());
        let x = from_bits(bits.drop_last());
        let v = from_bits(bits);
        assert(v / 2 == x);
        assert((v % 2 == 1) == bits.last());
        assert(to_bits(v, bits.len()) =~= bits.drop_last().push(bits.last()));
        assert(bits.drop_last().push(bits.last()) =~= bits);
    }
}

/// The values spread into `w` bits each have `w` bits for each value.
pub proof fn lemma_spread_len(vals: Seq<nat>, w: nat)
    ensures
        spread(vals, w).len() == vals.len() * w,
    decreases vals.len(),
{
    if vals.len() > 0 {
        lemma_spread_len(vals.drop_last(), w);
        lemma_to_bits_len(vals.last(), w);
        assert((vals.len() - 1) * w + w == vals.len() * w) by (nonlinear_arith);
    } else {
        assert(0 * w == 0) by (nonlinear_arith);
    }
}

/// The bits of the values with one more value at the end.
pub proof fn lemma_spread_push(vals: Seq<nat>, v: nat, w: nat)
    ensures
        spread(vals.push(v), w) == spread(vals, w) + to_bits(v, w),
{
    assert(vals.push(v).drop_last() =~= vals);
}

/// The group `k` of the bits of the values holds the bits of the value `k`.
pub proof fn lemma_spread_chunk(vals: Seq<nat>, w: nat, k: int)
    requires
        0 <= k < vals.len(),
    ensures
        k * w + w <= spread(vals, w).len(),
        0 <= k * w,
        spread(vals, w).subrange(k * w, k * w + w) == to_bits(vals[k], w),
    decreases vals.len(),
{
    let n = vals.len() as int;
    let init = vals.drop_last();
    lemma_spread_len(vals, w);
    lemma_spread_len(init, w);
    lemma_to_bits_len(vals.last(), w);
    assert(0 <= k * w && k * w + w <= n * w && (n - 1) * w + w == n * w) by (nonlinear_arith)
        requires
            0 <= k < n,
            0 <= w,
    ;
    if k == n - 1 {
        assert(spread(vals, w).subrange(k * w, k * w + w) =~= to_bits(vals[k], w));
    } else {
        lemma_spread_chunk(init, w, k);
        assert(k * w + w <= (n - 1) * w) by (nonlinear_arith)
            requires
                0 <= k < n - 1,
                0 <= w,
        ;
        assert(spread(vals, w).subrange(k * w, k * w + w) =~= spread(init, w).subrange(
            k * w,
            k * w + w,
        ));
    }
}

/// Spreading values below `2^w` into bits and gathering them gives the
/// values back.
pub proof fn lemma_gather_spread(vals: Seq<nat>, w: nat)
    requires
        w > 0,
        forall|i: int| 0 <= i < vals.len() ==> vals[i] < pow2(w),
    ensures
        gather(spread(vals, w), w) == vals,
{
    let bits = spread(vals, w);
    lemma_spread_len(vals, w);
    lemma_div_by_multiple(vals.len() as int, w as int);
    assert(gather(bits, w).len() == vals.len());
    assert forall|k: int| 0 <= k < vals.len() implies gather(bits, w)[k] == vals[k] by {
        lemma_spread_chunk(vals, w, k);
        lemma_from_to_bits(vals[k], w);
    }
    assert(gather(bits, w) =~= vals);
}

/// Gathering a whole number of groups and spreading the values gives the
/// bits back.
pub proof fn lemma_spread_gather(bits: Seq<bool>, w: nat)
    requires
        w > 0,
        bits.len() % w == 0,
    ensures
        spread(gather(bits, w), w) == bits,
        forall|k: int| 0 <= k < gather(bits, w).len() ==> #[trigger] gather(bits, w)[k] < pow2(w),
{
    let vals = gather(bits, w);
    let m = vals.len() as int;
    let out = spread(vals, w);
    lemma_spread_len(vals, w);
    lemma_fundamental_div_mod(bits.len() as int, w as int);
    assert(w * m == m * w) by (nonlinear_arith);
    assert(out.len() == bits.len());
    assert forall|k: int| 0 <= k < m implies #[trigger] vals[k] < pow2(w) by {
        assert(0 <= k * w && k * w + w <= m * w) by (nonlinear_arith)
            requires
                0 <= k < m,
                0 < w,
        ;
        lemma_to_from_bits(bits.subrange(k * w, k * w + w));
    }
    assert forall|p: int| 0 <= p < bits.len() implies out[p] == bits[p] by {
        let k = p / (w as int);
        let r = p % (w as int);
        lemma_fundamental_div_mod(p, w as int);
        lemma_mod_pos_bound(p, w as int);
        assert(w * k == k * w) by (nonlinear_arith);
        assert(0 <= k < m) by (nonlinear_arith)
            requires
                p == k * w + r,
                0 <= r < w,
                0 <= p < m * w,
        ;
        lemma_spread_chunk(vals, w, k);
        let group = bits.subrange(k * w, k * w + w);
        lemma_to_from_bits(group);
        assert(out.subrange(k * w, k * w + w)[r] == out[p]);
        assert(group[r] == bits[p]);
    }
    assert(out =~= bits);
}

/// Appends the lowest `w` bits of `v`, the highest of them first.
fn push_bits(out: &mut Vec<bool>, v: u16, w: u8)
    ensures
        final(out)@ == old(out)@ + to_bits(v as nat, w as nat),
    decreases w,
{
    if w == 0 {
        assert(out@ =~= old(out)@ + to_bits(v as nat, 0));
    } else {
        push_bits(out, v / 2, w - 1);
        out.push(v % 2 == 1);
        assert(out@ =~= old(out)@ + to_bits(v as nat, w as nat));
    }
}

/// Writes the lowest `w` bits of `v`, the highest of them first.
pub fn bits_of(v: u16, w: u8) -> (bits: Vec<bool>)
    ensures
        bits@ == to_bits(v as nat, w as nat),
        bits@.len() == w,
{
    let mut bits: Vec<bool> = Vec::new();
    push_bits(&mut bits, v, w);
    proof {
        lemma_to_bits_len(v as nat, w as nat);
        assert(bits@ =~= to_bits(v as nat, w as nat));
    }
    bits
}

/// Spreads bytes into bits, eight for each.
pub fn spread_bytes(bytes: &[u8]) -> (bits: Vec<bool>)
    ensures
        bits@ == spread(bytes_as_nats(bytes@), 8),
{
    let mut bits: Vec<bool> = Vec::new();
    let mut i: usize = 0;
    while i < bytes.len()
        invariant
            i <= bytes.len(),
            bits@ == spread(bytes_as_nats(bytes@.take(i as int)), 8),
        decreases bytes.len() - i,
    {
        proof {
            let before = bytes_as_nats(bytes@.take(i as int));
            assert(bytes_as_nats(bytes@.take(i + 1)) =~= before.push(bytes[i as int] as nat));
            lemma_spread_push(before, bytes[i as int] as nat, 8);
        }
        push_bits(&mut bits, bytes[i] as u16, 8);
        i = i + 1;
    }
    assert(bytes@.take(i as int) =~= bytes@);
    bits
}

/// Spreads word indices into bits, `w` for each.
pub fn spread_indices(indices: &Vec<u16>, w: u8) -> (bits: Vec<bool>)
    ensures
        bits@ == spread(indices_as_nats(indices@), w as nat),
{
    let mut bits: Vec<bool> = Vec::new();
    let mut i: usize = 0;
    while i < indices.len()
        invariant
            i <= indices.len(),
            bits@ == spread(indices_as_nats(indices@.take(i as int)), w as nat),
        decreases indices.len() - i,
    {
        proof {
            let before = indices_as_nats(indices@.take(i as int));
            assert(indices_as_nats(indices@.take(i + 1)) =~= before.push(indices[i as int] as nat));
            lemma_spread_push(before, indices[i as int] as nat, w as nat);
        }
        push_bits(&mut bits, indices[i], w);
        i = i + 1;
    }
    assert(indices@.take(i as int) =~= indices@);
    bits
}

/// Reads the `w` bits from `start` on as a number.
pub fn read_bits(bits: &Vec<bool>, start: usize, w: usize) -> (v: u16)
    requires
        w <= 16,
        start + w <= bits.len(),
    ensures
        v == from_bits(bits@.subrange(start as int, start + w)),
{
    let mut v: u16 = 0;
    let mut i: usize = 0;
    proof {
        lemma2_to64();
    }
    while i < w
        invariant
            i <= w <= 16,
            start + w <= bits.len(),
            v == from_bits(bits@.subrange(start as int, start + i)),
            v < pow2(i as nat),
        decreases w - i,
    {
        proof {
            let next = bits@.subrange(start as int, start + i + 1);
            assert(next.drop_last() =~= bits@.subrange(start as int, start + i));
            lemma_pow2_unfold((i + 1) as nat);
            lemma2_to64();
        }
        let bit: u16 = if bits[start + i] { 1 } else { 0 };
        v = 2 * v + bit;
        i = i + 1;
    }
    v
}

} // verus!
