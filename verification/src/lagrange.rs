//! Lagrange interpolation at zero over GF(2^8), and the proof that it gives
//! back the constant term of the polynomial that the points were taken from.
//!
//! The proof goes by induction on the number of points. Dividing the
//! polynomial by `x - a`, with `a` the last point, leaves a quotient with one
//! coefficient less, to which the induction applies on the other points.
//! What remains to show is that the Lagrange coefficients add up to 1, which
//! is the expansion of the product of all `x_j / (x_j - t)` into partial
//! fractions, taken at `t = 0`.

use crate::gf256::{
    divide, gf_div, gf_inv, gf_mul, lemma_div_cancels, lemma_inverse, lemma_mul_associative,
    lemma_mul_commutative, lemma_mul_distributive, lemma_mul_distributive_left,
    lemma_mul_unit_zero, multiply,
};
use vstd::prelude::*;

verus! {

/// The first `n` abscissas are nonzero and pairwise different.
pub open spec fn distinct_nonzero(xs: Seq<u8>, n: int) -> bool {
    &&& 0 <= n <= xs.len()
    &&& forall|i: int| 0 <= i < n ==> xs[i] != 0
    &&& forall|i: int, j: int| 0 <= i < j < n ==> xs[i] != xs[j]
}

/// The product of `xs[j] / (xs[j] - t)` over the `j < n` other than `skip`:
/// the value at zero of the polynomial that is 1 at `t` and 0 at those `xs[j]`.
pub open spec fn weight_product(xs: Seq<u8>, t: u8, skip: int, n: int) -> u8
    decreases n,
{
    if n <= 0 {
        1u8
    } else if n - 1 == skip {
        weight_product(xs, t, skip, n - 1)
    } else {
        gf_mul(weight_product(xs, t, skip, n - 1), gf_div(xs[n - 1], xs[n - 1] ^ t))
    }
}

/// The Lagrange coefficient at zero of point `i` among the first `n` points.
pub open spec fn basis_at_zero(xs: Seq<u8>, i: int, n: int) -> u8 {
    weight_product(xs, xs[i], i, n)
}

/// The sum over `i < m` of `ys[i]` times the coefficient of point `i` among
/// the first `n` points.
pub open spec fn lagrange_sum(xs: Seq<u8>, ys: Seq<u8>, n: int, m: int) -> u8
    decreases m,
{
    if m <= 0 {
        0u8
    } else {
        lagrange_sum(xs, ys, n, m - 1) ^ gf_mul(ys[m - 1], basis_at_zero(xs, m - 1, n))
    }
}

/// The value at zero of the polynomial of degree below `xs.len()` that passes
/// through the points `(xs[i], ys[i])`.
pub open spec fn interpolate_at_zero(xs: Seq<u8>, ys: Seq<u8>) -> u8 {
    lagrange_sum(xs, ys, xs.len() as int, xs.len() as int)
}

/// The value at `x` of the polynomial with the coefficients `p`, constant
/// term first.
pub open spec fn poly_eval(p: Seq<u8>, x: u8) -> u8
    decreases p.len(),
{
    if p.len() == 0 {
        0u8
    } else {
        p[0] ^ gf_mul(x, poly_eval(p.drop_first(), x))
    }
}

/// The quotient of the polynomial `p` by `x - a`.
pub closed spec fn quotient(p: Seq<u8>, a: u8) -> Seq<u8>
    decreases p.len(),
{
    if p.len() <= 1 {
        Seq::empty()
    } else {
        seq![poly_eval(p.drop_first(), a)] + quotient(p.drop_first(), a)
    }
}

/// The sum over `i < m` of the coefficient of point `i` among the first `n`
/// points times `xs[i] / (xs[i] - t)`: the partial fractions of the product
/// of all `xs[j] / (xs[j] - t)`.
spec fn fraction_sum(xs: Seq<u8>, t: u8, n: int, m: int) -> u8
    decreases m,
{
    if m <= 0 {
        0u8
    } else {
        fraction_sum(xs, t, n, m - 1) ^ gf_mul(
            basis_at_zero(xs, m - 1, n),
            gf_div(xs[m - 1], xs[m - 1] ^ t),
        )
    }
}

/// The sum over `i < m` of the coefficient of point `i` among the first `n`
/// points.
spec fn weight_sum(xs: Seq<u8>, n: int, m: int) -> u8
    decreases m,
{
    if m <= 0 {
        0u8
    } else {
        weight_sum(xs, n, m - 1) ^ basis_at_zero(xs, m - 1, n)
    }
}

/// `(p * q) * (r * s) = (p * r) * (q * s)`.
proof fn lemma_interchange(p: u8, q: u8, r: u8, s: u8)
    ensures
        gf_mul(gf_mul(p, q), gf_mul(r, s)) == gf_mul(gf_mul(p, r), gf_mul(q, s)),
{
    lemma_mul_associative(p, q, gf_mul(r, s));
    lemma_mul_associative(q, r, s);
    lemma_mul_commutative(q, r);
    lemma_mul_associative(r, q, s);
    lemma_mul_associative(p, r, gf_mul(q, s));
}

/// A skipped index that is no index of the product changes nothing.
proof fn lemma_skip_outside(xs: Seq<u8>, t: u8, skip: int, n: int)
    requires
        skip >= n || skip < 0,
    ensures
        weight_product(xs, t, skip, n) == weight_product(xs, t, -1, n),
    decreases n,
{
    if n > 0 {
        lemma_skip_outside(xs, t, skip, n - 1);
    }
}

/// 1/(u-t) * 1/(a-t) = 1/(a-u) * (1/(u-t) + 1/(a-t)).
proof fn lemma_inverse_difference(u: u8, a: u8, t: u8)
    requires
        u != t,
        a != t,
        a != u,
    ensures
        gf_mul(gf_inv(u ^ t), gf_inv(a ^ t)) == gf_mul(
            gf_inv(a ^ u),
            gf_inv(u ^ t) ^ gf_inv(a ^ t),
        ),
{
    let zu = u ^ t;
    let za = a ^ t;
    let zw = a ^ u;
    let iu = gf_inv(zu);
    let ia = gf_inv(za);
    let iw = gf_inv(zw);
    let prod = gf_mul(iu, ia);
    assert(zu != 0 && za != 0 && zw != 0 && zw == za ^ zu) by (bit_vector)
        requires
            zu == u ^ t,
            za == a ^ t,
            zw == a ^ u,
            u != t,
            a != t,
            a != u,
    ;
    lemma_inverse(zu);
    lemma_inverse(za);
    lemma_inverse(zw);
    // za * (iu * ia) == iu
    lemma_mul_commutative(iu, ia);
    lemma_mul_associative(za, ia, iu);
    lemma_mul_unit_zero(iu);
    assert(gf_mul(za, prod) == iu);
    // zu * (iu * ia) == ia
    lemma_mul_associative(zu, iu, ia);
    lemma_mul_unit_zero(ia);
    assert(gf_mul(zu, prod) == ia);
    lemma_mul_distributive_left(za, zu, prod);
    assert(gf_mul(zw, prod) == iu ^ ia);
    lemma_mul_associative(iw, zw, prod);
    lemma_mul_unit_zero(prod);
}

/// The product of two fractions `u / (u - t)` and `a / (a - t)` as a sum of
/// the two, each with a coefficient free of `t`.
proof fn lemma_two_fractions(u: u8, a: u8, t: u8)
    requires
        u != t,
        a != t,
        a != u,
    ensures
        gf_mul(gf_div(u, u ^ t), gf_div(a, a ^ t)) == gf_mul(gf_div(a, a ^ u), gf_div(u, u ^ t))
            ^ gf_mul(gf_div(u, u ^ a), gf_div(a, a ^ t)),
{
    let iu = gf_inv(u ^ t);
    let ia = gf_inv(a ^ t);
    let iw = gf_inv(a ^ u);
    let ua = gf_mul(u, a);
    assert(u ^ a == a ^ u) by (bit_vector);
    lemma_inverse_difference(u, a, t);
    lemma_interchange(u, iu, a, ia);
    lemma_interchange(a, iw, u, iu);
    lemma_mul_commutative(a, u);
    lemma_interchange(u, iw, a, ia);
    lemma_mul_distributive(iw, iu, ia);
    lemma_mul_distributive(ua, gf_mul(iw, iu), gf_mul(iw, ia));
}

/// One more point in the partial fractions: the sum over the old points,
/// times the fraction of the new point, is the sum over the old points with
/// their new coefficients, plus a multiple of the fraction of the new point.
proof fn lemma_fraction_step(xs: Seq<u8>, t: u8, n: int, m: int)
    requires
        0 <= m <= n < xs.len(),
        forall|i: int, j: int| 0 <= i < j <= n ==> xs[i] != xs[j],
        forall|i: int| 0 <= i <= n ==> xs[i] != t,
    ensures
        gf_mul(fraction_sum(xs, t, n, m), gf_div(xs[n], xs[n] ^ t)) == fraction_sum(
            xs,
            t,
            n + 1,
            m,
        ) ^ gf_mul(fraction_sum(xs, xs[n], n, m), gf_div(xs[n], xs[n] ^ t)),
    decreases m,
{
    let a = xs[n];
    let r = gf_div(a, a ^ t);
    if m <= 0 {
        lemma_mul_unit_zero(r);
        assert(0u8 ^ 0u8 == 0u8) by (bit_vector);
    } else {
        let i = m - 1;
        let u = xs[i];
        lemma_fraction_step(xs, t, n, i);
        let b = basis_at_zero(xs, i, n);
        let ri = gf_div(u, u ^ t);
        let e = gf_div(a, a ^ u);
        let g = gf_div(u, u ^ a);
        let st = fraction_sum(xs, t, n, i);
        let sa = fraction_sum(xs, a, n, i);
        let sn = fraction_sum(xs, t, n + 1, i);
        lemma_mul_distributive_left(st, gf_mul(b, ri), r);
        lemma_mul_associative(b, ri, r);
        lemma_two_fractions(u, a, t);
        lemma_mul_distributive(b, gf_mul(e, ri), gf_mul(g, r));
        lemma_mul_associative(b, e, ri);
        lemma_mul_associative(b, g, r);
        lemma_mul_distributive_left(sa, gf_mul(b, g), r);
        let v1 = gf_mul(st, r);
        let v2 = gf_mul(gf_mul(b, e), ri);
        let v3 = gf_mul(gf_mul(b, g), r);
        let v4 = gf_mul(sa, r);
        assert(basis_at_zero(xs, i, n + 1) == gf_mul(b, e));
        assert(fraction_sum(xs, t, n + 1, m) == sn ^ v2);
        assert(fraction_sum(xs, a, n, m) == sa ^ gf_mul(b, g));
        assert(gf_mul(fraction_sum(xs, t, n, m), r) == v1 ^ (v2 ^ v3));
        assert(v1 ^ (v2 ^ v3) == (sn ^ v2) ^ (v4 ^ v3)) by (bit_vector)
            requires
                v1 == sn ^ v4,
        ;
    }
}

/// The product of all `xs[j] / (xs[j] - t)` is the sum of its partial
/// fractions.
proof fn lemma_partial_fractions(xs: Seq<u8>, t: u8, n: int)
    requires
        1 <= n <= xs.len(),
        forall|i: int, j: int| 0 <= i < j < n ==> xs[i] != xs[j],
        forall|i: int| 0 <= i < n ==> xs[i] != t,
    ensures
        weight_product(xs, t, -1, n) == fraction_sum(xs, t, n, n),
    decreases n,
{
    let a = xs[n - 1];
    let r = gf_div(a, a ^ t);
    if n == 1 {
        assert(weight_product(xs, t, -1, 1) == gf_mul(weight_product(xs, t, -1, 0), r));
        assert(basis_at_zero(xs, 0, 1) == weight_product(xs, a, 0, 0));
        assert(fraction_sum(xs, t, 1, 1) == fraction_sum(xs, t, 1, 0) ^ gf_mul(
            basis_at_zero(xs, 0, 1),
            r,
        ));
        let v = gf_mul(1u8, r);
        assert(0u8 ^ v == v) by (bit_vector);
    } else {
        lemma_partial_fractions(xs, t, n - 1);
        lemma_partial_fractions(xs, a, n - 1);
        lemma_fraction_step(xs, t, n - 1, n - 1);
        lemma_skip_outside(xs, a, n - 1, n - 1);
        assert(basis_at_zero(xs, n - 1, n) == weight_product(xs, a, n - 1, n - 1));
    }
}

/// At `t = 0` every factor of the product is 1.
proof fn lemma_product_at_zero(xs: Seq<u8>, n: int)
    requires
        distinct_nonzero(xs, n),
    ensures
        weight_product(xs, 0u8, -1, n) == 1,
    decreases n,
{
    if n > 0 {
        lemma_product_at_zero(xs, n - 1);
        let x = xs[n - 1];
        assert(x ^ 0u8 == x) by (bit_vector);
        lemma_div_cancels(x, x);
        lemma_mul_unit_zero(1u8);
    }
}

/// At `t = 0` the partial fractions are the coefficients themselves.
proof fn lemma_fractions_at_zero(xs: Seq<u8>, n: int, m: int)
    requires
        distinct_nonzero(xs, n),
        0 <= m <= n,
    ensures
        fraction_sum(xs, 0u8, n, m) == weight_sum(xs, n, m),
    decreases m,
{
    if m > 0 {
        lemma_fractions_at_zero(xs, n, m - 1);
        let x = xs[m - 1];
        assert(x ^ 0u8 == x) by (bit_vector);
        lemma_div_cancels(x, x);
        lemma_mul_unit_zero(basis_at_zero(xs, m - 1, n));
    }
}

/// The Lagrange coefficients at zero of distinct nonzero points add up to 1.
proof fn lemma_weights_sum_to_one(xs: Seq<u8>, n: int)
    requires
        distinct_nonzero(xs, n),
        1 <= n,
    ensures
        weight_sum(xs, n, n) == 1,
{
    lemma_partial_fractions(xs, 0u8, n);
    lemma_product_at_zero(xs, n);
    lemma_fractions_at_zero(xs, n, n);
}

/// The value of a polynomial at zero is its constant term.
pub proof fn lemma_eval_at_zero(p: Seq<u8>)
    requires
        p.len() >= 1,
    ensures
        poly_eval(p, 0u8) == p[0],
{
    lemma_mul_unit_zero(poly_eval(p.drop_first(), 0u8));
    let c = p[0];
    assert(c ^ 0u8 == c) by (bit_vector);
}

/// Division with remainder by `x - a`: `p(x) = p(a) + (x - a) * q(x)`.
proof fn lemma_synthetic_division(p: Seq<u8>, a: u8, x: u8)
    requires
        p.len() >= 1,
    ensures
        quotient(p, a).len() == p.len() - 1,
        poly_eval(p, x) == poly_eval(p, a) ^ gf_mul(x ^ a, poly_eval(quotient(p, a), x)),
    decreases p.len(),
{
    let c = p[0];
    let rest = p.drop_first();
    if p.len() == 1 {
        assert(quotient(p, a) =~= Seq::<u8>::empty());
        assert(poly_eval(rest, x) == 0);
        assert(poly_eval(rest, a) == 0);
        lemma_mul_unit_zero(x);
        lemma_mul_unit_zero(a);
        lemma_mul_unit_zero(x ^ a);
        assert(c ^ 0u8 == (c ^ 0u8) ^ 0u8) by (bit_vector);
    } else {
        lemma_synthetic_division(rest, a, x);
        let q = quotient(p, a);
        let qr = quotient(rest, a);
        let ra = poly_eval(rest, a);
        let rx = poly_eval(rest, x);
        let qx = poly_eval(qr, x);
        let z = x ^ a;
        assert(q.drop_first() =~= qr);
        assert(q[0] == ra);
        assert(poly_eval(q, x) == ra ^ gf_mul(x, qx));
        // (x ^ a) * (ra ^ x * qx)
        lemma_mul_distributive(z, ra, gf_mul(x, qx));
        lemma_mul_distributive_left(x, a, ra);
        lemma_mul_associative(z, x, qx);
        lemma_mul_commutative(z, x);
        lemma_mul_associative(x, z, qx);
        lemma_mul_distributive(x, ra, gf_mul(z, qx));
        let v1 = gf_mul(x, ra);
        let v2 = gf_mul(a, ra);
        let v3 = gf_mul(x, gf_mul(z, qx));
        assert(gf_mul(x, rx) == v1 ^ v3);
        assert(gf_mul(z, poly_eval(q, x)) == (v1 ^ v2) ^ v3);
        assert(c ^ (v1 ^ v3) == (c ^ v2) ^ ((v1 ^ v2) ^ v3)) by (bit_vector);
    }
}

/// Where each `ys[i]` is `c + (xs[i] - a) * qs[i]`, with `a` the last of `n`
/// points, the sum over the points before it splits into `c` times the sum
/// of their coefficients and `a` times the sum for `qs` without the last
/// point.
proof fn lemma_sum_split(xs: Seq<u8>, ys: Seq<u8>, qs: Seq<u8>, c: u8, n: int, m: int)
    requires
        0 <= m < n <= xs.len(),
        m <= ys.len(),
        m <= qs.len(),
        forall|i: int| 0 <= i < m ==> #[trigger] xs[i] != xs[n - 1],
        forall|i: int| 0 <= i < m ==> ys[i] == c ^ gf_mul(xs[i] ^ xs[n - 1], #[trigger] qs[i]),
    ensures
        lagrange_sum(xs, ys, n, m) == gf_mul(c, weight_sum(xs, n, m)) ^ gf_mul(
            xs[n - 1],
            lagrange_sum(xs, qs, n - 1, m),
        ),
    decreases m,
{
    let a = xs[n - 1];
    if m <= 0 {
        lemma_mul_unit_zero(c);
        lemma_mul_unit_zero(a);
        assert(0u8 ^ 0u8 == 0u8) by (bit_vector);
    } else {
        let i = m - 1;
        lemma_sum_split(xs, ys, qs, c, n, i);
        let u = xs[i];
        let z = u ^ a;
        let w = gf_inv(a ^ u);
        let b = basis_at_zero(xs, i, n - 1);
        let bn = basis_at_zero(xs, i, n);
        let qi = qs[i];
        assert(bn == gf_mul(b, gf_mul(a, w)));
        assert(z == a ^ u && z != 0) by (bit_vector)
            requires
                z == u ^ a,
                u != a,
        ;
        lemma_inverse(z);
        // ys[i] * bn == c * bn ^ a * (qi * b)
        lemma_mul_distributive_left(c, gf_mul(z, qi), bn);
        lemma_mul_commutative(z, qi);
        lemma_mul_associative(b, a, w);
        lemma_interchange(qi, z, gf_mul(b, a), w);
        lemma_mul_unit_zero(gf_mul(qi, gf_mul(b, a)));
        lemma_mul_commutative(b, a);
        lemma_mul_associative(qi, a, b);
        lemma_mul_commutative(qi, a);
        lemma_mul_associative(a, qi, b);
        assert(gf_mul(gf_mul(z, qi), bn) == gf_mul(a, gf_mul(qi, b)));
        let s_old = lagrange_sum(xs, ys, n, i);
        let ws = weight_sum(xs, n, i);
        let ls = lagrange_sum(xs, qs, n - 1, i);
        lemma_mul_distributive(c, ws, bn);
        lemma_mul_distributive(a, ls, gf_mul(qi, b));
        let v1 = gf_mul(c, ws);
        let v2 = gf_mul(a, ls);
        let v3 = gf_mul(c, bn);
        let v4 = gf_mul(a, gf_mul(qi, b));
        assert(lagrange_sum(xs, ys, n, m) == s_old ^ (v3 ^ v4));
        assert(weight_sum(xs, n, m) == ws ^ bn);
        assert(lagrange_sum(xs, qs, n - 1, m) == ls ^ gf_mul(qi, b));
        assert((v1 ^ v2) ^ (v3 ^ v4) == (v1 ^ v3) ^ (v2 ^ v4)) by (bit_vector);
    }
}

/// Interpolating at zero through `n` distinct nonzero points of a polynomial
/// with `n` coefficients gives its constant term.
pub proof fn lemma_interpolation(xs: Seq<u8>, ys: Seq<u8>, p: Seq<u8>, n: int)
    requires
        1 <= n == p.len(),
        distinct_nonzero(xs, n),
        n <= ys.len(),
        forall|i: int| 0 <= i < n ==> ys[i] == poly_eval(p, xs[i]),
    ensures
        lagrange_sum(xs, ys, n, n) == p[0],
    decreases n,
{
    let a = xs[n - 1];
    let c = poly_eval(p, a);
    if n == 1 {
        assert(lagrange_sum(xs, ys, 1, 1) == lagrange_sum(xs, ys, 1, 0) ^ gf_mul(
            ys[0],
            basis_at_zero(xs, 0, 1),
        ));
        assert(basis_at_zero(xs, 0, 1) == weight_product(xs, a, 0, 0));
        lemma_mul_unit_zero(c);
        lemma_mul_unit_zero(a);
        assert(poly_eval(p.drop_first(), a) == 0);
        let v = p[0];
        assert(0u8 ^ (v ^ 0u8) == v) by (bit_vector);
    } else {
        let q = quotient(p, a);
        let qs = Seq::new((n - 1) as nat, |i: int| poly_eval(q, xs[i]));
        lemma_synthetic_division(p, a, 0u8);
        assert forall|i: int| 0 <= i < n - 1 implies ys[i] == c ^ gf_mul(
            xs[i] ^ a,
            #[trigger] qs[i],
        ) by {
            lemma_synthetic_division(p, a, xs[i]);
        }
        lemma_interpolation(xs, qs, q, n - 1);
        lemma_sum_split(xs, ys, qs, c, n, n - 1);
        lemma_weights_sum_to_one(xs, n);
        lemma_eval_at_zero(p);
        lemma_eval_at_zero(q);
        let ws = weight_sum(xs, n, n - 1);
        let bn = basis_at_zero(xs, n - 1, n);
        lemma_mul_distributive(c, ws, bn);
        lemma_mul_unit_zero(c);
        let v1 = gf_mul(c, ws);
        let v2 = gf_mul(a, q[0]);
        let v3 = gf_mul(c, bn);
        assert(lagrange_sum(xs, ys, n, n) == (v1 ^ v2) ^ v3);
        assert(c == v1 ^ v3);
        assert(p[0] == c ^ gf_mul(0u8 ^ a, q[0]));
        assert(0u8 ^ a == a) by (bit_vector);
        assert((v1 ^ v2) ^ v3 == (v1 ^ v3) ^ v2) by (bit_vector);
    }
}

/// Computes the Lagrange coefficient at zero of the point `i` among all the
/// points `xs`.
pub fn basis_weight(xs: &Vec<u8>, i: usize) -> (w: u8)
    requires
        i < xs@.len(),
    ensures
        w == basis_at_zero(xs@, i as int, xs@.len() as int),
{
    let mut w: u8 = 1;
    let mut j: usize = 0;
    while j < xs.len()
        invariant
            j <= xs@.len(),
            i < xs@.len(),
            w == weight_product(xs@, xs@[i as int], i as int, j as int),
        decreases xs.len() - j,
    {
        if j != i {
            w = multiply(w, divide(xs[j], xs[j] ^ xs[i]));
        }
        j = j + 1;
    }
    w
}

/// Computes the Lagrange coefficients at zero of all the points `xs`.
pub fn basis_weights(xs: &Vec<u8>) -> (ws: Vec<u8>)
    ensures
        ws@.len() == xs@.len(),
        forall|i: int|
            0 <= i < xs@.len() ==> #[trigger] ws@[i] == basis_at_zero(xs@, i, xs@.len() as int),
{
    let mut ws: Vec<u8> = Vec::new();
    let mut i: usize = 0;
    while i < xs.len()
        invariant
            i <= xs@.len(),
            ws@.len() == i,
            forall|k: int| 0 <= k < i ==> #[trigger] ws@[k] == basis_at_zero(xs@, k, xs@.len() as int),
        decreases xs.len() - i,
    {
        ws.push(basis_weight(xs, i));
        i = i + 1;
    }
    ws
}

} // verus!
