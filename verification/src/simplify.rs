//! Ramer-Douglas-Peucker reduction of the action sequence.
//!
//! A point's deviation from the segment between two retained points is
//! compared against the tolerance `eps_num / eps_den` exactly, in integer
//! arithmetic: the squared perpendicular distance `cross^2 / len2` exceeds
//! `(num/den)^2` if and only if `den^2 * cross^2 > num^2 * len2`, so no
//! rounding enters the decision.

use vstd::prelude::*;

use crate::doc::{FScript, FScriptV, FSPoint};

verus! {

broadcast use vstd::std_specs::vec::group_vec_axioms;

/// Twice the signed area of the triangle (a, b, p): proportional to p's
/// perpendicular distance from the line through a and b.
pub open spec fn cross_v(a: FSPoint, b: FSPoint, p: FSPoint) -> int {
    (b.at - a.at) * (p.pos - a.pos) - (b.pos - a.pos) * (p.at - a.at)
}

/// The squared length of the segment from a to b.
pub open spec fn len2_v(a: FSPoint, b: FSPoint) -> int {
    (b.at - a.at) * (b.at - a.at) + (b.pos - a.pos) * (b.pos - a.pos)
}

/// The squared distance from a to p.
pub open spec fn pdist2_v(a: FSPoint, p: FSPoint) -> int {
    (p.at - a.at) * (p.at - a.at) + (p.pos - a.pos) * (p.pos - a.pos)
}

/// The squared deviation measure of `pts[i]` from the segment
/// `pts[a]`-`pts[b]`: the squared cross product, or the squared distance to
/// `pts[a]` when the segment's endpoints coincide.
pub open spec fn d2m(pts: Seq<FSPoint>, a: int, b: int, i: int) -> int {
    if len2_v(pts[a], pts[b]) == 0 {
        pdist2_v(pts[a], pts[i])
    } else {
        cross_v(pts[a], pts[b], pts[i]) * cross_v(pts[a], pts[b], pts[i])
    }
}

/// The scale that turns a squared deviation into a comparison against the
/// squared tolerance.
pub open spec fn dscale(pts: Seq<FSPoint>, a: int, b: int) -> int {
    if len2_v(pts[a], pts[b]) == 0 {
        1
    } else {
        len2_v(pts[a], pts[b])
    }
}

/// Whether `pts[i]` deviates from the segment `pts[a]`-`pts[b]` by strictly
/// more than `num / den`.
pub open spec fn exceeds_at(pts: Seq<FSPoint>, a: int, b: int, i: int, num: int, den: int) -> bool {
    den * den * d2m(pts, a, b, i) > num * num * dscale(pts, a, b)
}

/// The interior index of maximal deviation in `(i-1 .. b)`, given the best
/// index seen so far; ties keep the earliest index.
pub open spec fn far_rec(pts: Seq<FSPoint>, a: int, b: int, i: int, best: int) -> int
    decreases b - i,
{
    if i >= b {
        best
    } else {
        far_rec(
            pts,
            a,
            b,
            i + 1,
            if d2m(pts, a, b, i) > d2m(pts, a, b, best) {
                i
            } else {
                best
            },
        )
    }
}

pub open spec fn far_idx(pts: Seq<FSPoint>, a: int, b: int) -> int {
    far_rec(pts, a, b, a + 2, a + 1)
}

proof fn lemma_far_rec_bounds(pts: Seq<FSPoint>, a: int, b: int, i: int, best: int)
    requires
        a < best < b,
        a < i,
    ensures
        a < far_rec(pts, a, b, i, best) < b,
    decreases b - i,
{
    if i < b {
        let nb = if d2m(pts, a, b, i) > d2m(pts, a, b, best) {
            i
        } else {
            best
        };
        lemma_far_rec_bounds(pts, a, b, i + 1, nb);
    }
}

/// The interior indices that Ramer-Douglas-Peucker keeps strictly between
/// `lo` and `hi`: split at the farthest point while it deviates by more than
/// the tolerance.
pub open spec fn keep_set(pts: Seq<FSPoint>, lo: int, hi: int, num: int, den: int) -> Set<int>
    decreases hi - lo,
{
    if hi - lo < 2 {
        Set::empty()
    } else {
        let f = far_idx(pts, lo, hi);
        let m = if lo < f < hi {
            f
        } else {
            lo + 1
        };
        if exceeds_at(pts, lo, hi, m, num, den) {
            (keep_set(pts, lo, m, num, den) + keep_set(pts, m, hi, num, den)).insert(m)
        } else {
            Set::empty()
        }
    }
}

/// Index `i` survives the reduction of a sequence of length `n`: the two
/// endpoints always do, interior points only if kept.
pub open spec fn kept(n: int, ks: Set<int>, i: int) -> bool {
    i == 0 || i == n - 1 || ks.contains(i)
}

pub open spec fn filter_kept(pts: Seq<FSPoint>, ks: Set<int>, i: int) -> Seq<FSPoint>
    decreases i,
{
    if i <= 0 {
        Seq::empty()
    } else {
        let rest = filter_kept(pts, ks, i - 1);
        if kept(pts.len() as int, ks, i - 1) {
            rest.push(pts[i - 1])
        } else {
            rest
        }
    }
}

/// What the simplifier leaves of an action sequence at tolerance
/// `num / den`: sequences shorter than two points are untouched; otherwise
/// the kept points, in their original order.
pub open spec fn simplify_spec(pts: Seq<FSPoint>, num: int, den: int) -> Seq<FSPoint> {
    if pts.len() < 2 {
        pts
    } else {
        filter_kept(pts, keep_set(pts, 0, pts.len() - 1, num, den), pts.len() as int)
    }
}

proof fn lemma_abs_sq(x: int, y: int)
    ensures
        (x * x > y * y) == (if x >= 0 {
            x
        } else {
            -x
        } > if y >= 0 {
            y
        } else {
            -y
        }),
{
    assert((x * x > y * y) == (if x >= 0 {
        x
    } else {
        -x
    } > if y >= 0 {
        y
    } else {
        -y
    })) by (nonlinear_arith);
}

proof fn lemma_mul_le(x: int, y: int, m: int, k: int)
    requires
        -m <= x <= m,
        -k <= y <= k,
        m >= 0,
        k >= 0,
    ensures
        -(m * k) <= x * y <= m * k,
{
    assert(-(m * k) <= x * y <= m * k) by (nonlinear_arith)
        requires
            -m <= x <= m,
            -k <= y <= k,
            m >= 0,
            k >= 0,
    ;
}

/// The exact cross product of the segment a-b with the point p.
fn cross_e(a: FSPoint, b: FSPoint, p: FSPoint) -> (r: i128)
    ensures
        r == cross_v(a, b, p),
        -0x40000000000000000i128 < r < 0x40000000000000000i128,
{
    let dx: i64 = b.at as i64 - a.at as i64;
    let dy: i64 = b.pos as i64 - a.pos as i64;
    let qx: i64 = p.at as i64 - a.at as i64;
    let qy: i64 = p.pos as i64 - a.pos as i64;
    proof {
        lemma_mul_le(dx as int, qy as int, 0xffffffff, 0xffffffff);
        lemma_mul_le(dy as int, qx as int, 0xffffffff, 0xffffffff);
    }
    (dx as i128) * (qy as i128) - (dy as i128) * (qx as i128)
}

/// The exact squared length of the segment a-b.
fn len2_e(a: FSPoint, b: FSPoint) -> (r: i128)
    ensures
        r == len2_v(a, b),
        0 <= r < 0x20000000000000000i128,
{
    let dx: i64 = b.at as i64 - a.at as i64;
    let dy: i64 = b.pos as i64 - a.pos as i64;
    proof {
        lemma_mul_le(dx as int, dx as int, 0xffffffff, 0xffffffff);
        lemma_mul_le(dy as int, dy as int, 0xffffffff, 0xffffffff);
        assert(dx as int * dx as int >= 0) by (nonlinear_arith);
        assert(dy as int * dy as int >= 0) by (nonlinear_arith);
    }
    (dx as i128) * (dx as i128) + (dy as i128) * (dy as i128)
}

/// The exact squared distance from a to p.
fn pdist2_e(a: FSPoint, p: FSPoint) -> (r: i128)
    ensures
        r == pdist2_v(a, p),
        0 <= r < 0x20000000000000000i128,
{
    let qx: i64 = p.at as i64 - a.at as i64;
    let qy: i64 = p.pos as i64 - a.pos as i64;
    proof {
        lemma_mul_le(qx as int, qx as int, 0xffffffff, 0xffffffff);
        lemma_mul_le(qy as int, qy as int, 0xffffffff, 0xffffffff);
        assert(qx as int * qx as int >= 0) by (nonlinear_arith);
        assert(qy as int * qy as int >= 0) by (nonlinear_arith);
    }
    (qx as i128) * (qx as i128) + (qy as i128) * (qy as i128)
}

fn abs_e(x: i128) -> (r: i128)
    requires
        x > i128::MIN,
    ensures
        r == (if x >= 0 {
            x as int
        } else {
            -(x as int)
        }),
        r >= 0,
{
    if x >= 0 {
        x
    } else {
        -x
    }
}

/// Decides `exceeds_at` exactly. The square of `den * |cross|` is compared
/// against `num^2 * len2`; when the factor is at least `2^49` its square
/// already tops the largest possible right side, which avoids any overflow.
fn exceeds_e(pts: &Vec<FSPoint>, a: usize, b: usize, i: usize, num: u16, den: u16) -> (r: bool)
    requires
        a < pts@.len(),
        b < pts@.len(),
        i < pts@.len(),
    ensures
        r == exceeds_at(pts@, a as int, b as int, i as int, num as int, den as int),
{
    let pa = pts[a];
    let pb = pts[b];
    let pi = pts[i];
    let l2 = len2_e(pa, pb);
    proof {
        lemma_mul_le(num as int, num as int, 0x10000, 0x10000);
        lemma_mul_le(den as int, den as int, 0x10000, 0x10000);
    }
    let nn: i128 = (num as i128) * (num as i128);
    let dd: i128 = (den as i128) * (den as i128);
    if l2 == 0 {
        let pd = pdist2_e(pa, pi);
        proof {
            lemma_mul_le(dd as int, pd as int, 0x100000000, 0x20000000000000000);
            assert(dd as int * pd as int == (den as int) * (den as int) * pdist2_v(pa, pi))
                by (nonlinear_arith)
                requires
                    dd == (den as int) * (den as int),
                    pd == pdist2_v(pa, pi),
            ;
        }
        dd * pd > nn
    } else {
        let c = cross_e(pa, pb, pi);
        let ac = abs_e(c);
        proof {
            lemma_mul_le(den as int, ac as int, 0x10000, 0x40000000000000000);
            lemma_mul_le(nn as int, l2 as int, 0x100000000, 0x20000000000000000);
        }
        let t: i128 = (den as i128) * ac;
        let rhs: i128 = nn * l2;
        if t >= 0x2000000000000i128 {
            proof {
                assert(t * t >= 0x2000000000000i128 * 0x2000000000000i128) by (nonlinear_arith)
                    requires
                        t >= 0x2000000000000i128,
                ;
                assert(t as int * t as int > (num as int) * (num as int) * len2_v(pa, pb));
                assert(t as int * t as int == (den as int) * (den as int) * (cross_v(pa, pb, pi)
                    * cross_v(pa, pb, pi))) by (nonlinear_arith)
                    requires
                        t == (den as int) * (if cross_v(pa, pb, pi) >= 0 {
                            cross_v(pa, pb, pi)
                        } else {
                            -cross_v(pa, pb, pi)
                        }),
                ;
            }
            true
        } else {
            proof {
                lemma_mul_le(t as int, t as int, 0x2000000000000, 0x2000000000000);
                assert(t as int * t as int == (den as int) * (den as int) * (cross_v(pa, pb, pi)
                    * cross_v(pa, pb, pi))) by (nonlinear_arith)
                    requires
                        t == (den as int) * (if cross_v(pa, pb, pi) >= 0 {
                            cross_v(pa, pb, pi)
                        } else {
                            -cross_v(pa, pb, pi)
                        }),
                ;
            }
            t * t > rhs
        }
    }
}

/// Marks in `keep` every interior index of `(lo, hi)` that the reduction
/// retains; every other flag is left as it was.
#[verifier::loop_isolation(false)]
fn rdp_mark(pts: &Vec<FSPoint>, lo: usize, hi: usize, num: u16, den: u16, keep: &mut Vec<bool>)
    requires
        lo < hi < pts@.len(),
        old(keep)@.len() == pts@.len(),
    ensures
        final(keep)@.len() == pts@.len(),
        forall|i: int| 0 <= i < pts@.len()
            ==> final(keep)@[i] == (old(keep)@[i] || keep_set(
                pts@,
                lo as int,
                hi as int,
                num as int,
                den as int,
            ).contains(i)),
    decreases hi - lo,
{
    if hi - lo < 2 {
        return ;
    }
    // scan (lo, hi) for the farthest interior point
    let mut best: usize = lo + 1;
    let mut i: usize = lo + 2;
    while i < hi
        invariant
            lo + 1 <= best < hi,
            lo + 2 <= i <= hi,
            far_rec(pts@, lo as int, hi as int, i as int, best as int) == far_idx(
                pts@,
                lo as int,
                hi as int,
            ),
        decreases hi - i,
    {
        let di = exceeds_cmp(pts, lo, hi, i, best);
        if di {
            best = i;
        }
        i = i + 1;
    }
    proof {
        lemma_far_rec_bounds(pts@, lo as int, hi as int, lo + 2, lo + 1);
        assert(far_rec(pts@, lo as int, hi as int, hi as int, best as int) == best as int);
    }
    let m = best;
    if exceeds_e(pts, lo, hi, m, num, den) {
        let ghost k0 = keep@;
        rdp_mark(pts, lo, m, num, den, keep);
        keep[m] = true;
        rdp_mark(pts, m, hi, num, den, keep);
        proof {
            let ks = keep_set(pts@, lo as int, hi as int, num as int, den as int);
            let ka = keep_set(pts@, lo as int, m as int, num as int, den as int);
            let kb = keep_set(pts@, m as int, hi as int, num as int, den as int);
            assert(ks == (ka + kb).insert(m as int));
            assert(forall|j: int| 0 <= j < pts@.len() ==> keep@[j] == (k0[j] || ks.contains(j)));
        }
    } else {
        proof {
            assert(keep_set(pts@, lo as int, hi as int, num as int, den as int) =~= Set::empty());
        }
    }
}

/// Whether `pts[i]` deviates strictly more than `pts[best]` does from the
/// segment `pts[a]`-`pts[b]`.
fn exceeds_cmp(pts: &Vec<FSPoint>, a: usize, b: usize, i: usize, best: usize) -> (r: bool)
    requires
        a < pts@.len(),
        b < pts@.len(),
        i < pts@.len(),
        best < pts@.len(),
    ensures
        r == (d2m(pts@, a as int, b as int, i as int) > d2m(pts@, a as int, b as int, best as int)),
{
    let pa = pts[a];
    let pb = pts[b];
    let l2 = len2_e(pa, pb);
    if l2 == 0 {
        let di = pdist2_e(pa, pts[i]);
        let db = pdist2_e(pa, pts[best]);
        di > db
    } else {
        let ci = cross_e(pa, pb, pts[i]);
        let cb = cross_e(pa, pb, pts[best]);
        let ai = abs_e(ci);
        let ab = abs_e(cb);
        proof {
            lemma_abs_sq(ci as int, cb as int);
        }
        ai > ab
    }
}

/// Runs the Ramer-Douglas-Peucker reduction on `script.actions` with the
/// tolerance `eps_num / eps_den`, in place. The first and last points always
/// survive, order is kept, and no other field of the document moves; in
/// particular `raw_actions` still holds the unreduced sequence.
#[verifier::loop_isolation(false)]
pub fn apply_rdp(script: &mut FScript, eps_num: u16, eps_den: u16)
    requires
        eps_den > 0,
    ensures
        final(script)@ == (FScriptV {
            actions: simplify_spec(old(script)@.actions, eps_num as int, eps_den as int),
            ..old(script)@
        }),
{
    let n = script.actions.len();
    if n < 2 {
        proof {
            assert(script@ =~= (FScriptV {
                actions: simplify_spec(old(script)@.actions, eps_num as int, eps_den as int),
                ..old(script)@
            }));
        }
        return ;
    }
    let mut keep: Vec<bool> = Vec::new();
    let mut i: usize = 0;
    while i < n
        invariant
            i <= n,
            keep@.len() == i as int,
            forall|j: int| 0 <= j < i as int ==> !(#[trigger] keep@[j]),
        decreases n - i,
    {
        keep.push(false);
        i = i + 1;
    }
    rdp_mark(&script.actions, 0, n - 1, eps_num, eps_den, &mut keep);
    let ghost ks = keep_set(script@.actions, 0, n - 1, eps_num as int, eps_den as int);
    let mut out: Vec<FSPoint> = Vec::new();
    let mut i: usize = 0;
    while i < n
        invariant
            i <= n,
            out@ == filter_kept(script@.actions, ks, i as int),
        decreases n - i,
    {
        if i == 0 || i == n - 1 || keep[i] {
            out.push(script.actions[i]);
        }
        i = i + 1;
    }
    script.actions = out;
    proof {
        assert(script@ =~= (FScriptV {
            actions: simplify_spec(old(script)@.actions, eps_num as int, eps_den as int),
            ..old(script)@
        }));
    }
}

// ------------------------------------------------------------------
// Laws of the simplifier.
// ------------------------------------------------------------------

proof fn lemma_filter_first(pts: Seq<FSPoint>, ks: Set<int>, i: int)
    requires
        1 <= i <= pts.len(),
        pts.len() >= 1,
    ensures
        filter_kept(pts, ks, i).len() >= 1,
        filter_kept(pts, ks, i).len() <= i,
        filter_kept(pts, ks, i)[0] == pts[0],
    decreases i,
{
    if i == 1 {
        assert(filter_kept(pts, ks, 0) == Seq::<FSPoint>::empty());
        assert(kept(pts.len() as int, ks, 0));
        assert(filter_kept(pts, ks, 1) == Seq::<FSPoint>::empty().push(pts[0]));
    } else {
        lemma_filter_first(pts, ks, i - 1);
    }
}

/// Endpoint preservation: simplification of a non-empty sequence keeps its
/// first and last points in place, and never grows the sequence.
pub proof fn lemma_simplify_endpoints(pts: Seq<FSPoint>, num: int, den: int)
    requires
        pts.len() > 0,
    ensures
        1 <= simplify_spec(pts, num, den).len() <= pts.len(),
        simplify_spec(pts, num, den)[0] == pts[0],
        simplify_spec(pts, num, den).last() == pts.last(),
{
    if pts.len() < 2 {
    } else {
        let ks = keep_set(pts, 0, pts.len() - 1, num, den);
        let n = pts.len() as int;
        lemma_filter_first(pts, ks, n - 1);
        assert(kept(n, ks, n - 1));
        assert(filter_kept(pts, ks, n) == filter_kept(pts, ks, n - 1).push(pts[n - 1]));
    }
}

proof fn lemma_sq_nonneg(x: int)
    ensures
        x * x >= 0,
{
    assert(x * x >= 0) by (nonlinear_arith);
}

proof fn lemma_exceeds_monotone(
    pts: Seq<FSPoint>,
    a: int,
    b: int,
    i: int,
    n1: int,
    d1: int,
    n2: int,
    d2: int,
)
    requires
        d1 > 0,
        d2 > 0,
        n1 >= 0,
        n2 >= 0,
        n1 * d2 <= n2 * d1,
        exceeds_at(pts, a, b, i, n2, d2),
    ensures
        exceeds_at(pts, a, b, i, n1, d1),
{
    let x = d2m(pts, a, b, i);
    let s = dscale(pts, a, b);
    lemma_sq_nonneg(cross_v(pts[a], pts[b], pts[i]));
    lemma_sq_nonneg(pts[i].at - pts[a].at);
    lemma_sq_nonneg(pts[i].pos - pts[a].pos);
    lemma_sq_nonneg(pts[b].at - pts[a].at);
    lemma_sq_nonneg(pts[b].pos - pts[a].pos);
    assert(x >= 0);
    assert(s >= 1);
    assert(d1 * d1 * x > n1 * n1 * s) by (nonlinear_arith)
        requires
            d1 > 0,
            d2 > 0,
            n1 >= 0,
            n2 >= 0,
            n1 * d2 <= n2 * d1,
            d2 * d2 * x > n2 * n2 * s,
            x >= 0,
            s >= 1,
    ;
}

proof fn lemma_keep_subset(
    pts: Seq<FSPoint>,
    lo: int,
    hi: int,
    n1: int,
    d1: int,
    n2: int,
    d2: int,
)
    requires
        d1 > 0,
        d2 > 0,
        n1 >= 0,
        n2 >= 0,
        n1 * d2 <= n2 * d1,
    ensures
        keep_set(pts, lo, hi, n2, d2).subset_of(keep_set(pts, lo, hi, n1, d1)),
    decreases hi - lo,
{
    if hi - lo < 2 {
    } else {
        let f = far_idx(pts, lo, hi);
        let m = if lo < f < hi {
            f
        } else {
            lo + 1
        };
        if exceeds_at(pts, lo, hi, m, n2, d2) {
            lemma_exceeds_monotone(pts, lo, hi, m, n1, d1, n2, d2);
            lemma_keep_subset(pts, lo, m, n1, d1, n2, d2);
            lemma_keep_subset(pts, m, hi, n1, d1, n2, d2);
        }
    }
}

proof fn lemma_filter_monotone(pts: Seq<FSPoint>, ks2: Set<int>, ks1: Set<int>, i: int)
    requires
        ks2.subset_of(ks1),
        i >= 0,
    ensures
        filter_kept(pts, ks2, i).len() <= filter_kept(pts, ks1, i).len(),
    decreases i,
{
    if i > 0 {
        lemma_filter_monotone(pts, ks2, ks1, i - 1);
    }
}

/// Monotonicity: a larger tolerance never keeps more points. Tolerances are
/// the rationals `n1/d1 <= n2/d2`.
pub proof fn lemma_simplify_monotone(
    pts: Seq<FSPoint>,
    n1: int,
    d1: int,
    n2: int,
    d2: int,
)
    requires
        d1 > 0,
        d2 > 0,
        n1 >= 0,
        n2 >= 0,
        n1 * d2 <= n2 * d1,
    ensures
        simplify_spec(pts, n2, d2).len() <= simplify_spec(pts, n1, d1).len(),
{
    if pts.len() >= 2 {
        lemma_keep_subset(pts, 0, pts.len() - 1, n1, d1, n2, d2);
        lemma_filter_monotone(
            pts,
            keep_set(pts, 0, pts.len() - 1, n2, d2),
            keep_set(pts, 0, pts.len() - 1, n1, d1),
            pts.len() as int,
        );
    }
}

} // verus!
