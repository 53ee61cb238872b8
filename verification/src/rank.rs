//! Deterministic ranking of fit results.
//!
//! Results order by fit grade (best first), then run-mode preference (GPU
//! first), then memory utilization ascending; results tied on all three
//! keys keep their input order. The order is a total preorder, not a total
//! order: distinct results can tie, which is why stability is part of the
//! contract. Utilization compares as the exact rational
//! `required / available` (a zero pool counting as infinite), by
//! cross-multiplication, so no rounding enters the order.

use vstd::prelude::*;
use vstd::arithmetic::mul::lemma_mul_upper_bound;
use crate::fit::FitLevel;
use crate::fit::ModelFit;
use crate::fit::RunMode;
use crate::fit::fit_level_rank;
use crate::fit::run_mode_rank;
use crate::fit::spec_is_analysis;
use crate::hardware::SystemSpecs;
use crate::models::LlmModel;

verus! {

/// Utilization `r1 / a1` is at most `r2 / a2`, where a zero pool stands
/// for infinite utilization.
pub open spec fn spec_util_le(r1: u64, a1: u64, r2: u64, a2: u64) -> bool {
    if a1 == 0 {
        a2 == 0
    } else if a2 == 0 {
        true
    } else {
        r1 * a2 <= r2 * a1
    }
}

/// The ranking order: `a` sorts no later than `b`.
pub open spec fn spec_fits_le(a: ModelFit, b: ModelFit) -> bool {
    let fa = fit_level_rank(a.fit_level);
    let fb = fit_level_rank(b.fit_level);
    let ma = run_mode_rank(a.run_mode);
    let mb = run_mode_rank(b.run_mode);
    ||| fa < fb
    ||| (fa == fb && ma < mb)
    ||| (fa == fb && ma == mb && spec_util_le(
        a.memory_required_mib,
        a.memory_available_mib,
        b.memory_required_mib,
        b.memory_available_mib,
    ))
}

/// `a` and `b` tie on all three ranking keys.
pub open spec fn spec_fits_tied(a: ModelFit, b: ModelFit) -> bool {
    spec_fits_le(a, b) && spec_fits_le(b, a)
}

/// The sequence is in ranking order.
pub open spec fn spec_ranked(s: Seq<ModelFit>) -> bool {
    forall|i: int, j: int| 0 <= i <= j < s.len() ==> spec_fits_le(s[i], s[j])
}

/// Stable insertion: `x` goes after every element that sorts no later than
/// it, so an element arriving later never overtakes a tie.
pub open spec fn spec_insert_ranked(x: ModelFit, t: Seq<ModelFit>) -> Seq<ModelFit>
    decreases t.len(),
{
    if t.len() == 0 {
        seq![x]
    } else if spec_fits_le(t[0], x) {
        seq![t[0]] + spec_insert_ranked(x, t.drop_first())
    } else {
        seq![x] + t
    }
}

/// The ranking of a sequence: insertion sort, processing input order left
/// to right. This pins the output exactly, ties included.
pub open spec fn spec_rank(s: Seq<ModelFit>) -> Seq<ModelFit>
    decreases s.len(),
{
    if s.len() == 0 {
        s
    } else {
        spec_insert_ranked(s.last(), spec_rank(s.drop_last()))
    }
}

/// The subsequence of elements tied with `c`, in order.
pub open spec fn spec_tied_with(c: ModelFit, s: Seq<ModelFit>) -> Seq<ModelFit>
    decreases s.len(),
{
    if s.len() == 0 {
        s
    } else if spec_fits_tied(s[0], c) {
        seq![s[0]] + spec_tied_with(c, s.drop_first())
    } else {
        spec_tied_with(c, s.drop_first())
    }
}

proof fn lemma_u64_mul_fits_u128(x: u64, y: u64)
    ensures
        x * y <= u128::MAX,
{
    lemma_mul_upper_bound(x as int, u64::MAX as int, y as int, u64::MAX as int);
}

/// The ranking order is total: of any two results, one sorts no later
/// than the other.
pub proof fn lemma_fits_le_total(a: ModelFit, b: ModelFit)
    ensures
        spec_fits_le(a, b) || spec_fits_le(b, a),
{
}

proof fn lemma_util_le_trans_pos(r1: u64, a1: u64, r2: u64, a2: u64, r3: u64, a3: u64)
    by (nonlinear_arith)
    requires
        a1 > 0,
        a2 > 0,
        a3 > 0,
        r1 * a2 <= r2 * a1,
        r2 * a3 <= r3 * a2,
    ensures
        r1 * a3 <= r3 * a1,
{
}

/// The ranking order is transitive.
pub proof fn lemma_fits_le_trans(a: ModelFit, b: ModelFit, c: ModelFit)
    requires
        spec_fits_le(a, b),
        spec_fits_le(b, c),
    ensures
        spec_fits_le(a, c),
{
    let fa = fit_level_rank(a.fit_level);
    let fb = fit_level_rank(b.fit_level);
    let fc = fit_level_rank(c.fit_level);
    let ma = run_mode_rank(a.run_mode);
    let mb = run_mode_rank(b.run_mode);
    let mc = run_mode_rank(c.run_mode);
    if fa == fb && fb == fc && ma == mb && mb == mc {
        let x1 = a.memory_required_mib;
        let y1 = a.memory_available_mib;
        let x2 = b.memory_required_mib;
        let y2 = b.memory_available_mib;
        let x3 = c.memory_required_mib;
        let y3 = c.memory_available_mib;
        if y1 > 0 && y2 > 0 && y3 > 0 {
            lemma_util_le_trans_pos(x1, y1, x2, y2, x3, y3);
        }
    }
}

proof fn lemma_insert_ranked_len(x: ModelFit, t: Seq<ModelFit>)
    ensures
        spec_insert_ranked(x, t).len() == t.len() + 1,
    decreases t.len(),
{
    if t.len() > 0 && spec_fits_le(t[0], x) {
        lemma_insert_ranked_len(x, t.drop_first());
    }
}

proof fn lemma_rank_len(s: Seq<ModelFit>)
    ensures
        spec_rank(s).len() == s.len(),
    decreases s.len(),
{
    if s.len() > 0 {
        lemma_rank_len(s.drop_last());
        lemma_insert_ranked_len(s.last(), spec_rank(s.drop_last()));
    }
}

/// Inserting at the first position whose element sorts strictly after `x`
/// is what [`spec_insert_ranked`] does.
proof fn lemma_insert_ranked_at(x: ModelFit, t: Seq<ModelFit>, p: int)
    requires
        0 <= p <= t.len(),
        forall|j: int| 0 <= j < p ==> spec_fits_le(#[trigger] t[j], x),
        p < t.len() ==> !spec_fits_le(t[p], x),
    ensures
        spec_insert_ranked(x, t) == t.take(p) + seq![x] + t.skip(p),
    decreases t.len(),
{
    if p == 0 {
        assert(spec_insert_ranked(x, t) =~= t.take(0) + seq![x] + t.skip(0));
    } else {
        let rest = t.drop_first();
        assert(spec_fits_le(t[0], x));
        assert(forall|j: int| 0 <= j < p - 1 ==> spec_fits_le(#[trigger] rest[j], x)) by {
            assert(forall|j: int| 0 <= j < p - 1 ==> rest[j] == t[j + 1]);
        }
        lemma_insert_ranked_at(x, rest, p - 1);
        assert(seq![t[0]] + (rest.take(p - 1) + seq![x] + rest.skip(p - 1)) =~= t.take(p)
            + seq![x] + t.skip(p));
    }
}

/// Every element of an insertion's result is `x` or one of `t`.
proof fn lemma_insert_ranked_lower_bound(x: ModelFit, t: Seq<ModelFit>, lo: ModelFit)
    requires
        spec_fits_le(lo, x),
        forall|j: int| 0 <= j < t.len() ==> spec_fits_le(lo, #[trigger] t[j]),
    ensures
        forall|k: int| 0 <= k < spec_insert_ranked(x, t).len() ==> spec_fits_le(
            lo,
            #[trigger] spec_insert_ranked(x, t)[k],
        ),
    decreases t.len(),
{
    let out = spec_insert_ranked(x, t);
    if t.len() == 0 {
        assert(out == seq![x]);
        assert(out[0] == x);
    } else if spec_fits_le(t[0], x) {
        let rest = t.drop_first();
        assert(forall|j: int| 0 <= j < rest.len() ==> rest[j] == t[j + 1]);
        lemma_insert_ranked_lower_bound(x, rest, lo);
        assert forall|k: int| 0 <= k < out.len() implies spec_fits_le(lo, out[k]) by {
            if k == 0 {
                assert(out[0] == t[0]);
            } else {
                assert(out[k] == spec_insert_ranked(x, rest)[k - 1]);
            }
        }
    } else {
        assert(out == seq![x] + t);
        assert forall|k: int| 0 <= k < out.len() implies spec_fits_le(lo, out[k]) by {
            if k == 0 {
                assert(out[0] == x);
            } else {
                assert(out[k] == t[k - 1]);
            }
        }
    }
}

proof fn lemma_insert_ranked_sorted(x: ModelFit, t: Seq<ModelFit>)
    requires
        spec_ranked(t),
    ensures
        spec_ranked(spec_insert_ranked(x, t)),
    decreases t.len(),
{
    if t.len() == 0 {
    } else if spec_fits_le(t[0], x) {
        let rest = t.drop_first();
        assert(spec_ranked(rest)) by {
            assert(forall|j: int| 0 <= j < rest.len() ==> rest[j] == t[j + 1]);
        }
        lemma_insert_ranked_sorted(x, rest);
        assert(forall|j: int| 0 <= j < rest.len() ==> spec_fits_le(t[0], #[trigger] rest[j]));
        lemma_insert_ranked_lower_bound(x, rest, t[0]);
        let out = seq![t[0]] + spec_insert_ranked(x, rest);
        assert forall|i: int, j: int| 0 <= i <= j < out.len() implies spec_fits_le(
            out[i],
            out[j],
        ) by {
            if i == 0 && j > 0 {
                assert(out[j] == spec_insert_ranked(x, rest)[j - 1]);
            } else if i > 0 {
                assert(out[i] == spec_insert_ranked(x, rest)[i - 1]);
                assert(out[j] == spec_insert_ranked(x, rest)[j - 1]);
            }
        }
    } else {
        lemma_fits_le_total(t[0], x);
        let out = seq![x] + t;
        assert forall|i: int, j: int| 0 <= i <= j < out.len() implies spec_fits_le(
            out[i],
            out[j],
        ) by {
            if i == 0 && j > 0 {
                lemma_fits_le_trans(x, t[0], t[j - 1]);
            }
        }
    }
}

/// The ranking of any sequence is in ranking order.
pub proof fn lemma_rank_sorted(s: Seq<ModelFit>)
    ensures
        spec_ranked(spec_rank(s)),
    decreases s.len(),
{
    if s.len() > 0 {
        lemma_rank_sorted(s.drop_last());
        lemma_insert_ranked_sorted(s.last(), spec_rank(s.drop_last()));
    }
}

proof fn lemma_insert_ranked_multiset(x: ModelFit, t: Seq<ModelFit>)
    ensures
        spec_insert_ranked(x, t).to_multiset() == t.to_multiset().insert(x),
    decreases t.len(),
{
    broadcast use vstd::seq_lib::group_to_multiset_ensures;
    broadcast use vstd::multiset::group_multiset_axioms;

    if t.len() == 0 {
        assert(seq![x] =~= Seq::<ModelFit>::empty().push(x));
        assert(spec_insert_ranked(x, t).to_multiset() =~= t.to_multiset().insert(x));
    } else if spec_fits_le(t[0], x) {
        let rest = t.drop_first();
        lemma_insert_ranked_multiset(x, rest);
        vstd::seq_lib::lemma_multiset_commutative(seq![t[0]], spec_insert_ranked(x, rest));
        vstd::seq_lib::lemma_multiset_commutative(seq![t[0]], rest);
        assert(t =~= seq![t[0]] + rest);
        assert(seq![t[0]] =~= Seq::<ModelFit>::empty().push(t[0]));
        assert(spec_insert_ranked(x, t).to_multiset() =~= t.to_multiset().insert(x));
    } else {
        vstd::seq_lib::lemma_multiset_commutative(seq![x], t);
        assert(seq![x] =~= Seq::<ModelFit>::empty().push(x));
        assert(spec_insert_ranked(x, t).to_multiset() =~= t.to_multiset().insert(x));
    }
}

/// Ranking permutes: the output holds exactly the input's results, with
/// multiplicity, and in particular has the same length.
pub proof fn lemma_rank_permutation(s: Seq<ModelFit>)
    ensures
        spec_rank(s).to_multiset() == s.to_multiset(),
        spec_rank(s).len() == s.len(),
    decreases s.len(),
{
    broadcast use vstd::seq_lib::group_to_multiset_ensures;

    lemma_rank_len(s);
    if s.len() > 0 {
        lemma_rank_permutation(s.drop_last());
        lemma_insert_ranked_multiset(s.last(), spec_rank(s.drop_last()));
        assert(s =~= s.drop_last().push(s.last()));
        assert(s.to_multiset() == s.drop_last().to_multiset().insert(s.last()));
    }
}

/// Appending an element tied with nothing later sorted: filtering the tied
/// subsequence commutes with push.
proof fn lemma_tied_with_push(c: ModelFit, s: Seq<ModelFit>, a: ModelFit)
    ensures
        spec_tied_with(c, s.push(a)) == if spec_fits_tied(a, c) {
            spec_tied_with(c, s).push(a)
        } else {
            spec_tied_with(c, s)
        },
    decreases s.len(),
{
    let sp = s.push(a);
    if s.len() == 0 {
        assert(sp[0] == a);
        assert(sp.drop_first() =~= Seq::<ModelFit>::empty());
        assert(spec_tied_with(c, sp.drop_first()) == sp.drop_first());
        assert(spec_tied_with(c, s) == s);
        if spec_fits_tied(a, c) {
            assert(spec_tied_with(c, sp) == seq![a] + spec_tied_with(c, sp.drop_first()));
            assert(seq![a] + sp.drop_first() =~= s.push(a));
        }
    } else {
        assert(sp[0] == s[0]);
        assert(sp.drop_first() =~= s.drop_first().push(a));
        lemma_tied_with_push(c, s.drop_first(), a);
        if spec_fits_tied(a, c) {
            if spec_fits_tied(s[0], c) {
                assert(seq![s[0]] + spec_tied_with(c, s.drop_first()).push(a) =~= (seq![s[0]]
                    + spec_tied_with(c, s.drop_first())).push(a));
            }
        }
    }
}

/// Inserting into a sorted sequence keeps each tied subsequence in order,
/// with the new element at its end.
proof fn lemma_insert_ranked_tied(x: ModelFit, t: Seq<ModelFit>, c: ModelFit)
    requires
        spec_ranked(t),
    ensures
        spec_tied_with(c, spec_insert_ranked(x, t)) == if spec_fits_tied(x, c) {
            spec_tied_with(c, t).push(x)
        } else {
            spec_tied_with(c, t)
        },
    decreases t.len(),
{
    if t.len() == 0 {
        let out = seq![x];
        assert(out[0] == x);
        assert(out.drop_first() =~= Seq::<ModelFit>::empty());
        assert(spec_tied_with(c, out.drop_first()) == out.drop_first());
        assert(spec_tied_with(c, t) == t);
        if spec_fits_tied(x, c) {
            assert(spec_tied_with(c, out) == seq![x] + spec_tied_with(c, out.drop_first()));
            assert(seq![x] + out.drop_first() =~= t.push(x));
        }
    } else if spec_fits_le(t[0], x) {
        let rest = t.drop_first();
        assert(spec_ranked(rest)) by {
            assert(forall|j: int| 0 <= j < rest.len() ==> rest[j] == t[j + 1]);
        }
        lemma_insert_ranked_tied(x, rest, c);
        let out = seq![t[0]] + spec_insert_ranked(x, rest);
        assert(out[0] == t[0]);
        assert(out.drop_first() =~= spec_insert_ranked(x, rest));
        if spec_fits_tied(x, c) {
            if spec_fits_tied(t[0], c) {
                assert(seq![t[0]] + spec_tied_with(c, rest).push(x) =~= (seq![t[0]]
                    + spec_tied_with(c, rest)).push(x));
            }
        }
    } else {
        // x goes in front; nothing in t can tie with x (or with anything
        // tied to x), since t is sorted and its head already sorts after x.
        lemma_fits_le_total(t[0], x);
        assert forall|j: int| 0 <= j < t.len() implies !spec_fits_tied(#[trigger] t[j], x) by {
            if spec_fits_le(t[j], x) {
                lemma_fits_le_trans(t[0], t[j], x);
            }
        }
        if spec_fits_tied(x, c) {
            assert(spec_tied_with(c, t) =~= Seq::<ModelFit>::empty()) by {
                lemma_tied_with_empty_when_none(c, t, x);
            }
            let out = seq![x] + t;
            assert(out[0] == x);
            assert(out.drop_first() =~= t);
            assert(spec_tied_with(c, out) =~= seq![x] + spec_tied_with(c, t));
            assert(seq![x] + Seq::<ModelFit>::empty() =~= Seq::<ModelFit>::empty().push(x));
        } else {
            let out = seq![x] + t;
            assert(out.drop_first() =~= t);
        }
    }
}

/// If no element of `s` ties with `x`, nothing ties with anything tied
/// to `x` either: the tied subsequence for such a witness is empty.
proof fn lemma_tied_with_empty_when_none(c: ModelFit, s: Seq<ModelFit>, x: ModelFit)
    requires
        spec_fits_tied(x, c),
        forall|j: int| 0 <= j < s.len() ==> !spec_fits_tied(#[trigger] s[j], x),
    ensures
        spec_tied_with(c, s) == Seq::<ModelFit>::empty(),
    decreases s.len(),
{
    if s.len() > 0 {
        assert(!spec_fits_tied(s[0], c)) by {
            if spec_fits_tied(s[0], c) {
                lemma_fits_le_trans(s[0], c, x);
                lemma_fits_le_trans(x, c, s[0]);
            }
        }
        let rest = s.drop_first();
        assert(forall|j: int| 0 <= j < rest.len() ==> rest[j] == s[j + 1]);
        lemma_tied_with_empty_when_none(c, rest, x);
    }
}

/// Ranking is stable: for every witness result `c`, the results tied with
/// `c` appear in the output in exactly their input order.
pub proof fn lemma_rank_stable(s: Seq<ModelFit>, c: ModelFit)
    ensures
        spec_tied_with(c, spec_rank(s)) == spec_tied_with(c, s),
    decreases s.len(),
{
    if s.len() > 0 {
        let dl = s.drop_last();
        lemma_rank_stable(dl, c);
        lemma_rank_sorted(dl);
        lemma_insert_ranked_tied(s.last(), spec_rank(dl), c);
        lemma_tied_with_push(c, dl, s.last());
        assert(s =~= dl.push(s.last()));
    }
}

/// A sequence already in ranking order ranks to itself.
proof fn lemma_rank_of_ranked(s: Seq<ModelFit>)
    requires
        spec_ranked(s),
    ensures
        spec_rank(s) == s,
    decreases s.len(),
{
    if s.len() > 0 {
        let dl = s.drop_last();
        assert(spec_ranked(dl)) by {
            assert(forall|j: int| 0 <= j < dl.len() ==> dl[j] == s[j]);
        }
        lemma_rank_of_ranked(dl);
        assert(forall|j: int| 0 <= j < dl.len() ==> spec_fits_le(#[trigger] dl[j], s.last()));
        lemma_insert_ranked_all_le(s.last(), dl);
        assert(dl.push(s.last()) =~= s);
    }
}

/// Inserting an element that sorts after everything appends it.
proof fn lemma_insert_ranked_all_le(x: ModelFit, t: Seq<ModelFit>)
    requires
        forall|j: int| 0 <= j < t.len() ==> spec_fits_le(#[trigger] t[j], x),
    ensures
        spec_insert_ranked(x, t) == t.push(x),
    decreases t.len(),
{
    if t.len() == 0 {
        assert(seq![x] =~= t.push(x));
    } else {
        let rest = t.drop_first();
        assert(forall|j: int| 0 <= j < rest.len() ==> rest[j] == t[j + 1]);
        lemma_insert_ranked_all_le(x, rest);
        assert(seq![t[0]] + rest.push(x) =~= t.push(x));
    }
}

/// Ranking is idempotent: ranking a ranked sequence changes nothing.
pub proof fn lemma_rank_idempotent(s: Seq<ModelFit>)
    ensures
        spec_rank(spec_rank(s)) == spec_rank(s),
{
    lemma_rank_sorted(s);
    lemma_rank_of_ranked(spec_rank(s));
}

proof fn lemma_rank_singleton(s: Seq<ModelFit>)
    requires
        s.len() == 1,
    ensures
        spec_rank(s) == s,
{
    assert(s.drop_last().len() == 0);
    assert(spec_rank(s.drop_last()) == s.drop_last());
    assert(spec_rank(s) == spec_insert_ranked(s.last(), spec_rank(s.drop_last())));
    assert(spec_insert_ranked(s.last(), s.drop_last()) == seq![s.last()]);
    assert(seq![s.last()] =~= s);
}

fn fit_level_rank_of(l: FitLevel) -> (r: u8)
    ensures
        r as int == fit_level_rank(l),
{
    match l {
        FitLevel::Perfect => 0,
        FitLevel::Good => 1,
        FitLevel::Marginal => 2,
        FitLevel::TooTight => 3,
    }
}

fn run_mode_rank_of(m: RunMode) -> (r: u8)
    ensures
        r as int == run_mode_rank(m),
{
    match m {
        RunMode::Gpu => 0,
        RunMode::MoeOffload => 1,
        RunMode::CpuOffload => 2,
        RunMode::CpuOnly => 3,
    }
}

/// Does `a` sort no later than `b`?
fn fits_le(a: &ModelFit, b: &ModelFit) -> (r: bool)
    ensures
        r == spec_fits_le(*a, *b),
{
    let fa = fit_level_rank_of(a.fit_level);
    let fb = fit_level_rank_of(b.fit_level);
    if fa != fb {
        return fa < fb;
    }
    let ma = run_mode_rank_of(a.run_mode);
    let mb = run_mode_rank_of(b.run_mode);
    if ma != mb {
        return ma < mb;
    }
    if a.memory_available_mib == 0 {
        b.memory_available_mib == 0
    } else if b.memory_available_mib == 0 {
        true
    } else {
        proof {
            lemma_u64_mul_fits_u128(a.memory_required_mib, b.memory_available_mib);
            lemma_u64_mul_fits_u128(b.memory_required_mib, a.memory_available_mib);
        }
        (a.memory_required_mib as u128) * (b.memory_available_mib as u128)
            <= (b.memory_required_mib as u128) * (a.memory_available_mib as u128)
    }
}

/// Rank fit results best first: by fit grade, then run-mode preference,
/// then utilization ascending, keeping input order among full ties. The
/// output is exactly [`spec_rank`] of the input — a stable sort.
pub fn rank_models_by_fit(models: Vec<ModelFit>) -> (ranked: Vec<ModelFit>)
    ensures
        ranked@ == spec_rank(models@),
        ranked@.to_multiset() == models@.to_multiset(),
        ranked@.len() == models@.len(),
        spec_ranked(ranked@),
{
    let ghost orig = models@;
    let mut v = models;
    let n = v.len();
    proof {
        lemma_rank_permutation(orig);
        lemma_rank_sorted(orig);
    }
    if n <= 1 {
        proof {
            if n == 1 {
                lemma_rank_singleton(orig);
            }
        }
        return v;
    }
    let mut i: usize = 1;
    proof {
        lemma_rank_singleton(orig.take(1));
        assert(v@ =~= spec_rank(orig.take(1)) + orig.skip(1));
    }
    while i < n
        invariant
            1 <= i <= n,
            n == orig.len(),
            v@.len() == n,
            v@ == spec_rank(orig.take(i as int)) + orig.skip(i as int),
        decreases n - i,
    {
        let ghost prefix = spec_rank(orig.take(i as int));
        proof {
            lemma_rank_len(orig.take(i as int));
        }
        let x = v.remove(i);
        assert(x == orig[i as int]);
        assert(v@ =~= prefix + orig.skip(i as int + 1));

        let mut pos: usize = 0;
        while pos < i && fits_le(&v[pos], &x)
            invariant
                0 <= pos <= i,
                i < n == orig.len(),
                v@.len() == n - 1,
                v@ == prefix + orig.skip(i as int + 1),
                prefix.len() == i,
                x == orig[i as int],
                forall|j: int| 0 <= j < pos ==> spec_fits_le(#[trigger] prefix[j], x),
            decreases i - pos,
        {
            assert(v@[pos as int] == prefix[pos as int]);
            pos = pos + 1;
        }
        proof {
            if pos < i {
                assert(v@[pos as int] == prefix[pos as int]);
            }
            lemma_insert_ranked_at(x, prefix, pos as int);
        }
        v.insert(pos, x);
        proof {
            assert(v@ =~= (prefix.take(pos as int) + seq![x] + prefix.skip(pos as int))
                + orig.skip(i as int + 1));
            assert(orig.take(i as int + 1).drop_last() =~= orig.take(i as int));
            assert(orig.take(i as int + 1).last() == orig[i as int]);
            assert(spec_rank(orig.take(i as int + 1)) == spec_insert_ranked(x, prefix));
        }
        i = i + 1;
    }
    proof {
        assert(orig.take(n as int) =~= orig);
        assert(v@ =~= spec_rank(orig));
    }
    v
}

/// The fit results graded `Perfect`, in order.
pub open spec fn spec_keep_perfect(s: Seq<ModelFit>) -> Seq<ModelFit>
    decreases s.len(),
{
    if s.len() == 0 {
        Seq::empty()
    } else if s.last().fit_level == FitLevel::Perfect {
        spec_keep_perfect(s.drop_last()).push(s.last())
    } else {
        spec_keep_perfect(s.drop_last())
    }
}

/// The first `limit` results, when a limit is given and cuts anything.
pub open spec fn spec_limit(s: Seq<ModelFit>, limit: Option<usize>) -> Seq<ModelFit> {
    match limit {
        Some(n) => if n < s.len() {
            s.take(n as int)
        } else {
            s
        },
        None => s,
    }
}

/// The whole report pipeline produced `out` from `models` on `system`:
/// each model was analyzed in order, the analyses were kept whole or
/// screened down to the `Perfect` ones, ranked, and cut to the limit.
pub open spec fn spec_report(
    models: Seq<LlmModel>,
    system: SystemSpecs,
    perfect_only: bool,
    limit: Option<usize>,
    out: Seq<ModelFit>,
) -> bool {
    exists|analyzed: Seq<ModelFit>|
        {
            &&& #[trigger] analyzed.len() == models.len()
            &&& forall|i: int|
                0 <= i < models.len() ==> spec_is_analysis(models[i], system, #[trigger] analyzed[i])
            &&& out == spec_limit(
                spec_rank(
                    if perfect_only {
                        spec_keep_perfect(analyzed)
                    } else {
                        analyzed
                    },
                ),
                limit,
            )
        }
}

/// Analyze every model against the machine, keep them all or only the
/// `Perfect` ones, rank, and cut to `limit` results. The whole pipeline is
/// pinned by [`spec_report`].
pub fn run_fit(
    models: &Vec<LlmModel>,
    system: &SystemSpecs,
    perfect_only: bool,
    limit: Option<usize>,
) -> (report: Vec<ModelFit>)
    ensures
        spec_report(models@, *system, perfect_only, limit, report@),
{
    let mut fits: Vec<ModelFit> = Vec::new();
    let mut idx: usize = 0;
    while idx < models.len()
        invariant
            idx <= models.len(),
            fits@.len() == idx,
            forall|i: int|
                0 <= i < idx ==> spec_is_analysis(models@[i], *system, #[trigger] fits@[i]),
        decreases models.len() - idx,
    {
        fits.push(ModelFit::analyze(&models[idx], system));
        idx = idx + 1;
    }
    let ghost analyzed = fits@;

    let selected: Vec<ModelFit> = if perfect_only {
        let mut rest = fits;
        let ghost all = rest@;
        let mut kept: Vec<ModelFit> = Vec::new();
        let ghost consumed: int = 0;
        while rest.len() > 0
            invariant
                0 <= consumed <= all.len(),
                rest@ == all.skip(consumed),
                kept@ == spec_keep_perfect(all.take(consumed)),
            decreases rest.len(),
        {
            let f = rest.remove(0);
            assert(f == all[consumed]);
            assert(rest@ =~= all.skip(consumed + 1));
            let ghost prev = kept@;
            if f.fit_level == FitLevel::Perfect {
                kept.push(f);
            }
            proof {
                assert(all.take(consumed + 1).drop_last() =~= all.take(consumed));
                assert(all.take(consumed + 1).last() == all[consumed]);
                consumed = consumed + 1;
            }
        }
        proof {
            assert(all.take(consumed) =~= all);
        }
        kept
    } else {
        fits
    };

    let mut report = rank_models_by_fit(selected);
    if let Some(n) = limit {
        report.truncate(n);
    }
    proof {
        let picked = if perfect_only {
            spec_keep_perfect(analyzed)
        } else {
            analyzed
        };
        assert(report@ == spec_limit(spec_rank(picked), limit));
        assert(spec_report(models@, *system, perfect_only, limit, report@)) by {
            assert(analyzed.len() == models@.len());
        }
    }
    report
}

} // verus!
