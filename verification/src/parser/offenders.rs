use vstd::prelude::*;
use vstd::seq_lib::{lemma_multiset_commutative, to_multiset_build, to_multiset_insert};
use vstd::utf8::encode_utf8;
use crate::text::{
    lemma_bytes_order_asymmetric, lemma_bytes_order_transitive, lemma_text_order_irreflexive,
    lemma_text_order_chain, lemma_text_order_total, precedes, text_precedes,
};
use crate::types::{FileOffender, FileOffenderModel};

verus! {

/// The order of offenders: the larger one first, and of two of the same
/// size the one whose path stands first.
pub open spec fn offender_before(a: FileOffenderModel, b: FileOffenderModel) -> bool {
    a.bytes > b.bytes || (a.bytes == b.bytes && text_precedes(a.path, b.path))
}

/// No offender stands behind one that it should stand before.
pub open spec fn offenders_sorted(s: Seq<FileOffenderModel>) -> bool {
    forall|i: int, j: int| 0 <= i < j < s.len() ==> !offender_before(s[j], s[i])
}

/// The offenders of a list in their order. The order leaves nothing open,
/// so there is one such arrangement and no other.
pub open spec fn sorted_offenders(s: Seq<FileOffenderModel>) -> Seq<FileOffenderModel> {
    choose|t: Seq<FileOffenderModel>| offenders_sorted(t) && t.to_multiset() == s.to_multiset()
}

/// No offender stands before itself.
pub proof fn lemma_offender_order_irreflexive(a: FileOffenderModel)
    ensures
        !offender_before(a, a),
{
    lemma_text_order_irreflexive(a.path);
}

/// Of two offenders at most one stands before the other.
pub proof fn lemma_offender_order_asymmetric(a: FileOffenderModel, b: FileOffenderModel)
    requires
        offender_before(a, b),
    ensures
        !offender_before(b, a),
{
    if a.bytes == b.bytes {
        lemma_bytes_order_asymmetric(encode_utf8(a.path), encode_utf8(b.path));
    }
}

/// Where `a` may stand before `b` and `b` before `c`, `a` may stand before `c`.
pub proof fn lemma_offender_order_transitive(
    a: FileOffenderModel,
    b: FileOffenderModel,
    c: FileOffenderModel,
)
    requires
        !offender_before(b, a),
        !offender_before(c, b),
    ensures
        !offender_before(c, a),
{
    if a.bytes == b.bytes && b.bytes == c.bytes {
        lemma_bytes_order_transitive(
            encode_utf8(a.path),
            encode_utf8(b.path),
            encode_utf8(c.path),
        );
    }
}

fn stands_before(a: &FileOffender, b: &FileOffender) -> (r: bool)
    ensures
        r == offender_before(a@, b@),
{
    a.bytes > b.bytes || (a.bytes == b.bytes && precedes(a.path.as_str(), b.path.as_str()))
}

fn merge_sorted(a: &Vec<FileOffender>, b: &Vec<FileOffender>) -> (r: Vec<FileOffender>)
    requires
        offenders_sorted(a.deep_view()),
        offenders_sorted(b.deep_view()),
    ensures
        offenders_sorted(r.deep_view()),
        r.deep_view().to_multiset() == a.deep_view().to_multiset().add(b.deep_view().to_multiset()),
{
    let ghost left = a.deep_view();
    let ghost right = b.deep_view();
    let mut r: Vec<FileOffender> = Vec::new();
    let mut i: usize = 0;
    let mut j: usize = 0;
    proof {
        assert(left.take(0) =~= Seq::<FileOffenderModel>::empty());
        assert(right.take(0) =~= Seq::<FileOffenderModel>::empty());
        assert(r.deep_view() =~= Seq::<FileOffenderModel>::empty());
        lemma_multiset_commutative(left.take(0), right.take(0));
        assert(left.take(0) + right.take(0) =~= Seq::<FileOffenderModel>::empty());
    }
    while i < a.len() || j < b.len()
        invariant
            i <= a.len(),
            j <= b.len(),
            left == a.deep_view(),
            right == b.deep_view(),
            offenders_sorted(left),
            offenders_sorted(right),
            offenders_sorted(r.deep_view()),
            r.deep_view().to_multiset() == left.take(i as int).to_multiset().add(
                right.take(j as int).to_multiset(),
            ),
            forall|k: int, m: int|
                0 <= k < r.len() && i <= m < a.len() ==> !offender_before(
                    #[trigger] left[m],
                    #[trigger] r.deep_view()[k],
                ),
            forall|k: int, m: int|
                0 <= k < r.len() && j <= m < b.len() ==> !offender_before(
                    #[trigger] right[m],
                    #[trigger] r.deep_view()[k],
                ),
        decreases (a.len() - i) + (b.len() - j),
    {
        let ghost before = r.deep_view();
        let from_left = if i == a.len() {
            false
        } else if j == b.len() {
            true
        } else {
            !stands_before(&b[j], &a[i])
        };
        if from_left {
            let x = a[i].duplicate();
            r.push(x);
            proof {
                let picked = left[i as int];
                assert(r.deep_view() =~= before.push(picked));
                to_multiset_build(before, picked);
                assert(left.take(i + 1) =~= left.take(i as int).push(picked));
                to_multiset_build(left.take(i as int), picked);
                assert(r.deep_view().to_multiset() =~= left.take(i + 1).to_multiset().add(
                    right.take(j as int).to_multiset(),
                ));
                assert forall|m: int| j <= m < b.len() implies !offender_before(
                    right[m],
                    picked,
                ) by {
                    if m > j {
                        lemma_offender_order_transitive(picked, right[j as int], right[m]);
                    }
                }
            }
            i += 1;
        } else {
            let x = b[j].duplicate();
            r.push(x);
            proof {
                let picked = right[j as int];
                assert(r.deep_view() =~= before.push(picked));
                to_multiset_build(before, picked);
                assert(right.take(j + 1) =~= right.take(j as int).push(picked));
                to_multiset_build(right.take(j as int), picked);
                assert(r.deep_view().to_multiset() =~= left.take(i as int).to_multiset().add(
                    right.take(j + 1).to_multiset(),
                ));
                assert forall|m: int| i <= m < a.len() implies !offender_before(
                    left[m],
                    picked,
                ) by {
                    lemma_offender_order_asymmetric(picked, left[i as int]);
                    if m > i {
                        lemma_offender_order_transitive(picked, left[i as int], left[m]);
                    }
                }
            }
            j += 1;
        }
    }
    proof {
        assert(left.take(i as int) =~= left);
        assert(right.take(j as int) =~= right);
    }
    r
}

fn sort_range(v: &Vec<FileOffender>, lo: usize, hi: usize) -> (r: Vec<FileOffender>)
    requires
        lo <= hi <= v.len(),
    ensures
        offenders_sorted(r.deep_view()),
        r.deep_view().to_multiset() == v.deep_view().subrange(lo as int, hi as int).to_multiset(),
    decreases hi - lo,
{
    let ghost all = v.deep_view();
    if hi - lo <= 1 {
        let mut r: Vec<FileOffender> = Vec::new();
        if hi - lo == 1 {
            r.push(v[lo].duplicate());
        }
        assert(r.deep_view() =~= all.subrange(lo as int, hi as int));
        r
    } else {
        let mid: usize = lo + (hi - lo) / 2;
        let left = sort_range(v, lo, mid);
        let right = sort_range(v, mid, hi);
        proof {
            assert(all.subrange(lo as int, hi as int) =~= all.subrange(lo as int, mid as int)
                + all.subrange(mid as int, hi as int));
            lemma_multiset_commutative(
                all.subrange(lo as int, mid as int),
                all.subrange(mid as int, hi as int),
            );
        }
        merge_sorted(&left, &right)
    }
}

/// The order of offenders passes along a chain.
pub proof fn lemma_offender_order_chain(
    a: FileOffenderModel,
    b: FileOffenderModel,
    c: FileOffenderModel,
)
    requires
        offender_before(a, b),
        offender_before(b, c),
    ensures
        offender_before(a, c),
{
    if a.bytes == b.bytes && b.bytes == c.bytes {
        lemma_text_order_chain(a.path, b.path, c.path);
    }
}

/// Of two different offenders one stands before the other: the order
/// leaves no two of them level.
pub proof fn lemma_offender_order_total(a: FileOffenderModel, b: FileOffenderModel)
    requires
        a != b,
    ensures
        offender_before(a, b) || offender_before(b, a),
{
    if a.bytes == b.bytes {
        lemma_text_order_total(a.path, b.path);
    }
}

/// In a sorted list the sizes never rise, and among offenders of one size
/// the paths never fall.
pub proof fn lemma_sorted_offenders_descend(s: Seq<FileOffenderModel>, i: int, j: int)
    requires
        offenders_sorted(s),
        0 <= i < j < s.len(),
    ensures
        s[i].bytes >= s[j].bytes,
        s[i].bytes == s[j].bytes ==> !text_precedes(s[j].path, s[i].path),
{
    assert(!offender_before(s[j], s[i]));
}

/// Two sorted lists that hold the same offenders are the same list: the
/// order leaves nothing open.
pub proof fn lemma_sorted_offenders_unique(s: Seq<FileOffenderModel>, t: Seq<FileOffenderModel>)
    requires
        offenders_sorted(s),
        offenders_sorted(t),
        s.to_multiset() == t.to_multiset(),
    ensures
        s == t,
    decreases s.len(),
{
    broadcast use vstd::seq_lib::group_to_multiset_ensures;

    assert(s.len() == t.len()) by {
        s.to_multiset_ensures();
        t.to_multiset_ensures();
    }
    if s.len() == 0 {
        assert(s =~= t);
    } else {
        let x = s[0];
        let y = t[0];
        s.to_multiset_ensures();
        t.to_multiset_ensures();
        assert(s.contains(x));
        assert(t.contains(y));
        assert(t.to_multiset().count(x) > 0);
        assert(t.contains(x));
        assert(s.to_multiset().count(y) > 0);
        assert(s.contains(y));
        let jx = choose|k: int| 0 <= k < t.len() && t[k] == x;
        let jy = choose|k: int| 0 <= k < s.len() && s[k] == y;
        if x != y {
            lemma_offender_order_total(x, y);
            if offender_before(x, y) {
                assert(jx > 0);
                assert(!offender_before(t[jx], t[0]));
            } else {
                assert(jy > 0);
                assert(!offender_before(s[jy], s[0]));
            }
        }
        assert(x == y);
        assert(s.remove(0) =~= s.drop_first());
        assert(t.remove(0) =~= t.drop_first());
        assert(s.drop_first().to_multiset() == t.drop_first().to_multiset());
        assert forall|a: int, b: int| 0 <= a < b < s.drop_first().len() implies !offender_before(
            s.drop_first()[b],
            s.drop_first()[a],
        ) by {
            assert(s.drop_first()[a] == s[a + 1] && s.drop_first()[b] == s[b + 1]);
        }
        assert forall|a: int, b: int| 0 <= a < b < t.drop_first().len() implies !offender_before(
            t.drop_first()[b],
            t.drop_first()[a],
        ) by {
            assert(t.drop_first()[a] == t[a + 1] && t.drop_first()[b] == t[b + 1]);
        }
        lemma_sorted_offenders_unique(s.drop_first(), t.drop_first());
        assert(s =~= seq![x] + s.drop_first());
        assert(t =~= seq![y] + t.drop_first());
    }
}


/// How many offenders at the head of a list may stand before `x`.
spec fn offender_rank(t: Seq<FileOffenderModel>, x: FileOffenderModel) -> int
    decreases t.len(),
{
    if t.len() > 0 && !offender_before(x, t[0]) {
        1 + offender_rank(t.drop_first(), x)
    } else {
        0
    }
}

proof fn lemma_offender_rank(t: Seq<FileOffenderModel>, x: FileOffenderModel)
    ensures
        0 <= offender_rank(t, x) <= t.len(),
        forall|i: int| 0 <= i < offender_rank(t, x) ==> !offender_before(x, #[trigger] t[i]),
        offender_rank(t, x) < t.len() ==> offender_before(x, t[offender_rank(t, x)]),
    decreases t.len(),
{
    if t.len() > 0 && !offender_before(x, t[0]) {
        let rest = t.drop_first();
        lemma_offender_rank(rest, x);
        assert forall|i: int| 0 <= i < offender_rank(t, x) implies !offender_before(
            x,
            #[trigger] t[i],
        ) by {
            if i > 0 {
                assert(t[i] == rest[i - 1]);
            }
        }
        if offender_rank(t, x) < t.len() {
            assert(t[offender_rank(t, x)] == rest[offender_rank(rest, x)]);
        }
    }
}

/// Every list of offenders has a sorted arrangement: `sorted_offenders`
/// is sorted and holds what the list holds.
pub proof fn lemma_sorted_offenders(s: Seq<FileOffenderModel>)
    ensures
        offenders_sorted(sorted_offenders(s)),
        sorted_offenders(s).to_multiset() == s.to_multiset(),
    decreases s.len(),
{
    if s.len() == 0 {
        assert(offenders_sorted(s) && s.to_multiset() == s.to_multiset());
    } else {
        let rest = s.drop_last();
        let x = s.last();
        lemma_sorted_offenders(rest);
        let t0 = sorted_offenders(rest);
        let k = offender_rank(t0, x);
        lemma_offender_rank(t0, x);
        let t = t0.insert(k, x);
        assert forall|i: int, j: int| 0 <= i < j < t.len() implies !offender_before(t[j], t[i]) by {
            if j < k {
                assert(t[i] == t0[i] && t[j] == t0[j]);
            } else if j == k {
                assert(t[i] == t0[i]);
            } else if i == k {
                assert(t[j] == t0[j - 1]);
                lemma_offender_order_asymmetric(x, t0[k]);
                if j - 1 > k {
                    assert(!offender_before(t0[j - 1], t0[k]));
                    lemma_offender_order_transitive(x, t0[k], t0[j - 1]);
                }
            } else if i < k {
                assert(t[i] == t0[i] && t[j] == t0[j - 1]);
            } else {
                assert(t[i] == t0[i - 1] && t[j] == t0[j - 1]);
            }
        }
        assert(s =~= rest.push(x));
        to_multiset_build(rest, x);
        to_multiset_insert(t0, k, x);
        assert(offenders_sorted(t) && t.to_multiset() == s.to_multiset());
    }
}

/// The offenders in their order: by size, the largest first, and by path
/// among those of one size.
pub fn sort_offenders(v: &Vec<FileOffender>) -> (r: Vec<FileOffender>)
    ensures
        r.deep_view() == sorted_offenders(v.deep_view()),
        offenders_sorted(r.deep_view()),
        r.deep_view().to_multiset() == v.deep_view().to_multiset(),
{
    let r = sort_range(v, 0, v.len());
    proof {
        assert(v.deep_view().subrange(0, v.len() as int) =~= v.deep_view());
        lemma_sorted_offenders_unique(r.deep_view(), sorted_offenders(v.deep_view()));
    }
    r
}

} // verus!
