use vstd::prelude::*;
use vstd::seq_lib::{lemma_multiset_commutative, to_multiset_build, to_multiset_contains, to_multiset_len};
use crate::config::{F32_ONE_BITS};

verus! {

broadcast use vstd::seq_lib::group_to_multiset_ensures;

/// Mask that clears the sign bit of an `f32` bit pattern, giving the pattern of its absolute value.
pub const ABS_MASK: u32 = 0x7fff_ffff;

/// Bit pattern of `2^-26`. In `f32` arithmetic `(z - 0.5).abs() < 0.5` holds exactly
/// for the `z` whose pattern lies strictly between this one and that of `1.0`: at and
/// below `2^-26` the difference `z - 0.5` rounds to `-0.5`.
pub const DEPTH_LOWER_BITS: u32 = 0x3280_0000;

/// Clip-space position of a splat center after perspective division, as `f32` bit patterns.
#[derive(Clone, Copy, Debug, PartialEq, Eq, Structural)]
pub struct ClipPosition {
    pub x: u32,
    pub y: u32,
    pub z: u32,
}

/// A depth key (bit pattern of the clip-space depth) and the index of its splat.
pub type SortEntry = (u32, u32);

/// `|c| < tolerance` for a coordinate `c` and a positive tolerance, both given as bit
/// patterns: among non-negative patterns the integer order is the order of the values,
/// and a NaN compares above every finite tolerance.
pub open spec fn within_tolerance(c: u32, tolerance: u32) -> bool {
    (c & ABS_MASK) < tolerance
}

/// `|z - 0.5| < 0.5` evaluated in `f32` arithmetic, on the bit pattern of `z`.
pub open spec fn depth_in_range(z: u32) -> bool {
    DEPTH_LOWER_BITS < z < F32_ONE_BITS
}

/// Whether a splat at clip position `p` survives frustum culling.
pub open spec fn is_retained(p: ClipPosition, tolerance: u32) -> bool {
    within_tolerance(p.x, tolerance) && within_tolerance(p.y, tolerance) && depth_in_range(p.z)
}

/// `e` tags a retained splat of `clips` with its depth key.
pub open spec fn is_retained_entry(clips: Seq<ClipPosition>, tolerance: u32, e: SortEntry) -> bool {
    &&& (e.1 as int) < clips.len()
    &&& is_retained(clips[e.1 as int], tolerance)
    &&& e.0 == clips[e.1 as int].z
}

/// Order of sort entries: by depth key, then by splat index.
pub open spec fn entry_lt(a: SortEntry, b: SortEntry) -> bool {
    a.0 < b.0 || (a.0 == b.0 && a.1 < b.1)
}

/// Every entry comes strictly before the entries after it.
pub open spec fn strictly_sorted(s: Seq<SortEntry>) -> bool {
    forall|i: int, j: int| 0 <= i < j < s.len() ==> entry_lt(#[trigger] s[i], #[trigger] s[j])
}

/// Whether a splat at clip position `p` survives frustum culling with `tolerance`.
pub fn retained(p: &ClipPosition, tolerance: u32) -> (r: bool)
    ensures
        r == is_retained(*p, tolerance),
{
    (p.x & ABS_MASK) < tolerance && (p.y & ABS_MASK) < tolerance && DEPTH_LOWER_BITS < p.z
        && p.z < F32_ONE_BITS
}

/// Tags each retained splat with its depth key, in splat order.
pub fn cull_entries(clips: &Vec<ClipPosition>, tolerance: u32) -> (r: Vec<SortEntry>)
    requires
        clips.len() <= u32::MAX,
    ensures
        forall|e: SortEntry| r@.contains(e) <==> is_retained_entry(clips@, tolerance, e),
        forall|i: int, j: int| 0 <= i < j < r.len() ==> r@[i].1 < r@[j].1,
        r.len() <= clips.len(),
{
    let mut entries: Vec<SortEntry> = Vec::new();
    let mut i: usize = 0;
    while i < clips.len()
        invariant
            i <= clips.len() <= u32::MAX,
            entries.len() <= i,
            forall|k: int| 0 <= k < entries.len() ==> (#[trigger] entries@[k]).1 < i
                && is_retained_entry(clips@, tolerance, entries@[k]),
            forall|k1: int, k2: int| 0 <= k1 < k2 < entries.len()
                ==> (#[trigger] entries@[k1]).1 < (#[trigger] entries@[k2]).1,
            forall|p: int| 0 <= p < i && is_retained(#[trigger] clips@[p], tolerance)
                ==> entries@.contains((clips@[p].z, p as u32)),
        decreases clips.len() - i,
    {
        let p = clips[i];
        if retained(&p, tolerance) {
            let ghost before = entries@;
            entries.push((p.z, i as u32));
            proof {
                assert forall|q: int| 0 <= q < i + 1 && is_retained(#[trigger] clips@[q], tolerance)
                    implies entries@.contains((clips@[q].z, q as u32)) by {
                    if q < i {
                        let k = choose|k: int| 0 <= k < before.len() && before[k] == (clips@[q].z, q as u32);
                        assert(entries@[k] == before[k]);
                    } else {
                        assert(entries@[before.len() as int] == (clips@[q].z, q as u32));
                    }
                }
            }
        }
        i = i + 1;
    }
    proof {
        assert forall|e: SortEntry| entries@.contains(e) implies is_retained_entry(clips@, tolerance, e) by {
            let k = choose|k: int| 0 <= k < entries.len() && entries@[k] == e;
            assert(is_retained_entry(clips@, tolerance, entries@[k]));
        }
        assert forall|e: SortEntry| is_retained_entry(clips@, tolerance, e) implies entries@.contains(e) by {
            let p = e.1 as int;
            assert(is_retained(clips@[p], tolerance));
            assert((clips@[p].z, p as u32) == e);
        }
    }
    entries
}

fn entry_less(a: SortEntry, b: SortEntry) -> (r: bool)
    ensures
        r == entry_lt(a, b),
{
    a.0 < b.0 || (a.0 == b.0 && a.1 < b.1)
}

/// Merges two strictly sorted runs that share no entry.
fn merge(a: &Vec<SortEntry>, b: &Vec<SortEntry>) -> (r: Vec<SortEntry>)
    requires
        strictly_sorted(a@),
        strictly_sorted(b@),
        forall|p: int, q: int| 0 <= p < a.len() && 0 <= q < b.len() ==> a@[p] != b@[q],
    ensures
        strictly_sorted(r@),
        r@.to_multiset() == a@.to_multiset().add(b@.to_multiset()),
{
    let mut r: Vec<SortEntry> = Vec::new();
    let mut i: usize = 0;
    let mut j: usize = 0;
    proof {
        assert(a@.subrange(0, 0) =~= Seq::<SortEntry>::empty());
        assert(b@.subrange(0, 0) =~= Seq::<SortEntry>::empty());
        assert(r@ =~= Seq::<SortEntry>::empty());
        assert(r@.to_multiset() =~= a@.subrange(0, 0).to_multiset().add(b@.subrange(0, 0).to_multiset()));
    }
    while i < a.len() || j < b.len()
        invariant
            i <= a.len(),
            j <= b.len(),
            r.len() == i + j,
            strictly_sorted(a@),
            strictly_sorted(b@),
            forall|p: int, q: int| 0 <= p < a.len() && 0 <= q < b.len() ==> a@[p] != b@[q],
            strictly_sorted(r@),
            r@.to_multiset() == a@.subrange(0, i as int).to_multiset().add(
                b@.subrange(0, j as int).to_multiset(),
            ),
            r.len() > 0 && i < a.len() ==> entry_lt(r@.last(), a@[i as int]),
            r.len() > 0 && j < b.len() ==> entry_lt(r@.last(), b@[j as int]),
        decreases a.len() + b.len() - i - j,
    {
        let ghost before = r@;
        let ghost sa = a@.subrange(0, i as int);
        let ghost sb = b@.subrange(0, j as int);
        if j >= b.len() || (i < a.len() && entry_less(a[i], b[j])) {
            let x = a[i];
            r.push(x);
            proof {
                assert(a@.subrange(0, i + 1) =~= sa.push(x));
                to_multiset_build(sa, x);
                to_multiset_build(before, x);
                assert(sa.push(x).to_multiset().add(sb.to_multiset()) =~= sa.to_multiset().add(
                    sb.to_multiset(),
                ).insert(x));
            }
            i = i + 1;
        } else {
            let x = b[j];
            r.push(x);
            proof {
                if i < a.len() {
                    assert(a@[i as int] != b@[j as int]);
                }
                assert(b@.subrange(0, j + 1) =~= sb.push(x));
                to_multiset_build(sb, x);
                to_multiset_build(before, x);
                assert(sa.to_multiset().add(sb.push(x).to_multiset()) =~= sa.to_multiset().add(
                    sb.to_multiset(),
                ).insert(x));
            }
            j = j + 1;
        }
        proof {
            assert forall|p: int, q: int| 0 <= p < q < r.len() implies entry_lt(
                #[trigger] r@[p],
                #[trigger] r@[q],
            ) by {
                if q < before.len() {
                    assert(r@[p] == before[p] && r@[q] == before[q]);
                } else if p + 1 < before.len() {
                    assert(entry_lt(before[p], before.last()));
                }
            }
        }
    }
    proof {
        assert(a@.subrange(0, a.len() as int) =~= a@);
        assert(b@.subrange(0, b.len() as int) =~= b@);
    }
    r
}

/// Sorts entries that are pairwise distinct into strictly ascending order.
pub fn sort_entries(v: Vec<SortEntry>) -> (r: Vec<SortEntry>)
    requires
        v@.no_duplicates(),
    ensures
        strictly_sorted(r@),
        r@.to_multiset() == v@.to_multiset(),
    decreases v.len(),
{
    let n = v.len();
    if n <= 1 {
        return v;
    }
    let mid = n / 2;
    let mut left: Vec<SortEntry> = Vec::new();
    let mut right: Vec<SortEntry> = Vec::new();
    let mut i: usize = 0;
    while i < n
        invariant
            n == v.len(),
            mid < n,
            i <= n,
            i <= mid ==> left@ == v@.subrange(0, i as int) && right@.len() == 0,
            i > mid ==> left@ == v@.subrange(0, mid as int) && right@ == v@.subrange(
                mid as int,
                i as int,
            ),
        decreases n - i,
    {
        if i < mid {
            left.push(v[i]);
            assert(left@ =~= v@.subrange(0, i + 1));
        } else {
            right.push(v[i]);
            assert(right@ =~= v@.subrange(mid as int, i + 1));
        }
        i = i + 1;
    }
    assert(v@ =~= left@ + right@);
    assert(left@.no_duplicates());
    assert(right@.no_duplicates()) by {
        assert forall|p: int, q: int| 0 <= p < right.len() && 0 <= q < right.len() && p != q
            implies right@[p] != right@[q] by {
            assert(right@[p] == v@[mid + p] && right@[q] == v@[mid + q]);
        }
    }
    let ghost lv = left@;
    let ghost rv = right@;
    let a = sort_entries(left);
    let b = sort_entries(right);
    proof {
        assert forall|p: int, q: int| 0 <= p < a.len() && 0 <= q < b.len() implies a@[p]
            != b@[q] by {
            assert(a@.contains(a@[p]));
            assert(b@.contains(b@[q]));
            to_multiset_contains(a@, a@[p]);
            to_multiset_contains(lv, a@[p]);
            to_multiset_contains(b@, b@[q]);
            to_multiset_contains(rv, b@[q]);
            let k1 = choose|k: int| 0 <= k < lv.len() && lv[k] == a@[p];
            let k2 = choose|k: int| 0 <= k < rv.len() && rv[k] == b@[q];
            assert(lv[k1] == v@[k1]);
            assert(rv[k2] == v@[mid + k2]);
        }
        lemma_multiset_commutative(lv, rv);
    }
    merge(&a, &b)
}

/// The CPU depth sort: culls the splats at `clips` against the frustum and orders the
/// survivors by depth key, ties by splat index.
pub fn cpu_depth_sort(clips: &Vec<ClipPosition>, tolerance: u32) -> (r: Vec<SortEntry>)
    requires
        clips.len() <= u32::MAX,
    ensures
        forall|e: SortEntry| r@.contains(e) <==> is_retained_entry(clips@, tolerance, e),
        strictly_sorted(r@),
        r.len() <= clips.len(),
{
    let entries = cull_entries(clips, tolerance);
    let ghost ev = entries@;
    proof {
        assert forall|p: int, q: int| 0 <= p < ev.len() && 0 <= q < ev.len() && p != q
            implies ev[p] != ev[q] by {
            if p < q {
                assert(ev[p].1 < ev[q].1);
            } else {
                assert(ev[q].1 < ev[p].1);
            }
        }
    }
    let r = sort_entries(entries);
    proof {
        assert forall|e: SortEntry| r@.contains(e) <==> is_retained_entry(clips@, tolerance, e) by {
            to_multiset_contains(r@, e);
            to_multiset_contains(ev, e);
            assert(ev.contains(e) <==> is_retained_entry(clips@, tolerance, e));
        }
        to_multiset_len(r@);
        to_multiset_len(ev);
    }
    r
}

} // verus!
