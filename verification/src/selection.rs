//! Choice of tabulated orbitals for a requested (n, l), and apportioning
//! of a total sample count across weighted orbitals.

use vstd::prelude::*;

verus! {

/// What `select_orbital` promises of a chosen index `i` in a list of
/// (n, l) orbital labels: an exact match comes first; otherwise, when no
/// exact match exists anywhere, the first label with the requested l;
/// otherwise the first label of the list.
pub open spec fn is_orbital_choice(
    labels: Seq<(u32, u32)>,
    n: u32,
    l: u32,
    i: int,
    exact: bool,
) -> bool {
    &&& 0 <= i < labels.len()
    &&& exact ==> labels[i] == (n, l) && (forall|j: int| 0 <= j < i ==> labels[j] != (n, l))
    &&& !exact ==> (forall|j: int| 0 <= j < labels.len() ==> labels[j] != (n, l))
    &&& (!exact && labels[i].1 == l) ==> (forall|j: int| 0 <= j < i ==> labels[j].1 != l)
    &&& (!exact && labels[i].1 != l) ==> i == 0 && (forall|j: int|
        0 <= j < labels.len() ==> labels[j].1 != l)
}

/// Pick the tabulated orbital closest to the requested (n, l): the
/// first exact match, else the first orbital with the same l, else the
/// first orbital. The flag reports whether the match was exact.
pub fn select_orbital(labels: &Vec<(u32, u32)>, n: u32, l: u32) -> (r: Option<(usize, bool)>)
    ensures
        r is None <==> labels@.len() == 0,
        r matches Some((i, exact)) ==> is_orbital_choice(labels@, n, l, i as int, exact),
{
    let mut same_l: Option<usize> = None;
    let mut idx: usize = 0;
    while idx < labels.len()
        invariant
            idx <= labels@.len(),
            forall|j: int| 0 <= j < idx ==> labels@[j] != (n, l),
            match same_l {
                Some(k) => k < idx && labels@[k as int].1 == l && (forall|j: int|
                    0 <= j < k ==> labels@[j].1 != l),
                None => forall|j: int| 0 <= j < idx ==> labels@[j].1 != l,
            },
        decreases labels@.len() - idx,
    {
        let (cn, cl) = labels[idx];
        if cl == l && cn == n {
            return Some((idx, true));
        }
        if cl == l && same_l.is_none() {
            same_l = Some(idx);
        }
        idx = idx + 1;
    }
    match same_l {
        Some(k) => Some((k, false)),
        None => if labels.len() > 0 {
            Some((0, false))
        } else {
            None
        },
    }
}

/// Pick two distinct tabulated orbitals for a superposition: the first
/// as `select_orbital` does; the second likewise unless that choice
/// coincides with the first, in which case the first differing orbital
/// of the list stands in (reported as inexact). None when every orbital
/// in the list carries the same label (or the list is empty).
pub fn select_orbital_pair(labels: &Vec<(u32, u32)>, n1: u32, l1: u32, n2: u32, l2: u32) -> (r:
    Option<(usize, bool, usize, bool)>)
    ensures
        r is None <==> (labels@.len() == 0 || forall|j: int|
            0 <= j < labels@.len() ==> #[trigger] labels@[j] == labels@[0]),
        r matches Some((ia, ea, ib, eb)) ==> {
            &&& is_orbital_choice(labels@, n1, l1, ia as int, ea)
            &&& ib < labels@.len()
            &&& labels@[ib as int] != labels@[ia as int]
            &&& (is_orbital_choice(labels@, n2, l2, ib as int, eb) || (!eb && forall|j: int|
                0 <= j < ib ==> labels@[j] == labels@[ia as int]))
        },
{
    let (ia, ea) = match select_orbital(labels, n1, l1) {
        Some(c) => c,
        None => {
            return None;
        },
    };
    let (a_n, a_l) = labels[ia];
    if let Some((ib, eb)) = select_orbital(labels, n2, l2) {
        let (b_n, b_l) = labels[ib];
        if b_n != a_n || b_l != a_l {
            return Some((ia, ea, ib, eb));
        }
    }
    let mut idx: usize = 0;
    while idx < labels.len()
        invariant
            idx <= labels@.len(),
            ia < labels@.len(),
            labels@[ia as int] == (a_n, a_l),
            is_orbital_choice(labels@, n1, l1, ia as int, ea),
            forall|j: int| 0 <= j < idx ==> labels@[j] == labels@[ia as int],
        decreases labels@.len() - idx,
    {
        let (cn, cl) = labels[idx];
        if cn != a_n || cl != a_l {
            return Some((ia, ea, idx, false));
        }
        idx = idx + 1;
    }
    proof {
        assert(labels@[0] == labels@[ia as int]);
    }
    None
}

/// Cap on proposal attempts for a bounded rejection-sampling run:
/// `num_samples * per_sample` saturated at usize::MAX and raised to a
/// floor, so that a tight acceptance envelope can exhaust the budget
/// but never stall a call forever.
pub fn attempt_budget(num_samples: usize, per_sample: usize, floor: usize) -> (r: usize)
    ensures
        r as int == if num_samples * per_sample > usize::MAX {
            usize::MAX as int
        } else if num_samples * per_sample < floor {
            floor as int
        } else {
            num_samples * per_sample
        },
{
    match num_samples.checked_mul(per_sample) {
        Some(v) => if v < floor {
            floor
        } else {
            v
        },
        None => usize::MAX,
    }
}

/// Sum of a sequence of sample counts.
pub open spec fn sum_counts(s: Seq<usize>) -> int
    decreases s.len(),
{
    if s.len() == 0 {
        0
    } else {
        sum_counts(s.drop_last()) + s.last()
    }
}

/// Split a requested total across orbitals: each orbital gets its
/// proposed share capped by what is still unassigned, and the last
/// orbital absorbs the remainder, so the counts always add up to the
/// request.
pub fn partition_sample_counts(proposed: &Vec<usize>, num_samples: usize) -> (counts: Vec<usize>)
    ensures
        counts@.len() == proposed@.len(),
        proposed@.len() > 0 ==> sum_counts(counts@) == num_samples,
        sum_counts(counts@) <= num_samples,
        forall|j: int| 0 <= j < proposed@.len() - 1 ==> counts@[j] <= proposed@[j],
{
    let mut counts: Vec<usize> = Vec::new();
    let mut remaining: usize = num_samples;
    let mut idx: usize = 0;
    while idx < proposed.len()
        invariant
            idx == counts@.len(),
            idx <= proposed@.len(),
            sum_counts(counts@) + remaining == num_samples,
            (idx == proposed@.len() && idx > 0) ==> remaining == 0,
            forall|j: int| 0 <= j < idx && j < proposed@.len() - 1 ==> counts@[j] <= proposed@[j],
        decreases proposed@.len() - idx,
    {
        let mut c = proposed[idx];
        if idx == proposed.len() - 1 {
            c = remaining;
        }
        if c > remaining {
            c = remaining;
        }
        remaining = remaining - c;
        let ghost prev = counts@;
        counts.push(c);
        proof {
            assert(counts@.drop_last() =~= prev);
        }
        idx = idx + 1;
    }
    counts
}

} // verus!
