//! Keyed totals kept as a list of `(key, value)` pairs in order of first
//! appearance; `keys_distinct` states that each key occurs at most once, and
//! the functions that change a list keep it.
use vstd::prelude::*;

verus! {

/// A list of keyed values as plain sequences.
pub open spec fn entries_view(v: Seq<(String, i128)>) -> Seq<(Seq<char>, int)> {
    Seq::new(v.len(), |i: int| (v[i].0@, v[i].1 as int))
}

/// Position of key `k` in `l`, if it is there.
pub open spec fn key_index(l: Seq<(Seq<char>, int)>, k: Seq<char>) -> Option<int>
    decreases l.len(),
{
    if l.len() == 0 {
        None
    } else if l[0].0 == k {
        Some(0)
    } else {
        match key_index(l.drop_first(), k) {
            Some(i) => Some(i + 1),
            None => None,
        }
    }
}

/// `l` with `v` added to the value of `k`; a new key goes last, from zero.
pub open spec fn add_to(l: Seq<(Seq<char>, int)>, k: Seq<char>, v: int) -> Seq<(Seq<char>, int)> {
    match key_index(l, k) {
        Some(j) => l.update(j, (k, l[j].1 + v)),
        None => l.push((k, v)),
    }
}

/// `l` with the value of `k` set to `v`; a new key goes last.
pub open spec fn put(l: Seq<(Seq<char>, int)>, k: Seq<char>, v: int) -> Seq<(Seq<char>, int)> {
    match key_index(l, k) {
        Some(j) => l.update(j, (k, v)),
        None => l.push((k, v)),
    }
}

/// The entry of greatest value; among equal ones the earliest.
pub open spec fn best(l: Seq<(Seq<char>, int)>) -> Option<(Seq<char>, int)>
    decreases l.len(),
{
    if l.len() == 0 {
        None
    } else {
        match best(l.drop_last()) {
            Some(b) => if l.last().1 > b.1 {
                Some(l.last())
            } else {
                Some(b)
            },
            None => Some(l.last()),
        }
    }
}

/// Whether no key occurs twice in `l`.
pub open spec fn keys_distinct(l: Seq<(Seq<char>, int)>) -> bool {
    forall|i: int, j: int| 0 <= i < j < l.len() ==> #[trigger] l[i].0 != #[trigger] l[j].0
}

/// Whether every value of `l` lies within `[-b, b]`.
pub open spec fn bounded_by(l: Seq<(Seq<char>, int)>, b: int) -> bool {
    forall|j: int| 0 <= j < l.len() ==> -b <= #[trigger] l[j].1 <= b
}

pub proof fn lemma_key_index(l: Seq<(Seq<char>, int)>, k: Seq<char>)
    ensures
        match key_index(l, k) {
            Some(i) => 0 <= i < l.len() && l[i].0 == k && forall|j: int| 0 <= j < i ==> l[j].0 != k,
            None => forall|j: int| 0 <= j < l.len() ==> l[j].0 != k,
        },
    decreases l.len(),
{
    if l.len() > 0 {
        lemma_key_index(l.drop_first(), k);
        if l[0].0 != k {
            assert forall|j: int| 0 < j < l.len() implies l[j] == l.drop_first()[j - 1] by {}
        }
    }
}

/// Position of `k` among the keys of `l`.
pub fn find_key(l: &Vec<(String, i128)>, k: &String) -> (r: Option<usize>)
    ensures
        match r {
            Some(i) => i < l@.len() && key_index(entries_view(l@), k@) == Some(i as int),
            None => key_index(entries_view(l@), k@) is None,
        },
{
    let ghost e = entries_view(l@);
    proof {
        lemma_key_index(e, k@);
    }
    let mut i: usize = 0;
    while i < l.len()
        invariant
            e == entries_view(l@),
            i <= l@.len(),
            forall|j: int| 0 <= j < i ==> e[j].0 != k@,
            match key_index(e, k@) {
                Some(x) => 0 <= x < e.len() && e[x].0 == k@ && forall|j: int| 0 <= j < x ==> e[j].0 != k@,
                None => forall|j: int| 0 <= j < e.len() ==> e[j].0 != k@,
            },
        decreases l.len() - i,
    {
        if l[i].0 == *k {
            assert(e[i as int].0 == k@);
            return Some(i);
        }
        assert(e[i as int].0 != k@);
        i = i + 1;
    }
    None
}

/// Adds `v` to the value of `k`.
pub fn add_entry(l: &mut Vec<(String, i128)>, k: String, v: i128, Ghost(b): Ghost<int>)
    requires
        keys_distinct(entries_view(old(l)@)),
        bounded_by(entries_view(old(l)@), b),
        0 <= b,
        -crate::numeric::MAX_MAGNITUDE <= v <= crate::numeric::MAX_MAGNITUDE,
        b + crate::numeric::MAX_MAGNITUDE <= 0x7fff_ffff_ffff_ffff_ffff_ffff_ffff_ffff,
    ensures
        entries_view(final(l)@) == add_to(entries_view(old(l)@), k@, v as int),
        keys_distinct(entries_view(final(l)@)),
        bounded_by(entries_view(final(l)@), b + crate::numeric::MAX_MAGNITUDE),
{
    let ghost e = entries_view(l@);
    proof {
        lemma_key_index(e, k@);
    }
    match find_key(l, &k) {
        Some(j) => {
            assert(-b <= e[j as int].1 <= b);
            let nv = l[j].1 + v;
            l.set(j, (k, nv));
            assert(entries_view(l@) =~= add_to(e, k@, v as int));
            assert(keys_distinct(entries_view(l@))) by {
                assert forall|x: int, y: int| 0 <= x < y < entries_view(l@).len() implies #[trigger] entries_view(l@)[x].0 != #[trigger] entries_view(l@)[y].0 by {
                    assert(e[x].0 != e[y].0);
                }
            }
        },
        None => {
            l.push((k, v));
            assert(entries_view(l@) =~= add_to(e, k@, v as int));
            assert(keys_distinct(entries_view(l@))) by {
                assert forall|x: int, y: int| 0 <= x < y < entries_view(l@).len() implies #[trigger] entries_view(l@)[x].0 != #[trigger] entries_view(l@)[y].0 by {
                    if y < e.len() {
                        assert(e[x].0 != e[y].0);
                    } else {
                        assert(e[x].0 != k@);
                    }
                }
            }
        },
    }
    assert forall|j: int| 0 <= j < entries_view(l@).len() implies -(b + crate::numeric::MAX_MAGNITUDE)
        <= #[trigger] entries_view(l@)[j].1 <= b + crate::numeric::MAX_MAGNITUDE by {
        if j < e.len() {
            assert(-b <= e[j].1 <= b);
        }
    }
}

/// Sets the value of `k` to `v`.
pub fn put_entry(l: &mut Vec<(String, i128)>, k: String, v: i128)
    requires
        keys_distinct(entries_view(old(l)@)),
    ensures
        entries_view(final(l)@) == put(entries_view(old(l)@), k@, v as int),
        keys_distinct(entries_view(final(l)@)),
        forall|b: int|
            bounded_by(entries_view(old(l)@), b) && -b <= v <= b ==> bounded_by(
                entries_view(final(l)@),
                b,
            ),
{
    let ghost e = entries_view(l@);
    proof {
        lemma_key_index(e, k@);
    }
    match find_key(l, &k) {
        Some(j) => {
            l.set(j, (k, v));
            assert(entries_view(l@) =~= put(e, k@, v as int));
            assert(keys_distinct(entries_view(l@))) by {
                assert forall|x: int, y: int| 0 <= x < y < entries_view(l@).len() implies #[trigger] entries_view(l@)[x].0 != #[trigger] entries_view(l@)[y].0 by {
                    assert(e[x].0 != e[y].0);
                }
            }
        },
        None => {
            l.push((k, v));
            assert(entries_view(l@) =~= put(e, k@, v as int));
            assert(keys_distinct(entries_view(l@))) by {
                assert forall|x: int, y: int| 0 <= x < y < entries_view(l@).len() implies #[trigger] entries_view(l@)[x].0 != #[trigger] entries_view(l@)[y].0 by {
                    if y < e.len() {
                        assert(e[x].0 != e[y].0);
                    } else {
                        assert(e[x].0 != k@);
                    }
                }
            }
        },
    }
    assert forall|b: int| bounded_by(e, b) && -b <= v <= b implies bounded_by(entries_view(l@), b) by {
        assert forall|j: int| 0 <= j < entries_view(l@).len() implies -b <= #[trigger] entries_view(
            l@,
        )[j].1 <= b by {
            if j < e.len() && entries_view(l@)[j] == e[j] {
                assert(-b <= e[j].1 <= b);
            }
        }
    }
}

/// The entry of greatest value, the earliest among equals, or `None` when
/// `l` is empty.
pub fn best_entry(l: &Vec<(String, i128)>) -> (r: Option<(String, i128)>)
    ensures
        match r {
            Some(x) => best(entries_view(l@)) == Some((x.0@, x.1 as int)),
            None => best(entries_view(l@)) is None,
        },
{
    let ghost e = entries_view(l@);
    if l.len() == 0 {
        return None;
    }
    let mut j: usize = 0;
    let mut i: usize = 1;
    assert(e.take(1).drop_last() =~= Seq::<(Seq<char>, int)>::empty());
    assert(best(e.take(1).drop_last()) is None);
    assert(e.take(1).last() == e[0]);
    while i < l.len()
        invariant
            e == entries_view(l@),
            1 <= i <= l@.len(),
            j < i,
            best(e.take(i as int)) == Some(e[j as int]),
        decreases l.len() - i,
    {
        assert(e.take(i + 1).drop_last() =~= e.take(i as int));
        if l[i].1 > l[j].1 {
            j = i;
        }
        i = i + 1;
    }
    assert(e.take(l@.len() as int) =~= e);
    Some((l[j].0.clone(), l[j].1))
}


/// The leading entry of a non-empty list is one of its entries, no entry
/// exceeds it, and every entry before it is strictly smaller.
pub proof fn best_is_greatest(l: Seq<(Seq<char>, int)>)
    requires
        l.len() > 0,
    ensures
        best(l) matches Some(b) && exists|k: int|
            0 <= k < l.len() && l[k] == b && (forall|j: int| 0 <= j < l.len() ==> l[j].1 <= b.1) && (
            forall|j: int| 0 <= j < k ==> l[j].1 < b.1),
    decreases l.len(),
{
    let t = l.drop_last();
    if t.len() == 0 {
        assert(best(t) is None);
        assert(l[0] == l.last());
    } else {
        best_is_greatest(t);
        let b = best(t)->0;
        let k = choose|k: int|
            0 <= k < t.len() && t[k] == b && (forall|j: int| 0 <= j < t.len() ==> t[j].1 <= b.1) && (
            forall|j: int| 0 <= j < k ==> t[j].1 < b.1);
        if l.last().1 > b.1 {
            assert(l[l.len() - 1] == l.last());
            assert forall|j: int| 0 <= j < l.len() - 1 implies l[j].1 < l.last().1 by {
                assert(l[j] == t[j]);
            }
        } else {
            assert(l[k] == t[k]);
            assert forall|j: int| 0 <= j < l.len() implies l[j].1 <= b.1 by {
                if j < l.len() - 1 {
                    assert(l[j] == t[j]);
                }
            }
            assert forall|j: int| 0 <= j < k implies l[j].1 < b.1 by {
                assert(l[j] == t[j]);
            }
        }
    }
}

} // verus!
