//! First-occurrence de-duplication of name lists, backed by an
//! insertion-ordered set.

use vstd::prelude::*;
use indexmap::IndexSet;

verus! {

#[verifier::external_type_specification]
#[verifier::external_body]
#[verifier::reject_recursive_types(T)]
#[verifier::reject_recursive_types(S)]
pub struct ExIndexSet<T, S>(IndexSet<T, S>);

/// The strings an insertion-ordered set holds, in their order.
pub uninterp spec fn index_set_elems(s: IndexSet<String>) -> Seq<Seq<char>>;

/// Relies on IndexSet::new: a fresh set holds nothing.
#[verifier::external_body]
fn index_set_new() -> (r: IndexSet<String>)
    ensures
        index_set_elems(r) == Seq::<Seq<char>>::empty(),
{
    IndexSet::new()
}

/// Relies on IndexSet::insert: a value not yet present is appended at
/// the end and `true` comes back; a present one leaves the set, and
/// every insertion position, unchanged, and `false` comes back.
#[verifier::external_body]
fn index_set_insert(s: &mut IndexSet<String>, v: String) -> (r: bool)
    ensures
        index_set_elems(*final(s)) == if index_set_elems(*old(s)).contains(v@) {
            index_set_elems(*old(s))
        } else {
            index_set_elems(*old(s)).push(v@)
        },
        r == !index_set_elems(*old(s)).contains(v@),
{
    s.insert(v)
}

/// Relies on IndexSet::iter: the values come out in insertion order.
#[verifier::external_body]
fn index_set_to_vec(s: &IndexSet<String>) -> (r: Vec<String>)
    ensures
        r.deep_view() == index_set_elems(*s),
{
    s.iter().cloned().collect()
}

/// The first occurrence of each string, in order of first appearance.
pub open spec fn dedup_first(names: Seq<Seq<char>>) -> Seq<Seq<char>>
    decreases names.len(),
{
    if names.len() == 0 {
        Seq::<Seq<char>>::empty()
    } else {
        let rest = dedup_first(names.drop_last());
        if rest.contains(names.last()) {
            rest
        } else {
            rest.push(names.last())
        }
    }
}

/// What de-duplication is for: the kept list holds no string twice.
pub proof fn lemma_dedup_first_distinct(names: Seq<Seq<char>>)
    ensures
        forall|i: int, j: int|
            0 <= i < j < dedup_first(names).len() ==> dedup_first(names)[i] != dedup_first(
                names,
            )[j],
    decreases names.len(),
{
    if names.len() > 0 {
        lemma_dedup_first_distinct(names.drop_last());
        let rest = dedup_first(names.drop_last());
        let d = dedup_first(names);
        if !rest.contains(names.last()) {
            assert forall|i: int, j: int| 0 <= i < j < d.len() implies d[i] != d[j] by {
                if j == d.len() - 1 {
                    assert(d[i] == rest[i]);
                    if d[i] == names.last() {
                        assert(rest.contains(names.last()));
                    }
                }
            }
        }
    }
}

/// Keeps the first occurrence of each name and drops the rest,
/// preserving the order of first appearance.
pub fn dedup_names(names: &Vec<String>) -> (r: Vec<String>)
    ensures
        r.deep_view() == dedup_first(names.deep_view()),
{
    let mut seen = index_set_new();
    let n = names.len();
    let mut i: usize = 0;
    while i < n
        invariant
            0 <= i <= n,
            n == names.len(),
            index_set_elems(seen) == dedup_first(names.deep_view().take(i as int)),
        decreases n - i,
    {
        index_set_insert(&mut seen, names[i].clone());
        proof {
            let nv = names.deep_view();
            assert(nv.take(i + 1).drop_last() =~= nv.take(i as int));
            assert(nv.take(i + 1).last() == nv[i as int]);
            assert(nv[i as int] == names@[i as int]@);
        }
        i = i + 1;
    }
    proof {
        assert(names.deep_view().take(n as int) =~= names.deep_view());
    }
    index_set_to_vec(&seen)
}

} // verus!
