use vstd::prelude::*;

verus! {

/// Relies on rand::random: a value drawn from the thread-local generator.
/// Nothing is known of the value.
pub assume_specification<T>[ rand::random::<T> ]() -> (r: T)
    where
        rand::distributions::Standard: rand::distributions::Distribution<T>,
;

/// Every element is at most each element after it.
pub open spec fn is_sorted(s: Seq<i32>) -> bool {
    forall|i: int, j: int| 0 <= i <= j < s.len() ==> s[i] <= s[j]
}

/// Relies on slice::sort_unstable: afterwards the slice is in ascending
/// order and holds the same elements as before.
#[verifier::external_body]
fn sort_unstable_in_place(v: &mut Vec<i32>)
    ensures
        is_sorted(final(v)@),
        final(v)@.to_multiset() == old(v)@.to_multiset(),
{
    v.sort_unstable();
}

/// `size` values drawn at random; none for a size of zero or less.
pub fn random_values(size: i32) -> (r: Vec<i32>)
    ensures
        size >= 0 ==> r.len() == size,
        size < 0 ==> r.len() == 0,
{
    let mut r: Vec<i32> = Vec::new();
    let mut i: i32 = 0;
    while i < size
        invariant
            0 <= i,
            size >= 0 ==> i <= size,
            size < 0 ==> i == 0,
            r.len() == i,
        decreases size - i,
    {
        r.push(rand::random::<i32>());
        i = i + 1;
    }
    r
}

/// `values` in ascending order.
pub fn sort_values(values: Vec<i32>) -> (r: Vec<i32>)
    ensures
        is_sorted(r@),
        r@.to_multiset() == values@.to_multiset(),
        r.len() == values.len(),
{
    let mut r = values;
    sort_unstable_in_place(&mut r);
    proof {
        r@.to_multiset_ensures();
        values@.to_multiset_ensures();
    }
    r
}

/// `size` random values in ascending order; empty for a size of zero or less.
pub fn sort_large_array(size: i32) -> (r: Vec<i32>)
    ensures
        is_sorted(r@),
        size >= 0 ==> r.len() == size,
        size < 0 ==> r.len() == 0,
{
    let values = random_values(size);
    sort_values(values)
}

} // verus!
