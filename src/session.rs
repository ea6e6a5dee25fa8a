//! Choosing the session credential among the values found in a cookie store.

use crate::text::str_equal;
use vstd::prelude::*;

verus! {

/// How many of `values` equal `v`.
pub open spec fn count_of(values: Seq<Seq<char>>, v: Seq<char>) -> nat
    decreases values.len(),
{
    if values.len() == 0 {
        0
    } else {
        count_of(values.drop_last(), v) + if values.last() == v {
            1nat
        } else {
            0nat
        }
    }
}

/// The texts of `values`.
pub open spec fn texts(values: Seq<String>) -> Seq<Seq<char>> {
    values.map_values(|s: String| s@)
}

/// Position `i` holds the first of `values` that occurs most often.
pub open spec fn is_first_most_frequent(values: Seq<Seq<char>>, i: int) -> bool {
    &&& 0 <= i < values.len()
    &&& forall|j: int| 0 <= j < values.len() ==> count_of(values, #[trigger] values[j]) <= count_of(values, values[i])
    &&& forall|j: int| 0 <= j < i ==> count_of(values, #[trigger] values[j]) < count_of(values, values[i])
}

fn count_in(values: &Vec<String>, v: &str) -> (c: usize)
    ensures
        c == count_of(texts(values@), v@),
{
    let ghost all = texts(values@);
    let mut c: usize = 0;
    for j in 0..values.len()
        invariant
            all == texts(values@),
            c <= j,
            c == count_of(all.subrange(0, j as int), v@),
    {
        assert(all.subrange(0, j + 1).drop_last() =~= all.subrange(0, j as int));
        if str_equal(values[j].as_str(), v) {
            c = c + 1;
        }
    }
    assert(all.subrange(0, values.len() as int) =~= all);
    c
}

/// The session credential: the value that occurs most often, the first of them
/// on a tie; `None` when there is no value.
pub fn most_frequent_session_id(values: &Vec<String>) -> (r: Option<String>)
    ensures
        r is None <==> values.len() == 0,
        r matches Some(s) ==> exists|i: int| is_first_most_frequent(texts(values@), i) && s@ == values@[i]@,
{
    if values.len() == 0 {
        return None;
    }
    let ghost all = texts(values@);
    let mut best: usize = 0;
    let mut best_count: usize = count_in(values, values[0].as_str());
    for i in 1..values.len()
        invariant
            all == texts(values@),
            best < i <= values.len(),
            best_count == count_of(all, all[best as int]),
            forall|j: int| 0 <= j < i ==> count_of(all, #[trigger] all[j]) <= best_count,
            forall|j: int| 0 <= j < best ==> count_of(all, #[trigger] all[j]) < best_count,
    {
        let c = count_in(values, values[i].as_str());
        if c > best_count {
            best = i;
            best_count = c;
        }
    }
    assert(is_first_most_frequent(all, best as int));
    Some(values[best].clone())
}

} // verus!
