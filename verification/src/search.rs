//! First matches, and how many there are.

use vstd::prelude::*;

verus! {

/// `index` is the least number from 0 below `bound` that satisfies `wanted`.
pub open spec fn is_first(bound: int, wanted: spec_fn(int) -> bool, index: int) -> bool {
    &&& 0 <= index < bound
    &&& wanted(index)
    &&& forall|j: int| 0 <= j < index ==> !#[trigger] wanted(j)
}

/// The least number from 0 below `bound` that satisfies `wanted`.
pub open spec fn first_index(bound: int, wanted: spec_fn(int) -> bool) -> Option<int> {
    if exists|index: int| is_first(bound, wanted, index) {
        Some(choose|index: int| is_first(bound, wanted, index))
    } else {
        None
    }
}

/// A search finds the one index that `is_first` accepts.
pub proof fn first_index_at(bound: int, wanted: spec_fn(int) -> bool, index: int)
    requires
        is_first(bound, wanted, index),
    ensures
        first_index(bound, wanted) == Some(index),
{
    let found = choose|i: int| is_first(bound, wanted, i);
    assert(is_first(bound, wanted, found));
    if found < index {
        assert(!wanted(found));
    } else if index < found {
        assert(!wanted(index));
    }
}

/// A search comes back empty exactly when nothing satisfies `wanted`.
pub proof fn first_index_none(bound: int, wanted: spec_fn(int) -> bool)
    ensures
        first_index(bound, wanted) is None <==> forall|j: int|
            0 <= j < bound ==> !#[trigger] wanted(j),
{
    if exists|j: int| 0 <= j < bound && #[trigger] wanted(j) {
        let j = choose|j: int| 0 <= j < bound && #[trigger] wanted(j);
        match_up_to(bound, wanted, j);
    }
}

proof fn match_up_to(bound: int, wanted: spec_fn(int) -> bool, upto: int)
    requires
        0 <= upto < bound,
        wanted(upto),
    ensures
        exists|index: int| is_first(bound, wanted, index),
    decreases upto,
{
    if exists|j: int| 0 <= j < upto && #[trigger] wanted(j) {
        let j = choose|j: int| 0 <= j < upto && #[trigger] wanted(j);
        match_up_to(bound, wanted, j);
    } else {
        assert(is_first(bound, wanted, upto));
    }
}

/// How many numbers from 0 below `bound` satisfy `wanted`.
pub open spec fn count(bound: int, wanted: spec_fn(int) -> bool) -> nat
    decreases bound,
{
    if bound <= 0 {
        0
    } else {
        count(bound - 1, wanted) + if wanted(bound - 1) {
            1nat
        } else {
            0nat
        }
    }
}

/// A count is zero exactly when nothing satisfies `wanted`.
pub proof fn count_none(bound: int, wanted: spec_fn(int) -> bool)
    ensures
        count(bound, wanted) == 0 <==> forall|j: int| 0 <= j < bound ==> !#[trigger] wanted(j),
    decreases bound,
{
    if bound > 0 {
        count_none(bound - 1, wanted);
        if count(bound, wanted) != 0 && count(bound - 1, wanted) == 0 {
            assert(wanted(bound - 1));
        }
    }
}

/// A count drops by one when one number no longer satisfies what it did.
pub proof fn count_drops(
    bound: int,
    wanted: spec_fn(int) -> bool,
    remaining: spec_fn(int) -> bool,
    index: int,
)
    requires
        0 <= index < bound,
        wanted(index),
        !remaining(index),
        forall|j: int| 0 <= j < bound && j != index ==> wanted(j) == #[trigger] remaining(j),
    ensures
        count(bound, wanted) == count(bound, remaining) + 1,
    decreases bound,
{
    if index == bound - 1 {
        count_same(bound - 1, wanted, remaining);
    } else {
        assert(wanted(bound - 1) == remaining(bound - 1));
        count_drops(bound - 1, wanted, remaining, index);
    }
}

proof fn count_same(bound: int, one: spec_fn(int) -> bool, other: spec_fn(int) -> bool)
    requires
        forall|j: int| 0 <= j < bound ==> one(j) == #[trigger] other(j),
    ensures
        count(bound, one) == count(bound, other),
    decreases bound,
{
    if bound > 0 {
        assert(one(bound - 1) == other(bound - 1));
        count_same(bound - 1, one, other);
    }
}

} // verus!
