use vstd::prelude::*;

use crate::value::CycleValue;

verus! {

/// Strategy for locating the current value inside the backing list.
///
/// A resolver is a pure function from a value and a list snapshot to the
/// position of the value in the list, or `None` when it has no position.
/// `spec_position` states the answer mathematically and `position` computes
/// it; the contract ties the two together exactly, so everything proved about
/// the controller holds for custom resolvers as well as for the default one.
pub trait PositionResolver<T>: Sized {
    /// The position the resolver assigns to `value` in `list`, if any.
    spec fn spec_position(&self, value: T, list: Seq<T>) -> Option<int>;

    /// Locate `value` inside `list`. A returned position is an index into
    /// `list`, so it is always strictly below the list's length.
    fn position(&self, value: &T, list: &Vec<T>) -> (r: Option<usize>)
        ensures
            (match r {
                Option::Some(j) => self.spec_position(*value, list@) == Some(j as int)
                    && j < list@.len(),
                Option::None => self.spec_position(*value, list@) is None,
            }),
    ;
}

/// The position of the first element of `list` at or after `k` that is equal
/// to `value` under the element equality.
pub open spec fn first_match_from<T: CycleValue>(value: T, list: Seq<T>, k: int) -> Option<int>
    decreases list.len() - k,
{
    if k < 0 || k >= list.len() {
        None
    } else if list[k].spec_eq(value) {
        Some(k)
    } else {
        first_match_from(value, list, k + 1)
    }
}

/// The default resolver: the position of the first element equal to the
/// value under the element equality, or `None` when no element is equal.
#[derive(Clone, Copy)]
pub struct FirstMatch;

impl<T: CycleValue> PositionResolver<T> for FirstMatch {
    open spec fn spec_position(&self, value: T, list: Seq<T>) -> Option<int> {
        first_match_from(value, list, 0)
    }

    fn position(&self, value: &T, list: &Vec<T>) -> (r: Option<usize>) {
        let n: usize = list.len();
        let mut k: usize = 0;
        while k < n
            invariant
                n == list@.len(),
                k <= n,
                first_match_from(*value, list@, 0) == first_match_from(*value, list@, k as int),
            decreases n - k,
        {
            if list[k].equals(value) {
                return Some(k);
            }
            k += 1;
        }
        None
    }
}

/// A resolver that assigns no position to any value, so the derived index of
/// a controller using it is always the fallback index.
#[derive(Clone, Copy)]
pub struct NeverFound;

impl<T> PositionResolver<T> for NeverFound {
    open spec fn spec_position(&self, value: T, list: Seq<T>) -> Option<int> {
        None
    }

    fn position(&self, value: &T, list: &Vec<T>) -> (r: Option<usize>) {
        None
    }
}

/// An element that is equal to itself and to nothing before its position
/// is the first match for itself.
pub proof fn lemma_first_match_pins<T: CycleValue>(list: Seq<T>, i: int)
    requires
        0 <= i < list.len(),
        list[i].spec_eq(list[i]),
        forall|k: int| 0 <= k < i ==> !(#[trigger] list[k]).spec_eq(list[i]),
    ensures
        first_match_from(list[i], list, 0) == Some(i),
{
    lemma_first_match_pins_from(list, i, 0);
}

proof fn lemma_first_match_pins_from<T: CycleValue>(list: Seq<T>, i: int, k: int)
    requires
        0 <= k <= i < list.len(),
        list[i].spec_eq(list[i]),
        forall|j: int| 0 <= j < i ==> !(#[trigger] list[j]).spec_eq(list[i]),
    ensures
        first_match_from(list[i], list, k) == Some(i),
    decreases i - k,
{
    if k < i {
        lemma_first_match_pins_from(list, i, k + 1);
    }
}

/// A value that no element of the list equals has no first match.
pub proof fn lemma_first_match_absent<T: CycleValue>(value: T, list: Seq<T>)
    requires
        forall|k: int| 0 <= k < list.len() ==> !(#[trigger] list[k]).spec_eq(value),
    ensures
        first_match_from(value, list, 0) is None,
{
    lemma_first_match_absent_from(value, list, 0);
}

proof fn lemma_first_match_absent_from<T: CycleValue>(value: T, list: Seq<T>, k: int)
    requires
        forall|j: int| 0 <= j < list.len() ==> !(#[trigger] list[j]).spec_eq(value),
        0 <= k,
    ensures
        first_match_from(value, list, k) is None,
    decreases list.len() - k,
{
    if k < list.len() {
        lemma_first_match_absent_from(value, list, k + 1);
    }
}

} // verus!
