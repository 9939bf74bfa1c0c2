//! The laws of the cycle controller, proved once and for all over the model
//! that the controller's contracts are written in: cycling through the whole
//! list is the identity, a shift and its inverse cancel, selecting an index
//! is insensitive to multiples of the list length, and a value the resolver
//! cannot find pins the derived index to the fallback index.

use vstd::arithmetic::div_mod::lemma_fundamental_div_mod;
use vstd::arithmetic::div_mod::lemma_mod_add_multiples_vanish;
use vstd::arithmetic::div_mod::lemma_mod_division_less_than_divisor;
use vstd::arithmetic::div_mod::lemma_mod_multiples_vanish;
use vstd::arithmetic::div_mod::lemma_mod_twice;
use vstd::arithmetic::div_mod::lemma_small_mod;
use vstd::prelude::*;

use crate::cycle::resolved_index;
use crate::cycle::spec_set_index;
use crate::cycle::spec_set_state;
use crate::cycle::spec_shift;
use crate::cycle::CycleModel;
use crate::position::lemma_first_match_pins;
use crate::position::FirstMatch;
use crate::position::NeverFound;
use crate::position::PositionResolver;
use crate::value::CycleValue;

verus! {

/// The resolver identifies every position of the list: the element at any
/// position resolves back to exactly that position. For the default
/// first-match resolver this says that no element occurs twice.
pub open spec fn resolver_pins<T, R: PositionResolver<T>>(m: CycleModel<T, R>) -> bool {
    forall|i: int|
        0 <= i < m.list.len() ==> m.resolver.spec_position(#[trigger] m.list[i], m.list) == Some(i)
}

/// Iterate `next` (a cyclic move by one) `k` times on the model.
pub open spec fn iter_next<T, R: PositionResolver<T>>(m: CycleModel<T, R>, k: nat) -> CycleModel<
    T,
    R,
>
    decreases k,
{
    if k == 0 {
        m
    } else {
        spec_shift(iter_next(m, (k - 1) as nat), 1)
    }
}

/// Reducing the left summand modulo `n` does not change a sum modulo `n`.
proof fn lemma_mod_compose(x: int, d: int, n: int)
    requires
        n > 0,
    ensures
        (x % n + d) % n == (x + d) % n,
{
    lemma_fundamental_div_mod(x, n);
    lemma_mod_multiples_vanish(-(x / n), x + d, n);
    assert(n * (-(x / n)) + (x + d) == x % n + d) by (nonlinear_arith)
        requires
            x == n * (x / n) + x % n,
    ;
}

/// The double wrap of `shift` lands where a single reduction does:
/// `((x % n) + n) % n == x % n`.
proof fn lemma_wrap_reduce(x: int, n: int)
    requires
        n > 0,
    ensures
        (x % n + n) % n == x % n,
{
    lemma_mod_add_multiples_vanish(x % n, n);
    lemma_mod_twice(x, n);
}

/// A shift on a model whose state sits at a pinned position `j` moves the
/// state to the element `delta` positions further, cyclically, and changes
/// nothing else.
pub proof fn lemma_shift_pinned<T, R: PositionResolver<T>>(m: CycleModel<T, R>, j: int, delta: int)
    requires
        m.list.len() > 0,
        resolver_pins(m),
        0 <= j < m.list.len(),
        m.state == m.list[j],
    ensures
        spec_shift(m, delta) == spec_set_state(m, m.list[(j + delta) % m.list.len() as int]),
{
    let n = m.list.len() as int;
    assert(m.resolver.spec_position(m.state, m.list) == Some(j));
    assert(resolved_index(m) == j);
    lemma_wrap_reduce(j + delta, n);
    lemma_mod_division_less_than_divisor(j + delta, n);
}

/// Shifting by `delta` and then by `-delta` over an unchanged list restores
/// the model exactly, for any integer `delta`, provided the state sits at a
/// pinned position of the list.
pub proof fn lemma_shift_round_trip<T, R: PositionResolver<T>>(
    m: CycleModel<T, R>,
    j: int,
    delta: int,
)
    requires
        m.list.len() > 0,
        resolver_pins(m),
        0 <= j < m.list.len(),
        m.state == m.list[j],
    ensures
        spec_shift(spec_shift(m, delta), -delta) == m,
{
    let n = m.list.len() as int;
    let t = (j + delta) % n;
    lemma_shift_pinned(m, j, delta);
    let m1 = spec_set_state(m, m.list[t]);
    lemma_mod_division_less_than_divisor(j + delta, n);
    lemma_shift_pinned(m1, t, -delta);
    lemma_mod_compose(j + delta, -delta, n);
    lemma_small_mod(j as nat, n as nat);
    assert(spec_shift(m1, -delta) == spec_set_state(m1, m1.list[j]));
}

/// After `k` moves by one from a pinned position `j`, the state is the
/// element at `j + k`, cyclically, and nothing else has changed.
proof fn lemma_iter_next_pinned<T, R: PositionResolver<T>>(m: CycleModel<T, R>, j: int, k: nat)
    requires
        m.list.len() > 0,
        resolver_pins(m),
        0 <= j < m.list.len(),
        m.state == m.list[j],
    ensures
        iter_next(m, k) == spec_set_state(m, m.list[(j + k) % m.list.len() as int]),
    decreases k,
{
    let n = m.list.len() as int;
    if k == 0 {
        lemma_small_mod(j as nat, n as nat);
    } else {
        lemma_iter_next_pinned(m, j, (k - 1) as nat);
        let t = (j + k - 1) % n;
        let m1 = spec_set_state(m, m.list[t]);
        lemma_mod_division_less_than_divisor(j + k - 1, n);
        lemma_shift_pinned(m1, t, 1);
        lemma_mod_compose(j + k - 1, 1, n);
    }
}

/// Full cycle: with the state at a pinned position, moving to the next value
/// once per list element returns the model to exactly where it started.
pub proof fn lemma_full_cycle<T, R: PositionResolver<T>>(m: CycleModel<T, R>, j: int)
    requires
        m.list.len() > 0,
        resolver_pins(m),
        0 <= j < m.list.len(),
        m.state == m.list[j],
    ensures
        iter_next(m, m.list.len()) == m,
{
    let n = m.list.len() as int;
    lemma_iter_next_pinned(m, j, m.list.len());
    lemma_mod_add_multiples_vanish(j, n);
    lemma_small_mod(j as nat, n as nat);
}

/// Selecting an index is the same as selecting that index reduced modulo the
/// list length: `set_index(i)` and `set_index(i % len)` produce one model.
pub proof fn lemma_set_index_mod<T, R: PositionResolver<T>>(m: CycleModel<T, R>, i: int)
    requires
        m.list.len() > 0,
        i >= 0,
    ensures
        spec_set_index(m, i) == spec_set_index(m, i % m.list.len() as int),
{
    lemma_mod_twice(i, m.list.len() as int);
}

/// With a resolver that assigns no position to any value, the derived index
/// is the fallback index, whatever the state and the list are.
pub proof fn lemma_never_found_fallback<T>(m: CycleModel<T, NeverFound>)
    ensures
        resolved_index(m) == m.fallback_index as int,
{
}

/// Setting the state directly to a value the resolver cannot find in the
/// list leaves the derived index at the fallback index.
pub proof fn lemma_absent_state_fallback<T, R: PositionResolver<T>>(m: CycleModel<T, R>, value: T)
    requires
        m.resolver.spec_position(value, m.list) is None,
    ensures
        resolved_index(spec_set_state(m, value)) == m.fallback_index as int,
{
}

/// A list whose elements are self-equal and pairwise unequal is pinned by
/// the default first-match resolver.
pub proof fn lemma_first_match_resolver_pins<T: CycleValue>(m: CycleModel<T, FirstMatch>)
    requires
        forall|i: int| 0 <= i < m.list.len() ==> (#[trigger] m.list[i]).spec_eq(m.list[i]),
        forall|k: int, i: int|
            0 <= k < i < m.list.len() ==> !(#[trigger] m.list[k].spec_eq(m.list[i])),
    ensures
        resolver_pins(m),
{
    assert forall|i: int| 0 <= i < m.list.len() implies m.resolver.spec_position(
        #[trigger] m.list[i],
        m.list,
    ) == Some(i) by {
        lemma_first_match_pins(m.list, i);
    }
}

} // verus!
