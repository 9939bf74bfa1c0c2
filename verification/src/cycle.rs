use vstd::prelude::*;

use crate::position::FirstMatch;
use crate::position::PositionResolver;
use crate::value::CycleValue;

verus! {

/// The mathematical model of a cycle controller: the backing list snapshot,
/// the current value, the fallback index, and the position resolver.
pub ghost struct CycleModel<T, R> {
    pub list: Seq<T>,
    pub state: T,
    pub fallback_index: usize,
    pub resolver: R,
}

/// The derived index of a controller: the position the resolver assigns to
/// the current value in the list, or the fallback index when it assigns none.
pub open spec fn resolved_index<T, R: PositionResolver<T>>(m: CycleModel<T, R>) -> int {
    match m.resolver.spec_position(m.state, m.list) {
        Option::Some(i) => i,
        Option::None => m.fallback_index as int,
    }
}

/// `set_index` on the model: select the element at `i` wrapped modulo the
/// list length.
pub open spec fn spec_set_index<T, R>(m: CycleModel<T, R>, i: int) -> CycleModel<T, R>
    recommends
        m.list.len() > 0,
        i >= 0,
{
    CycleModel { state: m.list[i % m.list.len() as int], ..m }
}

/// The double-wrap used by `shift`: `cur + delta` reduced modulo `n` and then
/// pushed up by `n`, so that the result is non-negative whatever the sign of
/// `delta`; `set_index` brings it back below `n`.
pub open spec fn wrap_index(cur: int, delta: int, n: int) -> int
    recommends
        n > 0,
{
    (cur + delta) % n + n
}

/// `shift` on the model: move by `delta` positions from the derived index,
/// cyclically.
pub open spec fn spec_shift<T, R: PositionResolver<T>>(
    m: CycleModel<T, R>,
    delta: int,
) -> CycleModel<T, R>
    recommends
        m.list.len() > 0,
{
    spec_set_index(m, wrap_index(resolved_index(m), delta, m.list.len() as int))
}

/// `set_state` on the model: replace the current value, touching nothing else.
pub open spec fn spec_set_state<T, R>(m: CycleModel<T, R>, value: T) -> CycleModel<T, R> {
    CycleModel { state: value, ..m }
}

/// The list-change resynchronization on the model: install the new list,
/// re-derive the index against it, and select whatever element now sits at
/// that position. When the list shrank below the old position, the wrap in
/// `spec_set_index` selects a wrapped element rather than going out of
/// bounds.
pub open spec fn spec_sync<T, R: PositionResolver<T>>(
    m: CycleModel<T, R>,
    list: Seq<T>,
) -> CycleModel<T, R>
    recommends
        list.len() > 0,
{
    let swapped = CycleModel { list: list, ..m };
    spec_set_index(swapped, resolved_index(swapped))
}

/// Options for [`use_cycle_list_with_options`].
pub struct UseCycleListOptions<T, R> {
    /// The initial value of the state. If none is provided the first entry
    /// of the list is used.
    pub initial_value: Option<T>,
    /// The index used when the current value is not found in the list, for
    /// example when `get_position` returns `None`.
    pub fallback_index: usize,
    /// The resolver that locates the current value in the list. Defaults to
    /// the first element equal to the value.
    pub get_position: R,
}

impl<T> Default for UseCycleListOptions<T, FirstMatch> {
    /// No initial value, fallback index zero, first-match resolution.
    fn default() -> (r: Self)
        ensures
            r.initial_value is None,
            r.fallback_index == 0,
            r.get_position == FirstMatch,
    {
        UseCycleListOptions { initial_value: None, fallback_index: 0, get_position: FirstMatch }
    }
}

impl<T, R> UseCycleListOptions<T, R> {
    /// Replace the initial value.
    pub fn initial_value(self, value: T) -> (r: Self)
        ensures
            r.initial_value == Some(value),
            r.fallback_index == self.fallback_index,
            r.get_position == self.get_position,
    {
        UseCycleListOptions { initial_value: Some(value), ..self }
    }

    /// Replace the fallback index.
    pub fn fallback_index(self, fallback_index: usize) -> (r: Self)
        ensures
            r.initial_value == self.initial_value,
            r.fallback_index == fallback_index,
            r.get_position == self.get_position,
    {
        UseCycleListOptions { fallback_index, ..self }
    }

    /// Replace the position resolver.
    pub fn get_position<R2>(self, get_position: R2) -> (r: UseCycleListOptions<T, R2>)
        ensures
            r.initial_value == self.initial_value,
            r.fallback_index == self.fallback_index,
            r.get_position == get_position,
    {
        UseCycleListOptions {
            initial_value: self.initial_value,
            fallback_index: self.fallback_index,
            get_position,
        }
    }
}

/// Cycle through a list of items: a controller owning the current value, the
/// backing list snapshot it was selected from, and the resolution policy.
///
/// `state` reads the current value, `set_state` writes it directly, `index`
/// is the derived position, and `set_index`, `next`, `prev` and `shift`
/// select elements cyclically. `set_list` is the list-change notification:
/// it installs a new list snapshot and resynchronizes the current value, the
/// job of a change watch on the backing list in a reactive host.
pub struct UseCycleListReturn<T, R> {
    list: Vec<T>,
    state: T,
    fallback_index: usize,
    get_position: R,
}

impl<T, R> View for UseCycleListReturn<T, R> {
    type V = CycleModel<T, R>;

    closed spec fn view(&self) -> CycleModel<T, R> {
        CycleModel {
            list: self.list@,
            state: self.state,
            fallback_index: self.fallback_index,
            resolver: self.get_position,
        }
    }
}

/// Build a cycle controller over `list` with the default options: the first
/// element as the initial value, fallback index zero, and first-match
/// position resolution. The list must not be empty, since the initial value
/// is taken from it.
pub fn use_cycle_list<T: CycleValue>(list: Vec<T>) -> (r: UseCycleListReturn<T, FirstMatch>)
    requires
        list@.len() > 0,
    ensures
        r@.list == list@,
        r@.state == list@[0],
        r@.fallback_index == 0,
        r@.resolver == FirstMatch,
{
    use_cycle_list_with_options(list, UseCycleListOptions::default())
}

/// Build a cycle controller over `list` with the given options. The state
/// starts as the supplied initial value, or as the first element of the list
/// when none is supplied; in the latter case the list must not be empty.
pub fn use_cycle_list_with_options<T: CycleValue, R: PositionResolver<T>>(
    list: Vec<T>,
    options: UseCycleListOptions<T, R>,
) -> (r: UseCycleListReturn<T, R>)
    requires
        options.initial_value is Some || list@.len() > 0,
    ensures
        r@.list == list@,
        r@.fallback_index == options.fallback_index,
        r@.resolver == options.get_position,
        (match options.initial_value {
            Option::Some(v) => r@.state == v,
            Option::None => r@.state == list@[0],
        }),
{
    let UseCycleListOptions { initial_value, fallback_index, get_position } = options;
    let state: T = match initial_value {
        Some(v) => v,
        None => list[0].duplicate(),
    };
    UseCycleListReturn { list, state, fallback_index, get_position }
}

impl<T: CycleValue, R: PositionResolver<T>> UseCycleListReturn<T, R> {
    /// The current value.
    pub fn state(&self) -> (r: &T)
        ensures
            *r == self@.state,
    {
        &self.state
    }

    /// Set the current value directly, bypassing index and list validation.
    /// The value need not be an element of the list; while it is not, the
    /// derived index is the fallback index (under the default resolver).
    pub fn set_state(&mut self, value: T)
        ensures
            final(self)@ == spec_set_state(old(self)@, value),
    {
        self.state = value;
    }

    /// The backing list snapshot the controller currently sees.
    pub fn list(&self) -> (r: &Vec<T>)
        ensures
            r@ == self@.list,
    {
        &self.list
    }

    /// The derived index: the position the resolver assigns to the current
    /// value in the list, or the fallback index when it assigns none. When
    /// the list is non-empty and the fallback index is within its bounds,
    /// the result is a valid index into the list.
    pub fn index(&self) -> (r: usize)
        ensures
            r as int == resolved_index(self@),
            self@.resolver.spec_position(self@.state, self@.list) is Some ==> r
                < self@.list.len(),
            self@.list.len() > 0 && self@.fallback_index < self@.list.len() ==> r
                < self@.list.len(),
    {
        match self.get_position.position(&self.state, &self.list) {
            Some(i) => i,
            None => self.fallback_index,
        }
    }

    /// Select the element at `i` reduced modulo the list length, write it
    /// into the state, and return it. The list must not be empty.
    pub fn set_index(&mut self, i: usize) -> (r: T)
        requires
            old(self)@.list.len() > 0,
        ensures
            final(self)@ == spec_set_index(old(self)@, i as int),
            r == final(self)@.state,
    {
        let length: usize = self.list.len();
        let index: usize = i % length;
        let value = self.list[index].duplicate();
        self.state = value.duplicate();
        value
    }

    /// Move by `delta` positions from the current derived index, wrapping
    /// around both ends of the list, write the selected element into the
    /// state, and return it. The list must not be empty; the bound on its
    /// length only keeps the wrapped intermediate index within machine range.
    pub fn shift(&mut self, delta: i64) -> (r: T)
        requires
            old(self)@.list.len() > 0,
            old(self)@.list.len() <= usize::MAX / 2,
        ensures
            final(self)@ == spec_shift(old(self)@, delta as int),
            r == final(self)@.state,
    {
        let n: i128 = self.list.len() as i128;
        let cur: i128 = self.index() as i128;
        let raw: i128 = cur + (delta as i128);
        match raw.checked_rem_euclid(n) {
            Some(rem) => {
                let wrapped: i128 = rem + n;
                self.set_index(wrapped as usize)
            },
            None => vstd::pervasive::unreached(),
        }
    }

    /// Go to the next value (cyclic).
    pub fn next(&mut self)
        requires
            old(self)@.list.len() > 0,
            old(self)@.list.len() <= usize::MAX / 2,
        ensures
            final(self)@ == spec_shift(old(self)@, 1),
    {
        let _ = self.shift(1);
    }

    /// Go to the previous value (cyclic).
    pub fn prev(&mut self)
        requires
            old(self)@.list.len() > 0,
            old(self)@.list.len() <= usize::MAX / 2,
        ensures
            final(self)@ == spec_shift(old(self)@, -1),
    {
        let _ = self.shift(-1);
    }

    /// The list-change notification: install `list` as the new backing list
    /// and resynchronize the current value, as the change watch does. The
    /// derived index is re-read against the new list and the element now at
    /// that position becomes the current value; when the list shrank below
    /// the old position, the wrap in `set_index` selects a wrapped element
    /// rather than going out of bounds.
    pub fn set_list(&mut self, list: Vec<T>)
        requires
            list@.len() > 0,
        ensures
            final(self)@ == spec_sync(old(self)@, list@),
    {
        self.list = list;
        let i: usize = self.index();
        let _ = self.set_index(i);
    }
}

} // verus!
