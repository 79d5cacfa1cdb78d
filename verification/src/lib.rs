//! A generic two-slot value tracker.
//!
//! [`CurrentPrevious`] holds the value most recently installed (`current`)
//! beside the value that the last update displaced (`previous`), which is
//! absent after construction, after a reset, and after an explicit clear.
//! History never reaches further than one step back.

use vstd::prelude::*;

verus! {

/// Tracks the value most recently installed together with the value it
/// displaced.
///
/// The current slot always holds a value. The previous slot holds the value
/// that the last [`update`](CurrentPrevious::update) displaced, or `None`
/// after construction, [`reset`](CurrentPrevious::reset), or
/// [`clear_previous`](CurrentPrevious::clear_previous).
#[derive(Clone, Copy, Debug)]
pub struct CurrentPrevious<T> {
    current: T,
    previous: Option<T>,
}

impl<T> CurrentPrevious<T> {
    /// The value most recently installed.
    pub closed spec fn spec_current(self) -> T {
        self.current
    }

    /// The value the last update displaced, or `None` if the previous slot
    /// is empty.
    pub closed spec fn spec_previous(self) -> Option<T> {
        self.previous
    }

    /// The tracker that construction from `initial` yields: `initial` is
    /// current and the previous slot is empty.
    pub closed spec fn spec_new(initial: T) -> Self {
        CurrentPrevious { current: initial, previous: None }
    }

    /// The tracker that an update with `new` yields: `new` becomes current
    /// and the displaced current value fills the previous slot.
    pub closed spec fn spec_update(self, new: T) -> Self {
        CurrentPrevious { current: new, previous: Some(self.current) }
    }

    /// The tracker that a reset with `new` yields: the same as a fresh
    /// construction from `new`; whatever was held before is discarded.
    pub closed spec fn spec_reset(self, new: T) -> Self {
        CurrentPrevious { current: new, previous: None }
    }

    /// The tracker that clearing the previous slot yields: the current
    /// value is kept and the previous slot is emptied.
    pub closed spec fn spec_clear_previous(self) -> Self {
        CurrentPrevious { current: self.current, previous: None }
    }

    /// Creates a tracker whose current value is `initial` and whose
    /// previous slot is empty.
    pub fn new(initial: T) -> (r: Self)
        ensures
            r == Self::spec_new(initial),
            r.spec_current() == initial,
            r.spec_previous() is None,
    {
        Self { current: initial, previous: None }
    }

    /// Returns a reference to the current value.
    pub fn current(&self) -> (r: &T)
        ensures
            *r == self.spec_current(),
    {
        &self.current
    }

    /// Returns a reference to the previous value, or `None` if the previous
    /// slot is empty.
    pub fn previous(&self) -> (r: Option<&T>)
        ensures
            r is Some <==> self.spec_previous() is Some,
            r is Some ==> r->0 == self.spec_previous()->0,
    {
        self.previous.as_ref()
    }

    /// Installs `new` as the current value and moves the displaced current
    /// value into the previous slot, overwriting whatever was there.
    pub fn update(&mut self, new: T)
        ensures
            *final(self) == old(self).spec_update(new),
            final(self).spec_current() == new,
            final(self).spec_previous() == Some(old(self).spec_current()),
    {
        let mut displaced = new;
        core::mem::swap(&mut self.current, &mut displaced);
        self.previous = Some(displaced);
    }

    /// Reinitializes the tracker as if freshly constructed from `new`:
    /// `new` becomes current and the previous slot is emptied. The prior
    /// current value is discarded, not shifted into the previous slot.
    pub fn reset(&mut self, new: T)
        ensures
            *final(self) == old(self).spec_reset(new),
            *final(self) == Self::spec_new(new),
            final(self).spec_current() == new,
            final(self).spec_previous() is None,
    {
        *self = Self::new(new);
    }

    /// Empties the previous slot without touching the current value.
    /// Idempotent.
    pub fn clear_previous(&mut self)
        ensures
            *final(self) == old(self).spec_clear_previous(),
            final(self).spec_current() == old(self).spec_current(),
            final(self).spec_previous() is None,
    {
        self.previous = None;
    }
}

/// Construction: for every initial value `v`, the fresh tracker's current
/// value is `v` and its previous slot is empty.
pub proof fn lemma_construction<T>(v: T)
    ensures
        CurrentPrevious::spec_new(v).spec_current() == v,
        CurrentPrevious::spec_new(v).spec_previous() is None,
{
}

/// Single update: for all `v0`, `v1`, constructing from `v0` and then
/// updating with `v1` leaves `v1` current and `v0` in the previous slot.
pub proof fn lemma_single_update<T>(v0: T, v1: T)
    ensures
        CurrentPrevious::spec_new(v0).spec_update(v1).spec_current() == v1,
        CurrentPrevious::spec_new(v0).spec_update(v1).spec_previous() == Some(v0),
{
}

/// Chained updates: for all `v0`, `v1`, `v2`, constructing from `v0` and
/// then updating with `v1` and `v2` leaves `v2` current and `v1` in the
/// previous slot; `v0` is no longer observable, since the result equals a
/// tracker that never held it.
pub proof fn lemma_chained_updates<T>(v0: T, v1: T, v2: T)
    ensures
        CurrentPrevious::spec_new(v0).spec_update(v1).spec_update(v2).spec_current() == v2,
        CurrentPrevious::spec_new(v0).spec_update(v1).spec_update(v2).spec_previous() == Some(v1),
        CurrentPrevious::spec_new(v0).spec_update(v1).spec_update(v2)
            == CurrentPrevious::spec_new(v1).spec_update(v2),
{
}

/// Reset semantics: for all `v0`, `v1`, `v2`, constructing from `v0`,
/// updating with `v1`, and then resetting with `v2` leaves `v2` current and
/// the previous slot empty: `v1` is discarded, not shifted. A reset gives
/// the same tracker as a fresh construction, whatever the state before it.
pub proof fn lemma_reset<T>(v0: T, v1: T, v2: T)
    ensures
        CurrentPrevious::spec_new(v0).spec_update(v1).spec_reset(v2).spec_current() == v2,
        CurrentPrevious::spec_new(v0).spec_update(v1).spec_reset(v2).spec_previous() is None,
        CurrentPrevious::spec_new(v0).spec_update(v1).spec_reset(v2)
            == CurrentPrevious::spec_new(v2),
{
}

/// Clear semantics: for every tracker `t` — in particular one that has just
/// been updated — clearing the previous slot empties it, leaves the current
/// value unchanged, and clearing again is a no-op.
pub proof fn lemma_clear_previous<T>(t: CurrentPrevious<T>)
    ensures
        t.spec_clear_previous().spec_current() == t.spec_current(),
        t.spec_clear_previous().spec_previous() is None,
        t.spec_clear_previous().spec_clear_previous() == t.spec_clear_previous(),
{
}

} // verus!
