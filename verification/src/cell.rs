//! The dynamic borrow cell: one native instance plus a borrow-state counter.
//!
//! The cell enforces the host language's aliasing discipline at runtime:
//! either any number of shared accesses or exactly one exclusive access is
//! live at a time.  There is no queueing or blocking — the scripting call
//! stack is synchronous, so a conflicting acquire fails immediately without
//! mutating the state, and the caller reports it as an ordinary error.

use vstd::prelude::*;

use crate::value::Value;

verus! {

/// The borrow state of one exposed instance.
#[derive(Debug, Clone, Copy, PartialEq, Eq, Structural)]
pub enum BorrowState {
    /// No borrow is live.
    Free,
    /// The given number of shared borrows is live; always at least one.
    Shared(usize),
    /// Exactly one exclusive borrow is live.
    Exclusive,
}

impl BorrowState {
    /// Well-formedness: a shared state counts at least one live borrow.
    pub open spec fn wf(self) -> bool {
        self matches BorrowState::Shared(n) ==> n >= 1
    }

    /// Whether a shared acquire succeeds: no exclusive borrow is live and the
    /// counter has room for one more.
    pub open spec fn shared_ok(self) -> bool {
        self is Free || (self matches BorrowState::Shared(n) && n < usize::MAX)
    }

    /// The state after a successful shared acquire.
    pub open spec fn after_shared_acquire(self) -> BorrowState {
        match self {
            BorrowState::Shared(n) => BorrowState::Shared((n + 1) as usize),
            _ => BorrowState::Shared(1),
        }
    }

    /// The state after a shared release.
    pub open spec fn after_shared_release(self) -> BorrowState {
        match self {
            BorrowState::Shared(n) => if n <= 1 {
                BorrowState::Free
            } else {
                BorrowState::Shared((n - 1) as usize)
            },
            _ => self,
        }
    }

    /// Whether an exclusive acquire succeeds: no borrow of any kind is live.
    pub open spec fn exclusive_ok(self) -> bool {
        self is Free
    }
}

/// A shared acquire held for no longer than its release leaves the state as it
/// found it; in particular a borrow taken from the free state and then
/// released restores the free state, from which an exclusive acquire succeeds.
pub proof fn lemma_shared_roundtrip(s: BorrowState)
    requires
        s.wf(),
        s.shared_ok(),
    ensures
        s.after_shared_acquire().after_shared_release() == s,
        s is Free ==> s.after_shared_acquire().after_shared_release().exclusive_ok(),
{
}

/// Nested conflicts are detected: while any shared borrow is live an exclusive
/// acquire on the same cell fails, and while an exclusive borrow is live both
/// shared and exclusive acquires on the same cell fail.
pub proof fn lemma_nested_borrow_conflict(s: BorrowState)
    ensures
        s is Shared ==> !s.exclusive_ok(),
        s is Exclusive ==> !s.shared_ok() && !s.exclusive_ok(),
{
}

/// Wraps one native instance together with its borrow state.
///
/// The instance itself is modelled as one engine value; marshalling between
/// native representations and engine values belongs to the conversion
/// collaborator outside this core.
#[derive(Debug)]
pub struct UserDataCell {
    /// The wrapped instance.
    pub(crate) value: Value,
    /// The live-borrow bookkeeping for the instance.
    pub(crate) state: BorrowState,
}

impl UserDataCell {
    /// The wrapped instance, for contracts.
    pub open(crate) spec fn value_spec(self) -> Value {
        self.value
    }

    /// The borrow state, for contracts.
    pub open(crate) spec fn state_spec(self) -> BorrowState {
        self.state
    }

    /// Wraps a fresh instance; no borrow is live.
    pub fn new(value: Value) -> (r: UserDataCell)
        ensures
            r.value_spec() == value,
            r.state_spec() == BorrowState::Free,
    {
        UserDataCell { value, state: BorrowState::Free }
    }

    /// Tries to take one more shared borrow.  On conflict the state is left
    /// untouched and `false` comes back.
    pub fn acquire_shared(&mut self) -> (r: bool)
        ensures
            r == old(self).state_spec().shared_ok(),
            final(self).value_spec() == old(self).value_spec(),
            final(self).state_spec() == if r {
                old(self).state_spec().after_shared_acquire()
            } else {
                old(self).state_spec()
            },
    {
        match self.state {
            BorrowState::Free => {
                self.state = BorrowState::Shared(1);
                true
            },
            BorrowState::Shared(n) => {
                if n < usize::MAX {
                    self.state = BorrowState::Shared(n + 1);
                    true
                } else {
                    false
                }
            },
            BorrowState::Exclusive => false,
        }
    }

    /// Releases one shared borrow.  Releasing in any other state leaves the
    /// cell untouched.
    pub fn release_shared(&mut self)
        ensures
            final(self).value_spec() == old(self).value_spec(),
            final(self).state_spec() == old(self).state_spec().after_shared_release(),
    {
        match self.state {
            BorrowState::Shared(n) => {
                if n <= 1 {
                    self.state = BorrowState::Free;
                } else {
                    self.state = BorrowState::Shared(n - 1);
                }
            },
            _ => {},
        }
    }

    /// Tries to take the exclusive borrow.  On conflict the state is left
    /// untouched and `false` comes back.
    pub fn acquire_exclusive(&mut self) -> (r: bool)
        ensures
            r == old(self).state_spec().exclusive_ok(),
            final(self).value_spec() == old(self).value_spec(),
            final(self).state_spec() == if r {
                BorrowState::Exclusive
            } else {
                old(self).state_spec()
            },
    {
        match self.state {
            BorrowState::Free => {
                self.state = BorrowState::Exclusive;
                true
            },
            _ => false,
        }
    }

    /// Releases the exclusive borrow, storing back the possibly changed
    /// instance.  Releasing in any other state leaves the cell untouched.
    pub fn release_exclusive(&mut self, value: Value)
        ensures
            if old(self).state_spec() is Exclusive {
                final(self).value_spec() == value && final(self).state_spec() == BorrowState::Free
            } else {
                *final(self) == *old(self)
            },
    {
        match self.state {
            BorrowState::Exclusive => {
                self.value = value;
                self.state = BorrowState::Free;
            },
            _ => {},
        }
    }
}

} // verus!
