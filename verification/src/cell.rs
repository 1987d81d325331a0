//! The confinement cell and its ownership record.
//!
//! A cell wraps a value together with a record of which thread owns it. The
//! cell itself may travel anywhere; the value is handed out only to the owner.
//! Every operation takes the identity of the calling thread as an argument, so
//! the whole protocol is a function of plain values: the embedding program
//! decides how identities are bound to running threads and how the record is
//! shared between them.

use vstd::prelude::*;
use crate::errors::FailTakeOwnership;
use crate::errors::InvalidThreadAccess;
use vstd::std_specs::cmp::OrdSpec;
use vstd::std_specs::cmp::PartialEqSpec;
use vstd::std_specs::cmp::PartialOrdSpec;
use vstd::string::to_string_from_display_ensures;
use core::cmp::Ordering;
use core::fmt::Debug;
use core::fmt::Display;

verus! {

/// The identity of a thread. Two threads are the same thread exactly when
/// their identities are equal.
#[derive(Clone, Copy, Debug, PartialEq, Eq, Structural, Hash)]
pub struct ThreadIdentity(pub u64);

/// The ownership record of a cell: who may touch the value, and whether the
/// cell can still change hands.
#[derive(Clone, Copy, Debug, PartialEq, Eq, Structural)]
pub struct CellGuard {
    /// Set once ownership has been taken, or from the start for a cell that is
    /// pinned to its creator. Never cleared.
    pub freeze: bool,
    /// The thread that currently owns the cell.
    pub thread_id: ThreadIdentity,
}

/// What is to happen to the value of a cell that is being destroyed.
#[derive(Clone, Copy, Debug, PartialEq, Eq, Structural)]
pub enum Teardown {
    /// The value has nothing to tear down: leave it alone, on any thread.
    Skip,
    /// The owner destroys the cell: tear the value down.
    Run,
    /// Another thread destroys a cell whose value needs tearing down: this is
    /// fatal, and the value must not be touched.
    Abort,
}

impl CellGuard {
    /// Whether `caller` is the recorded owner.
    pub open spec fn owned_by(self, caller: ThreadIdentity) -> bool {
        self.thread_id == caller
    }

    /// The record after `caller` has asked for ownership: a frozen record
    /// stays as it is, an open one is frozen with `caller` as its owner.
    pub open spec fn taken_by(self, caller: ThreadIdentity) -> CellGuard {
        if self.freeze {
            self
        } else {
            CellGuard { freeze: true, thread_id: caller }
        }
    }

    /// The fate of the value when `caller` destroys the cell, given whether
    /// the value has anything to tear down.
    pub open spec fn teardown_for(self, caller: ThreadIdentity, needs_teardown: bool) -> Teardown {
        if !needs_teardown {
            Teardown::Skip
        } else if self.owned_by(caller) {
            Teardown::Run
        } else {
            Teardown::Abort
        }
    }

    /// A record owned by `thread_id`, frozen from the start if `freeze` is set.
    pub fn new(freeze: bool, thread_id: ThreadIdentity) -> (record: Self)
        ensures
            record == (CellGuard { freeze, thread_id }),
    {
        CellGuard { freeze, thread_id }
    }

    /// The thread that owns the cell at this moment.
    pub fn current_owner(&self) -> (owner: ThreadIdentity)
        ensures
            owner == self.thread_id,
    {
        self.thread_id
    }

    /// Whether `caller` is the thread that owns the cell.
    pub fn is_owner(&self, caller: ThreadIdentity) -> (yes: bool)
        ensures
            yes == self.owned_by(caller),
    {
        self.thread_id == caller
    }

    /// Hands the cell to `requesting_thread` unless the record is frozen.
    ///
    /// On success the record is frozen with the new owner; on refusal nothing
    /// changes. So at most one attempt on a record ever succeeds.
    pub fn attempt_transfer(&mut self, requesting_thread: ThreadIdentity) -> (outcome: Result<
        (),
        FailTakeOwnership,
    >)
        ensures
            outcome is Ok <==> !old(self).freeze,
            *final(self) == old(self).taken_by(requesting_thread),
            outcome is Err ==> *final(self) == *old(self),
            outcome is Ok ==> final(self).freeze && final(self).thread_id == requesting_thread,
    {
        if self.freeze {
            return Err(FailTakeOwnership);
        }
        self.freeze = true;
        self.thread_id = requesting_thread;
        Ok(())
    }

    /// Decides what becomes of the value when `caller` destroys the cell.
    pub fn teardown(&self, caller: ThreadIdentity, needs_teardown: bool) -> (verdict: Teardown)
        ensures
            verdict == self.teardown_for(caller, needs_teardown),
            verdict == Teardown::Abort <==> needs_teardown && !self.owned_by(caller),
            verdict == Teardown::Run <==> needs_teardown && self.owned_by(caller),
    {
        if !needs_teardown {
            Teardown::Skip
        } else if self.is_owner(caller) {
            Teardown::Run
        } else {
            Teardown::Abort
        }
    }
}

/// A value confined to one thread at a time.
///
/// The cell can be moved freely; moving it does not change who owns it. A
/// thread that receives the cell must take ownership before it can reach the
/// value, and that can be done once at most: a cell is either pinned to its
/// creator, or handed over a single time and pinned to the receiver.
pub struct iCell<T> {
    value: T,
    guard: CellGuard,
}

impl<T> iCell<T> {
    /// The value inside the cell.
    pub closed spec fn value(&self) -> T {
        self.value
    }

    /// The ownership record of the cell.
    pub closed spec fn guard(&self) -> CellGuard {
        self.guard
    }

    /// Whether `caller` may reach the value: it is the recorded owner.
    pub open spec fn valid_for(&self, caller: ThreadIdentity) -> bool {
        self.guard().owned_by(caller)
    }

    /// Wraps `value` in a cell owned by `caller`, the creating thread. With
    /// `freeze` set the cell is pinned to its creator for good.
    pub fn new(value: T, freeze: bool, caller: ThreadIdentity) -> (cell: Self)
        ensures
            cell.value() == value,
            cell.guard() == (CellGuard { freeze, thread_id: caller }),
            cell.valid_for(caller),
    {
        iCell { value, guard: CellGuard::new(freeze, caller) }
    }

    /// Makes `caller` the owner, if the cell has not been frozen yet.
    ///
    /// It is the thread that wants the cell that calls this. The first call on
    /// an unfrozen cell succeeds and freezes it; every other call fails and
    /// leaves the cell as it was.
    pub fn take_ownership(&mut self, caller: ThreadIdentity) -> (outcome: Result<
        (),
        FailTakeOwnership,
    >)
        ensures
            outcome is Ok <==> !old(self).guard().freeze,
            final(self).value() == old(self).value(),
            final(self).guard() == old(self).guard().taken_by(caller),
            final(self).guard().freeze,
            outcome is Err ==> *final(self) == *old(self),
            outcome is Ok ==> forall|thread: ThreadIdentity|
                final(self).valid_for(thread) <==> thread == caller,
    {
        self.guard.attempt_transfer(caller)
    }

    /// Whether `caller` owns the cell. Any thread may ask.
    pub fn is_valid(&self, caller: ThreadIdentity) -> (yes: bool)
        ensures
            yes == self.valid_for(caller),
    {
        self.guard.is_owner(caller)
    }

    /// Takes the value out of the cell. Only the owner may do so.
    pub fn into_inner(self, caller: ThreadIdentity) -> (value: T)
        requires
            self.valid_for(caller),
        ensures
            value == self.value(),
    {
        self.value
    }

    /// Takes the value out if `caller` owns the cell, and gives the cell back
    /// untouched if not.
    pub fn try_into_inner(self, caller: ThreadIdentity) -> (outcome: Result<T, Self>)
        ensures
            outcome is Ok <==> self.valid_for(caller),
            outcome matches Ok(value) ==> value == self.value(),
            outcome matches Err(cell) ==> cell == self,
    {
        if self.is_valid(caller) {
            Ok(self.into_inner(caller))
        } else {
            Err(self)
        }
    }

    /// The value, for the owner.
    pub fn get(&self, caller: ThreadIdentity) -> (value: &T)
        requires
            self.valid_for(caller),
        ensures
            *value == self.value(),
    {
        &self.value
    }

    /// The value, for the owner to change. Ownership is not affected by what
    /// is written.
    pub fn get_mut(&mut self, caller: ThreadIdentity) -> (value: &mut T)
        requires
            old(self).valid_for(caller),
        ensures
            *value == old(self).value(),
            final(self).value() == *final(value),
            final(self).guard() == old(self).guard(),
    {
        &mut self.value
    }

    /// The value if `caller` owns the cell, an error if not.
    pub fn try_get(&self, caller: ThreadIdentity) -> (outcome: Result<&T, InvalidThreadAccess>)
        ensures
            outcome is Ok <==> self.valid_for(caller),
            outcome matches Ok(value) ==> *value == self.value(),
    {
        if self.is_valid(caller) {
            Ok(&self.value)
        } else {
            Err(InvalidThreadAccess)
        }
    }

    /// The value to change if `caller` owns the cell, an error if not. On an
    /// error the cell is left as it was.
    pub fn try_get_mut(&mut self, caller: ThreadIdentity) -> (outcome: Result<
        &mut T,
        InvalidThreadAccess,
    >)
        ensures
            outcome is Ok <==> old(self).valid_for(caller),
            outcome matches Ok(value) ==> *value == old(self).value(),
            outcome matches Ok(value) ==> final(self).value() == *final(value),
            outcome is Ok ==> final(self).guard() == old(self).guard(),
            outcome is Err ==> *final(self) == *old(self),
    {
        if self.is_valid(caller) {
            Ok(self.get_mut(caller))
        } else {
            Err(InvalidThreadAccess)
        }
    }

    /// Decides what becomes of the value when `caller` destroys the cell.
    ///
    /// Whether a value of type `T` has anything to tear down is asked of
    /// [`core::mem::needs_drop`]; [`CellGuard::teardown`] decides from the
    /// answer. The owner never gets [`Teardown::Abort`], and no other thread
    /// ever gets [`Teardown::Run`].
    pub fn teardown(&self, caller: ThreadIdentity) -> (verdict: Teardown)
        ensures
            exists|needed: bool| #[trigger]
                needs_teardown::<T>(needed) && verdict == self.guard().teardown_for(caller, needed),
            self.valid_for(caller) ==> verdict != Teardown::Abort,
            !self.valid_for(caller) ==> verdict != Teardown::Run,
    {
        let needed = core::mem::needs_drop::<T>();
        proof {
            assert(needs_teardown::<T>(needed));
        }
        self.guard.teardown(caller, needed)
    }

    /// Wraps `value` in an unfrozen cell owned by `caller`.
    pub fn from(value: T, caller: ThreadIdentity) -> (cell: Self)
        ensures
            cell.value() == value,
            cell.guard() == (CellGuard { freeze: false, thread_id: caller }),
    {
        iCell::new(value, false, caller)
    }

    /// An unfrozen cell owned by `caller` around the default value of `T`.
    pub fn default(caller: ThreadIdentity) -> (cell: Self) where T: Default
        ensures
            T::default.ensures((), cell.value()),
            cell.guard() == (CellGuard { freeze: false, thread_id: caller }),
    {
        iCell::new(T::default(), false, caller)
    }

    /// A new cell around a clone of the value. Only the owner may clone.
    ///
    /// The copy has a record of its own, unfrozen and owned by `caller`,
    /// whatever the record of this cell says: the two cells change hands
    /// independently of each other.
    pub fn clone(&self, caller: ThreadIdentity) -> (copy: Self) where T: Clone
        requires
            self.valid_for(caller),
        ensures
            cloned::<T>(self.value(), copy.value()),
            copy.guard() == (CellGuard { freeze: false, thread_id: caller }),
    {
        iCell::new(self.get(caller).clone(), false, caller)
    }

    /// Whether the two values are equal. `caller` must own both cells.
    pub fn eq(&self, other: &iCell<T>, caller: ThreadIdentity) -> (same: bool) where T: PartialEq
        requires
            self.valid_for(caller),
            other.valid_for(caller),
        ensures
            call_ensures(T::eq, (&self.value(), &other.value()), same),
            T::obeys_eq_spec() ==> same == self.value().eq_spec(&other.value()),
    {
        *self.get(caller) == *other.get(caller)
    }

    /// How the two values compare, if they do. `caller` must own both cells.
    pub fn partial_cmp(&self, other: &iCell<T>, caller: ThreadIdentity) -> (order: Option<
        Ordering,
    >) where T: PartialOrd
        requires
            self.valid_for(caller),
            other.valid_for(caller),
        ensures
            call_ensures(T::partial_cmp, (&self.value(), &other.value()), order),
            T::obeys_partial_cmp_spec() ==> order == self.value().partial_cmp_spec(&other.value()),
    {
        self.get(caller).partial_cmp(other.get(caller))
    }

    /// Whether this value is less than the other. `caller` must own both cells.
    pub fn lt(&self, other: &iCell<T>, caller: ThreadIdentity) -> (yes: bool) where T: PartialOrd
        requires
            self.valid_for(caller),
            other.valid_for(caller),
        ensures
            call_ensures(T::lt, (&self.value(), &other.value()), yes),
            T::obeys_partial_cmp_spec() ==> (yes <==> self.value().partial_cmp_spec(&other.value())
                == Some(Ordering::Less)),
    {
        *self.get(caller) < *other.get(caller)
    }

    /// Whether this value is at most the other. `caller` must own both cells.
    pub fn le(&self, other: &iCell<T>, caller: ThreadIdentity) -> (yes: bool) where T: PartialOrd
        requires
            self.valid_for(caller),
            other.valid_for(caller),
        ensures
            call_ensures(T::le, (&self.value(), &other.value()), yes),
            T::obeys_partial_cmp_spec() ==> (yes <==> self.value().partial_cmp_spec(&other.value())
                matches Some(Ordering::Less | Ordering::Equal)),
    {
        *self.get(caller) <= *other.get(caller)
    }

    /// Whether this value is greater than the other. `caller` must own both
    /// cells.
    pub fn gt(&self, other: &iCell<T>, caller: ThreadIdentity) -> (yes: bool) where T: PartialOrd
        requires
            self.valid_for(caller),
            other.valid_for(caller),
        ensures
            call_ensures(T::gt, (&self.value(), &other.value()), yes),
            T::obeys_partial_cmp_spec() ==> (yes <==> self.value().partial_cmp_spec(&other.value())
                == Some(Ordering::Greater)),
    {
        *self.get(caller) > *other.get(caller)
    }

    /// Whether this value is at least the other. `caller` must own both cells.
    pub fn ge(&self, other: &iCell<T>, caller: ThreadIdentity) -> (yes: bool) where T: PartialOrd
        requires
            self.valid_for(caller),
            other.valid_for(caller),
        ensures
            call_ensures(T::ge, (&self.value(), &other.value()), yes),
            T::obeys_partial_cmp_spec() ==> (yes <==> self.value().partial_cmp_spec(&other.value())
                matches Some(Ordering::Greater | Ordering::Equal)),
    {
        *self.get(caller) >= *other.get(caller)
    }

    /// How the two values are ordered. `caller` must own both cells.
    pub fn cmp(&self, other: &iCell<T>, caller: ThreadIdentity) -> (order: Ordering) where T: Ord
        requires
            self.valid_for(caller),
            other.valid_for(caller),
        ensures
            call_ensures(T::cmp, (&self.value(), &other.value()), order),
            T::obeys_cmp_spec() ==> order == self.value().cmp_spec(&other.value()),
    {
        self.get(caller).cmp(other.get(caller))
    }

    /// The value as `T` displays it. Only the owner may ask.
    pub fn to_string(&self, caller: ThreadIdentity) -> (text: String) where T: Display
        requires
            self.valid_for(caller),
        ensures
            to_string_from_display_ensures::<T>(&self.value(), text),
    {
        self.get(caller).to_string()
    }

    /// The cell as shown for diagnosis. Any thread may ask: the owner sees the
    /// value as `T` prints it for debugging, every other thread sees a
    /// placeholder in its place.
    pub fn debug_string(&self, caller: ThreadIdentity) -> (text: String) where T: Debug
        ensures
            !self.valid_for(caller) ==> text@ == debug_layout(invalid_placeholder()),
            self.valid_for(caller) ==> exists|inner: Seq<char>|
                #[trigger] debug_prints(self.value(), inner) && text@ == debug_layout(inner),
    {
        match self.try_get(caller) {
            Ok(value) => {
                let inner = debug_text(value);
                proof {
                    assert(debug_prints(self.value(), inner@));
                }
                debug_frame(inner.as_str())
            },
            Err(_) => debug_frame("<invalid thread>"),
        }
    }
}

/// The diagnostic text of a cell, around the text `inner` that stands for its
/// value.
pub open spec fn debug_layout(inner: Seq<char>) -> Seq<char> {
    "Fragile { value: "@ + inner + " }"@
}

/// What stands for the value when a thread that does not own the cell asks
/// for its diagnostic text.
pub open spec fn invalid_placeholder() -> Seq<char> {
    "<invalid thread>"@
}

/// Whether `needed` is what `core::mem::needs_drop` answers for `T`: whether
/// a value of that type has anything to tear down.
pub open spec fn needs_teardown<T>(needed: bool) -> bool {
    call_ensures(core::mem::needs_drop::<T>, (), needed)
}

/// Whether `text` is what printing `value` through its `Debug` impl gave.
pub closed spec fn debug_prints<T: Debug>(value: T, text: Seq<char>) -> bool {
    exists|printed: String| #[trigger]
        call_ensures(debug_text::<T>, (&value,), printed) && printed@ == text
}

/// Lays out the diagnostic text of a cell around `inner`.
pub fn debug_frame(inner: &str) -> (text: String)
    ensures
        text@ == debug_layout(inner@),
{
    let mut text = String::from_str("Fragile { value: ");
    text.append(inner);
    text.append(" }");
    text
}

/// `core::mem::needs_drop::<T>()` tells whether dropping a value of type `T`
/// may do anything. Nothing is claimed of the answer.
pub assume_specification<T: ?Sized>[ core::mem::needs_drop::<T> ]() -> (needed: bool)
;

/// Calls `format!("{:?}", value)`, which prints `value` through its `Debug`
/// impl. Nothing is claimed of the text.
#[verifier::external_body]
fn debug_text<T: Debug>(value: &T) -> (text: String) {
    format!("{:?}", value)
}

} // verus!
