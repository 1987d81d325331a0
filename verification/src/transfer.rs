//! What holds of an ownership record over any run of transfer attempts.
//!
//! A single attempt is [`CellGuard::taken_by`]. Here a whole history of
//! attempts is folded over a record, and the rules that make a cell
//! single-shot are proved of every such history: a frozen record never
//! moves, the first attempt on an open record wins, and nothing succeeds
//! after it.

use vstd::prelude::*;
use crate::cell::CellGuard;
use crate::cell::ThreadIdentity;

verus! {

impl CellGuard {
    /// The record after the threads in `callers` have asked for ownership one
    /// after the other.
    pub open spec fn after_attempts(self, callers: Seq<ThreadIdentity>) -> CellGuard
        decreases callers.len(),
    {
        if callers.len() == 0 {
            self
        } else {
            self.taken_by(callers.first()).after_attempts(callers.drop_first())
        }
    }

    /// How many of the attempts by `callers`, made one after the other,
    /// succeed.
    pub open spec fn transfers(self, callers: Seq<ThreadIdentity>) -> nat
        decreases callers.len(),
    {
        if callers.len() == 0 {
            0
        } else if self.freeze {
            self.taken_by(callers.first()).transfers(callers.drop_first())
        } else {
            1 + self.taken_by(callers.first()).transfers(callers.drop_first())
        }
    }
}

/// A record names one owner: two threads that both own the cell are the same
/// thread.
pub proof fn owner_is_unique(record: CellGuard, one: ThreadIdentity, other: ThreadIdentity)
    requires
        record.owned_by(one),
        record.owned_by(other),
    ensures
        one == other,
{
}

/// A fresh record is owned by the thread it was made for and by no other,
/// whether it starts frozen or not.
pub proof fn creator_is_owner(freeze: bool, creator: ThreadIdentity, thread: ThreadIdentity)
    ensures
        (CellGuard { freeze, thread_id: creator }).owned_by(thread) <==> thread == creator,
{
}

/// An attempt succeeds exactly on an open record, and a record is frozen after
/// any attempt: so a second attempt, by whichever thread, changes nothing.
pub proof fn second_attempt_changes_nothing(
    record: CellGuard,
    first: ThreadIdentity,
    second: ThreadIdentity,
)
    ensures
        record.taken_by(first).freeze,
        record.taken_by(first).taken_by(second) == record.taken_by(first),
{
}

/// A frozen record never moves: whoever asks, and however often, no attempt
/// succeeds and the owner stays the same.
pub proof fn frozen_record_never_moves(record: CellGuard, callers: Seq<ThreadIdentity>)
    requires
        record.freeze,
    ensures
        record.after_attempts(callers) == record,
        record.transfers(callers) == 0,
    decreases callers.len(),
{
    if callers.len() > 0 {
        frozen_record_never_moves(record, callers.drop_first());
    }
}

/// On an open record the first attempt wins: after any run of attempts the
/// record is frozen, its owner is the first thread that asked and no other,
/// and that first attempt is the only one that succeeded.
pub proof fn first_attempt_wins(record: CellGuard, callers: Seq<ThreadIdentity>)
    requires
        !record.freeze,
        callers.len() > 0,
    ensures
        record.after_attempts(callers) == (CellGuard { freeze: true, thread_id: callers.first() }),
        record.transfers(callers) == 1,
        forall|thread: ThreadIdentity|
            record.after_attempts(callers).owned_by(thread) <==> thread == callers.first(),
{
    frozen_record_never_moves(record.taken_by(callers.first()), callers.drop_first());
}

/// A cell changes hands once at most: of any run of attempts on any record,
/// no more than one succeeds.
pub proof fn at_most_one_transfer(record: CellGuard, callers: Seq<ThreadIdentity>)
    ensures
        record.transfers(callers) <= 1,
        record.transfers(callers) == 1 <==> !record.freeze && callers.len() > 0,
{
    if record.freeze {
        frozen_record_never_moves(record, callers);
    } else if callers.len() > 0 {
        first_attempt_wins(record, callers);
    }
}

/// Freezing is for good: a record that is frozen, or that has been asked for
/// at least once, is frozen after any further attempts.
pub proof fn freeze_is_permanent(record: CellGuard, callers: Seq<ThreadIdentity>)
    requires
        record.freeze || callers.len() > 0,
    ensures
        record.after_attempts(callers).freeze,
{
    if record.freeze {
        frozen_record_never_moves(record, callers);
    } else {
        first_attempt_wins(record, callers);
    }
}

} // verus!
