//! Thread-confinement cells.
//!
//! An [`iCell`] holds a value that one thread at a time may read, change or
//! destroy, while the cell itself may be passed to any thread. Which thread
//! that is stands in the cell's ownership record, a [`CellGuard`]. A thread
//! that has been handed a cell asks for ownership once; from then on the cell
//! is pinned to it.
//!
//! This crate is the protocol, stated over plain values. Every operation is
//! told which thread is calling, as a [`ThreadIdentity`], and answers from the
//! record alone: nothing here reads a clock, a thread or a lock. The checked
//! operations return an error to a thread that is not the owner; the
//! unchecked ones require the owner, and it is for the caller to make sure of
//! that. What holds of a record over any history of transfer attempts is
//! proved in [`transfer`].
//!
//! [`sendable`] holds two small adapters that put a value behind a shared
//! lock.
#![allow(non_camel_case_types)]

pub mod cell;
pub mod errors;
pub mod sendable;
pub mod transfer;

pub use cell::iCell;
pub use cell::CellGuard;
pub use cell::Teardown;
pub use cell::ThreadIdentity;
pub use errors::FailTakeOwnership;
pub use errors::InvalidThreadAccess;
pub use sendable::SendableOption;
pub use sendable::SendableResult;
