//! An optional value and a two-way result whose payload sits behind a shared
//! lock, so that it can be handed to other threads.
//!
//! Both types only change the shape of data: they wrap a value in
//! `Arc<Mutex<_>>` on the way in and hand the same handle out again. A handle
//! is known by where it came from, not by what it guards: whoever holds it may
//! lock it and write.

use vstd::prelude::*;
use vstd::std_specs::convert::FromSpecImpl;
use std::sync::Arc;
use std::sync::Mutex;

verus! {

/// `std::sync::Mutex<T>`, carried as an opaque handle: nothing here looks
/// inside one.
#[verifier::external_type_specification]
#[verifier::external_body]
#[verifier::reject_recursive_types(T)]
pub struct ExMutex<T: ?Sized>(Mutex<T>);

/// `Mutex::new(t)` makes a lock around `t`. Nothing is claimed of the lock;
/// [`made_from`] names the handles that this call gave.
pub assume_specification<T>[ Mutex::<T>::new ](t: T) -> (lock: Mutex<T>)
;

/// Whether `handle` is a lock that `Mutex::new` made around `value`.
pub open spec fn made_from<T>(handle: Arc<Mutex<T>>, value: T) -> bool {
    call_ensures(Mutex::<T>::new, (value,), *handle)
}

/// Either a value behind a shared lock, or nothing.
#[verifier::reject_recursive_types(T)]
pub enum SendableOption<T> {
    /// A value, behind the lock that is shared through this handle.
    Value(Arc<Mutex<T>>),
    /// No value.
    Nothing,
}

impl<T> SendableOption<T> {
    /// Puts `value` behind a new lock.
    pub fn new(value: T) -> (made: Self)
        ensures
            made is Value,
            made_from(made->Value_0, value),
    {
        SendableOption::Value(Arc::new(Mutex::new(value)))
    }

    /// Whether there is a value.
    pub fn is_some(&self) -> (yes: bool)
        ensures
            yes == (self is Value),
    {
        matches!(self, SendableOption::Value(_))
    }

    /// Whether there is no value.
    pub fn is_none(&self) -> (yes: bool)
        ensures
            yes == (self is Nothing),
    {
        matches!(self, SendableOption::Nothing)
    }

    /// The handle. There must be a value.
    pub fn unwrap(self) -> (handle: Arc<Mutex<T>>)
        requires
            self is Value,
        ensures
            handle == self->Value_0,
    {
        match self {
            SendableOption::Value(arc) => arc,
            SendableOption::Nothing => unreached(),
        }
    }

    /// The handle, or a new lock around `default` where there is no value.
    pub fn unwrap_or(self, default: T) -> (handle: Arc<Mutex<T>>)
        ensures
            self is Value ==> handle == self->Value_0,
            self is Nothing ==> made_from(handle, default),
    {
        match self {
            SendableOption::Value(arc) => arc,
            SendableOption::Nothing => Arc::new(Mutex::new(default)),
        }
    }

    /// The handle, or a new lock around what `f` returns where there is no
    /// value. `f` is called in that case only.
    pub fn unwrap_or_else<F>(self, f: F) -> (handle: Arc<Mutex<T>>) where F: FnOnce() -> T
        requires
            self is Nothing ==> f.requires(()),
        ensures
            self is Value ==> handle == self->Value_0,
            self is Nothing ==> exists|value: T| #[trigger]
                f.ensures((), value) && made_from(handle, value),
    {
        match self {
            SendableOption::Value(arc) => arc,
            SendableOption::Nothing => Arc::new(Mutex::new(f())),
        }
    }

    /// The handle as a success. There must be a value.
    pub fn ok<E>(self) -> (outcome: Result<Arc<Mutex<T>>, E>)
        requires
            self is Value,
        ensures
            outcome == Ok::<Arc<Mutex<T>>, E>(self->Value_0),
    {
        match self {
            SendableOption::Value(arc) => Ok(arc),
            SendableOption::Nothing => unreached(),
        }
    }

    /// The handle as a success, or `err` as the failure where there is no
    /// value.
    pub fn ok_or<E>(self, err: E) -> (outcome: Result<Arc<Mutex<T>>, E>)
        ensures
            self is Value ==> outcome == Ok::<Arc<Mutex<T>>, E>(self->Value_0),
            self is Nothing ==> outcome == Err::<Arc<Mutex<T>>, E>(err),
    {
        match self {
            SendableOption::Value(arc) => Ok(arc),
            SendableOption::Nothing => Err(err),
        }
    }

    /// The handle as a success, or what `f` returns as the failure where there
    /// is no value. `f` is called in that case only.
    pub fn ok_or_else<F, E>(self, f: F) -> (outcome: Result<Arc<Mutex<T>>, E>) where
        F: FnOnce() -> E,

        requires
            self is Nothing ==> f.requires(()),
        ensures
            self is Value ==> outcome == Ok::<Arc<Mutex<T>>, E>(self->Value_0),
            self is Nothing ==> outcome is Err && f.ensures((), outcome->Err_0),
    {
        match self {
            SendableOption::Value(arc) => Ok(arc),
            SendableOption::Nothing => Err(f()),
        }
    }
}

impl<T> Clone for SendableOption<T> {
    /// Another handle on the same lock, or nothing again.
    fn clone(&self) -> (copy: Self)
        ensures
            copy == *self,
    {
        match self {
            SendableOption::Value(arc) => SendableOption::Value(Arc::clone(arc)),
            SendableOption::Nothing => SendableOption::Nothing,
        }
    }
}

impl<T> From<Option<T>> for SendableOption<T> {
    /// Puts the value of `option`, if it has one, behind a new lock.
    fn from(option: Option<T>) -> (made: Self)
        ensures
            made is Value <==> option is Some,
            option is Some ==> made_from(made->Value_0, option->Some_0),
    {
        match option {
            Some(value) => SendableOption::Value(Arc::new(Mutex::new(value))),
            None => SendableOption::Nothing,
        }
    }
}

/// Each conversion makes a lock of its own, so no function of `option` alone
/// gives its result: what is promised stands on `from` itself.
impl<T> FromSpecImpl<Option<T>> for SendableOption<T> {
    open spec fn obeys_from_spec() -> bool {
        false
    }

    open spec fn from_spec(option: Option<T>) -> Self {
        arbitrary()
    }
}

impl<T> From<SendableOption<T>> for Option<Arc<Mutex<T>>> {
    /// The handle, if there is one.
    fn from(option: SendableOption<T>) -> (handle: Self) {
        match option {
            SendableOption::Value(arc) => Some(arc),
            SendableOption::Nothing => None,
        }
    }
}

impl<T> FromSpecImpl<SendableOption<T>> for Option<Arc<Mutex<T>>> {
    open spec fn obeys_from_spec() -> bool {
        true
    }

    open spec fn from_spec(option: SendableOption<T>) -> Self {
        match option {
            SendableOption::Value(arc) => Some(arc),
            SendableOption::Nothing => None,
        }
    }
}

/// Either a value behind a shared lock, or a failure.
#[verifier::reject_recursive_types(T)]
pub enum SendableResult<T, E> {
    /// A value, behind the lock that is shared through this handle.
    Success(Arc<Mutex<T>>),
    /// A failure.
    Failure(E),
}

impl<T, E> SendableResult<T, E> {
    /// A success: `value` behind a new lock.
    pub fn new(value: T) -> (made: Self)
        ensures
            made is Success,
            made_from(made->Success_0, value),
    {
        SendableResult::Success(Arc::new(Mutex::new(value)))
    }

    /// Whether this is a success.
    pub fn is_ok(&self) -> (yes: bool)
        ensures
            yes == (self is Success),
    {
        matches!(self, SendableResult::Success(_))
    }

    /// Whether this is a failure.
    pub fn is_err(&self) -> (yes: bool)
        ensures
            yes == (self is Failure),
    {
        matches!(self, SendableResult::Failure(_))
    }

    /// The handle. This must be a success.
    pub fn unwrap(self) -> (handle: Arc<Mutex<T>>)
        requires
            self is Success,
        ensures
            handle == self->Success_0,
    {
        match self {
            SendableResult::Success(arc) => arc,
            SendableResult::Failure(_) => unreached(),
        }
    }

    /// The failure. This must be a failure.
    pub fn unwrap_err(self) -> (err: E)
        requires
            self is Failure,
        ensures
            err == self->Failure_0,
    {
        match self {
            SendableResult::Success(_) => unreached(),
            SendableResult::Failure(err) => err,
        }
    }

    /// The handle, or a new lock around `default` for a failure.
    pub fn unwrap_or(self, default: T) -> (handle: Arc<Mutex<T>>)
        ensures
            self is Success ==> handle == self->Success_0,
            self is Failure ==> made_from(handle, default),
    {
        match self {
            SendableResult::Success(arc) => arc,
            SendableResult::Failure(_) => Arc::new(Mutex::new(default)),
        }
    }

    /// The handle, or a new lock around what `f` returns for a failure. `f` is
    /// called in that case only.
    pub fn unwrap_or_else<F>(self, f: F) -> (handle: Arc<Mutex<T>>) where F: FnOnce() -> T
        requires
            self is Failure ==> f.requires(()),
        ensures
            self is Success ==> handle == self->Success_0,
            self is Failure ==> exists|value: T| #[trigger]
                f.ensures((), value) && made_from(handle, value),
    {
        match self {
            SendableResult::Success(arc) => arc,
            SendableResult::Failure(_) => Arc::new(Mutex::new(f())),
        }
    }

    /// The handle of a success; nothing for a failure.
    pub fn ok(self) -> (handle: Option<Arc<Mutex<T>>>)
        ensures
            self is Success ==> handle == Some(self->Success_0),
            self is Failure ==> handle is None,
    {
        match self {
            SendableResult::Success(arc) => Some(arc),
            SendableResult::Failure(_) => None,
        }
    }

    /// The failure; nothing for a success.
    pub fn err(self) -> (err: Option<E>)
        ensures
            self is Failure ==> err == Some(self->Failure_0),
            self is Success ==> err is None,
    {
        match self {
            SendableResult::Success(_) => None,
            SendableResult::Failure(err) => Some(err),
        }
    }
}

impl<T, E: Clone> Clone for SendableResult<T, E> {
    /// Another handle on the same lock, or a clone of the failure.
    fn clone(&self) -> (copy: Self)
        ensures
            self is Success ==> copy == *self,
            self is Failure ==> copy is Failure && cloned::<E>(self->Failure_0, copy->Failure_0),
    {
        match self {
            SendableResult::Success(arc) => SendableResult::Success(Arc::clone(arc)),
            SendableResult::Failure(err) => SendableResult::Failure(err.clone()),
        }
    }
}

impl<T, E> From<Result<T, E>> for SendableResult<T, E> {
    /// Puts the value of a success behind a new lock; a failure stays as it is.
    fn from(value: Result<T, E>) -> (made: Self)
        ensures
            made is Success <==> value is Ok,
            value is Ok ==> made_from(made->Success_0, value->Ok_0),
            value is Err ==> made == SendableResult::<T, E>::Failure(value->Err_0),
    {
        match value {
            Ok(value) => SendableResult::Success(Arc::new(Mutex::new(value))),
            Err(err) => SendableResult::Failure(err),
        }
    }
}

/// Each conversion of a success makes a lock of its own, so no function of
/// `value` alone gives its result: what is promised stands on `from` itself.
impl<T, E> FromSpecImpl<Result<T, E>> for SendableResult<T, E> {
    open spec fn obeys_from_spec() -> bool {
        false
    }

    open spec fn from_spec(value: Result<T, E>) -> Self {
        arbitrary()
    }
}

impl<T, E> From<SendableResult<T, E>> for Result<Arc<Mutex<T>>, E> {
    /// The handle of a success, or the failure.
    fn from(value: SendableResult<T, E>) -> (outcome: Self) {
        match value {
            SendableResult::Success(arc) => Ok(arc),
            SendableResult::Failure(err) => Err(err),
        }
    }
}

impl<T, E> FromSpecImpl<SendableResult<T, E>> for Result<Arc<Mutex<T>>, E> {
    open spec fn obeys_from_spec() -> bool {
        true
    }

    open spec fn from_spec(value: SendableResult<T, E>) -> Self {
        match value {
            SendableResult::Success(arc) => Ok(arc),
            SendableResult::Failure(err) => Err(err),
        }
    }
}

} // verus!
