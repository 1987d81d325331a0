use ibag::iCell;
use ibag::CellGuard;
use ibag::FailTakeOwnership;
use ibag::InvalidThreadAccess;
use ibag::Teardown;
use ibag::ThreadIdentity;
use std::cell::Cell;
use std::cmp::Ordering;
use std::rc::Rc;

const HERE: ThreadIdentity = ThreadIdentity(10);
const ELSEWHERE: ThreadIdentity = ThreadIdentity(11);

/// Notes in a shared flag that it has been dropped.
struct Noisy(Rc<Cell<bool>>);

impl Drop for Noisy {
    fn drop(&mut self) {
        self.0.set(true);
    }
}

#[test]
fn test_basic() {
    let val = iCell::new(true, false, HERE);
    assert_eq!(val.to_string(HERE), "true");
    assert_eq!(val.get(HERE), &true);
    assert!(val.try_get(HERE).is_ok());
    assert!(val.try_get(ELSEWHERE).is_err());
}

#[test]
fn test_mut() {
    let mut val = iCell::new(true, false, HERE);
    *val.get_mut(HERE) = false;
    assert_eq!(val.to_string(HERE), "false");
    assert_eq!(val.get(HERE), &false);
}

#[test]
#[should_panic]
fn test_access_other_thread() {
    let val = iCell::new(true, false, HERE);
    // the unchecked accessor is for the owner alone: a caller that cannot
    // know checks first, and gives up where the check fails
    if !val.is_valid(ELSEWHERE) {
        panic!("trying to access wrapped value in fragile container from incorrect thread.");
    }
    val.get(ELSEWHERE);
}

#[test]
fn test_noop_drop_elsewhere() {
    let val = iCell::new(true, false, HERE);
    assert!(val.try_get(ELSEWHERE).is_err());
    // a bool has nothing to tear down, so any thread may let the cell go
    assert_eq!(val.teardown(ELSEWHERE), Teardown::Skip);
    assert_eq!(val.teardown(HERE), Teardown::Skip);
}

#[test]
fn test_panic_on_drop_elsewhere() {
    let was_called = Rc::new(Cell::new(false));
    let val = iCell::new(Noisy(was_called.clone()), false, HERE);
    assert!(val.try_get(ELSEWHERE).is_err());
    assert_eq!(val.teardown(ELSEWHERE), Teardown::Abort);
    assert!(!was_called.get());
    assert_eq!(val.teardown(HERE), Teardown::Run);
    std::mem::forget(val);
    assert!(!was_called.get());
}

#[test]
fn test_rc_sending() {
    let val = iCell::new(Rc::new(true), false, HERE);
    // away and back again, without ownership changing
    assert!(val.try_get(ELSEWHERE).is_err());
    let rv = val;
    assert!(**rv.get(HERE));
}

#[test]
fn test_rc_sending_take_ownership() {
    let sender = ThreadIdentity(12);
    let val = iCell::new(Rc::new(true), false, HERE);
    assert!(val.try_get(sender).is_err());
    let mut rv = val;
    let r = rv.take_ownership(ELSEWHERE);
    match r {
        Ok(_) => {}
        Err(_) => panic!("failed to take ownership"),
    }
    assert!(**rv.get(ELSEWHERE));
}

#[test]
fn record_operations() {
    let mut record = CellGuard::new(false, HERE);
    assert_eq!(record, CellGuard { freeze: false, thread_id: HERE });
    assert_eq!(record.current_owner(), HERE);
    assert!(record.is_owner(HERE));
    assert!(!record.is_owner(ELSEWHERE));

    assert_eq!(record.attempt_transfer(ELSEWHERE), Ok(()));
    assert_eq!(record, CellGuard { freeze: true, thread_id: ELSEWHERE });
    assert_eq!(record.current_owner(), ELSEWHERE);

    assert_eq!(record.attempt_transfer(HERE), Err(FailTakeOwnership));
    assert_eq!(record, CellGuard { freeze: true, thread_id: ELSEWHERE });
}

#[test]
fn frozen_record_refuses_everyone() {
    let mut record = CellGuard::new(true, HERE);
    for raw in [10u64, 11, 12, 0, u64::MAX] {
        assert_eq!(record.attempt_transfer(ThreadIdentity(raw)), Err(FailTakeOwnership));
        assert_eq!(record, CellGuard { freeze: true, thread_id: HERE });
    }
}

#[test]
fn teardown_verdicts() {
    for freeze in [false, true] {
        let record = CellGuard::new(freeze, HERE);
        assert_eq!(record.teardown(HERE, false), Teardown::Skip);
        assert_eq!(record.teardown(ELSEWHERE, false), Teardown::Skip);
        assert_eq!(record.teardown(HERE, true), Teardown::Run);
        assert_eq!(record.teardown(ELSEWHERE, true), Teardown::Abort);
    }
}

#[test]
fn teardown_follows_the_owner() {
    let mut val = iCell::new(String::from("held"), false, HERE);
    assert_eq!(val.teardown(HERE), Teardown::Run);
    assert_eq!(val.teardown(ELSEWHERE), Teardown::Abort);
    assert_eq!(val.take_ownership(ELSEWHERE), Ok(()));
    assert_eq!(val.teardown(HERE), Teardown::Abort);
    assert_eq!(val.teardown(ELSEWHERE), Teardown::Run);
}

#[test]
fn checked_access_never_fails_for_the_owner() {
    let mut val = iCell::new(3, true, HERE);
    assert_eq!(val.try_get(HERE), Ok(&3));
    match val.try_get_mut(HERE) {
        Ok(inner) => *inner += 1,
        Err(_) => panic!("the owner was refused"),
    }
    assert_eq!(val.try_get(HERE), Ok(&4));
}

#[test]
fn checked_access_fails_for_every_other_thread() {
    let mut val = iCell::new(3, false, HERE);
    for raw in [0u64, 9, 11, u64::MAX] {
        let other = ThreadIdentity(raw);
        assert!(!val.is_valid(other));
        assert_eq!(val.try_get(other), Err(InvalidThreadAccess));
        assert!(matches!(val.try_get_mut(other), Err(InvalidThreadAccess)));
    }
    // refused attempts have changed nothing
    assert_eq!(val.get(HERE), &3);
    assert!(val.is_valid(HERE));
}

#[test]
fn into_inner_gives_the_value() {
    let val = iCell::new(String::from("payload"), false, HERE);
    assert_eq!(val.into_inner(HERE), "payload");
}

#[test]
fn try_into_inner_gives_the_value_to_the_owner() {
    let val = iCell::new(42, false, HERE);
    let result = val.try_into_inner(HERE);
    assert!(result.is_ok());
    assert_eq!(result.ok(), Some(42));
}

#[test]
fn try_into_inner_gives_the_cell_back_to_others() {
    let val = iCell::new(42, false, HERE);
    let result = val.try_into_inner(ELSEWHERE);
    assert!(result.is_err());
    match result {
        Ok(_) => panic!("a thread that does not own the cell got the value"),
        Err(mut cell) => {
            // the cell is as it was: same owner, same value, still open
            assert!(cell.is_valid(HERE));
            assert_eq!(cell.get(HERE), &42);
            assert_eq!(cell.take_ownership(ELSEWHERE), Ok(()));
            assert_eq!(cell.try_into_inner(ELSEWHERE).ok(), Some(42));
        }
    }
}

#[test]
fn from_and_default_make_open_cells() {
    let mut made = iCell::from(9u16, HERE);
    assert_eq!(made.get(HERE), &9);
    assert_eq!(made.take_ownership(ELSEWHERE), Ok(()));

    let mut blank: iCell<String> = iCell::default(HERE);
    assert_eq!(blank.get(HERE), "");
    assert!(blank.is_valid(HERE));
    assert_eq!(blank.take_ownership(ELSEWHERE), Ok(()));
}

#[test]
fn comparisons_go_by_the_values() {
    let two = iCell::new(2, false, HERE);
    let three = iCell::new(3, true, HERE);
    let other_two = iCell::new(2, true, HERE);

    assert!(two.eq(&other_two, HERE));
    assert!(!two.eq(&three, HERE));

    assert!(two.lt(&three, HERE));
    assert!(!three.lt(&two, HERE));
    assert!(!two.lt(&other_two, HERE));

    assert!(two.le(&three, HERE));
    assert!(two.le(&other_two, HERE));
    assert!(!three.le(&two, HERE));

    assert!(three.gt(&two, HERE));
    assert!(!two.gt(&other_two, HERE));

    assert!(three.ge(&two, HERE));
    assert!(two.ge(&other_two, HERE));
    assert!(!two.ge(&three, HERE));

    assert_eq!(two.partial_cmp(&three, HERE), Some(Ordering::Less));
    assert_eq!(two.partial_cmp(&other_two, HERE), Some(Ordering::Equal));
    assert_eq!(three.partial_cmp(&two, HERE), Some(Ordering::Greater));

    assert_eq!(two.cmp(&three, HERE), Ordering::Less);
    assert_eq!(two.cmp(&other_two, HERE), Ordering::Equal);
    assert_eq!(three.cmp(&two, HERE), Ordering::Greater);
}

#[test]
fn partial_cmp_of_unordered_values() {
    let nan = iCell::new(f64::NAN, false, HERE);
    let one = iCell::new(1.0, false, HERE);
    assert_eq!(nan.partial_cmp(&one, HERE), None);
    assert!(!nan.eq(&nan, HERE));
    assert!(!nan.lt(&one, HERE));
    assert!(!nan.ge(&one, HERE));
}

#[test]
fn to_string_shows_the_value() {
    assert_eq!(iCell::new(42, false, HERE).to_string(HERE), "42");
    assert_eq!(iCell::new("plain", false, HERE).to_string(HERE), "plain");
}

#[test]
fn debug_string_shows_the_value_to_the_owner() {
    assert_eq!(iCell::new(42, false, HERE).debug_string(HERE), "Fragile { value: 42 }");
    assert_eq!(iCell::new("quoted", true, HERE).debug_string(HERE), "Fragile { value: \"quoted\" }");
    assert_eq!(
        iCell::new(Some(vec![1, 2]), false, HERE).debug_string(HERE),
        "Fragile { value: Some([1, 2]) }"
    );
}

#[test]
fn debug_string_hides_the_value_from_others() {
    let mut val = iCell::new(42, false, HERE);
    assert_eq!(val.debug_string(ELSEWHERE), "Fragile { value: <invalid thread> }");
    assert_eq!(val.take_ownership(ELSEWHERE), Ok(()));
    assert_eq!(val.debug_string(ELSEWHERE), "Fragile { value: 42 }");
    assert_eq!(val.debug_string(HERE), "Fragile { value: <invalid thread> }");
}

#[test]
fn debug_frame_lays_out_any_text() {
    assert_eq!(ibag::cell::debug_frame(""), "Fragile { value:  }");
    assert_eq!(ibag::cell::debug_frame("x y"), "Fragile { value: x y }");
}

#[test]
fn error_messages() {
    assert_eq!(InvalidThreadAccess.to_string(), "fragile value accessed from foreign thread");
    assert_eq!(FailTakeOwnership.to_string(), "failed to take ownership of value");
}
