use libobs_wrapper::error::ObsError;
use libobs_wrapper::handle::SafeHandle;
use libobs_wrapper::resource::ResourceGuard;

#[test]
fn handles_on_the_same_object_are_equal() {
    let a = SafeHandle::new(0xdead_beef);
    let b = SafeHandle::new(0xdead_beef);
    assert_eq!(a, b);
    assert!(a.same_object(b));
    assert!(!(a != b));
}

#[test]
fn handles_on_different_objects_are_unequal() {
    let a = SafeHandle::new(0x10);
    let b = SafeHandle::new(0x18);
    assert_ne!(a, b);
    assert!(!a.same_object(b));
}

#[test]
fn a_copy_of_a_handle_is_the_same_handle() {
    let a = SafeHandle::new(42);
    let b = a;
    let c = a.clone();
    assert_eq!(a, b);
    assert_eq!(a, c);
    assert_eq!(a.addr(), 42);
}

#[test]
fn handles_are_ordered_by_address() {
    let a = SafeHandle::new(1);
    let b = SafeHandle::new(2);
    assert!(a < b);
    assert!(b > a);
    assert!(a <= a);
    assert_eq!(a.partial_cmp(&b), Some(std::cmp::Ordering::Less));
    assert_eq!(b.partial_cmp(&a), Some(std::cmp::Ordering::Greater));
    assert_eq!(a.partial_cmp(&a), Some(std::cmp::Ordering::Equal));
}

#[test]
fn the_null_handle_is_null() {
    assert!(SafeHandle::null().is_null());
    assert!(SafeHandle::new(0).is_null());
    assert!(!SafeHandle::new(8).is_null());
    assert_eq!(SafeHandle::null().addr(), 0);
}

#[test]
fn the_last_owner_destroys_the_object() {
    let mut guard = ResourceGuard::new(SafeHandle::new(0x40));
    assert_eq!(guard.owners(), 1);
    assert_eq!(guard.share(), Ok(()));
    assert_eq!(guard.share(), Ok(()));
    assert_eq!(guard.owners(), 3);
    assert_eq!(guard.let_go(), None);
    assert_eq!(guard.let_go(), None);
    assert_eq!(guard.let_go(), Some(SafeHandle::new(0x40)));
    assert_eq!(guard.owners(), 0);
}

#[test]
fn an_object_is_destroyed_once() {
    let mut guard = ResourceGuard::new(SafeHandle::new(0x40));
    assert_eq!(guard.let_go(), Some(SafeHandle::new(0x40)));
    assert_eq!(guard.let_go(), None);
    assert_eq!(guard.share(), Err(ObsError::InvalidOperation));
    assert_eq!(guard.handle(), SafeHandle::new(0x40));
}

#[test]
fn terminal_errors() {
    assert!(ObsError::NotRunning.is_terminal());
    assert!(ObsError::WorkerFailed.is_terminal());
    assert!(!ObsError::NullHandle.is_terminal());
    assert!(!ObsError::PlatformUnsupported.is_terminal());
    assert!(!ObsError::ExecutionFailed.is_terminal());
    assert!(!ObsError::InvalidOperation.is_terminal());
}

#[test]
fn every_error_says_what_went_wrong() {
    assert_eq!(ObsError::NotRunning.message(), "the runtime is not running");
    assert_eq!(ObsError::NullHandle.message(), "the engine returned no object");
    assert_eq!(ObsError::PlatformUnsupported.message(), "no platform could be found");
    assert_eq!(ObsError::ExecutionFailed.message(), "the command failed while it ran");
    assert_eq!(ObsError::WorkerFailed.message(), "the executor thread died");
    assert_eq!(ObsError::InvalidOperation.message(), "the operation is not valid here");
}

#[test]
fn handles_sort_by_address() {
    let mut handles = vec![SafeHandle::new(30), SafeHandle::new(10), SafeHandle::new(20)];
    handles.sort();
    assert_eq!(handles, vec![SafeHandle::new(10), SafeHandle::new(20), SafeHandle::new(30)]);
    assert_eq!(SafeHandle::new(3).max(SafeHandle::new(4)), SafeHandle::new(4));
}
