use arceos_posix_api::error::PosixError;
use arceos_posix_api::pthread::{
    sys_pthread_detach, sys_pthread_equal, sys_pthread_self, Pthread, ThreadRegistry,
};

const MAIN: u64 = 1;

fn registry() -> ThreadRegistry<&'static str> {
    ThreadRegistry::new(MAIN, "main")
}

#[test]
fn new_registry_holds_the_main_thread() {
    let reg = registry();
    let main = reg.current(MAIN).expect("main thread is registered");
    assert_eq!(main.tid, MAIN);
    assert_eq!(main.inner, "main");
    assert_eq!(main.retval, 0);
    assert!(reg.pthread_ref(2).is_none());
}

#[test]
fn new_record_has_no_value_yet() {
    let thread = Pthread::new(9, 'x');
    assert_eq!(thread.tid, 9);
    assert_eq!(thread.inner, 'x');
    assert_eq!(thread.retval, 0);
}

#[test]
fn create_files_the_thread_under_its_identity() {
    let mut reg = registry();
    assert_eq!(reg.create(7, "worker"), 7);
    let worker = reg.pthread_ref(7).expect("worker is registered");
    assert_eq!(worker.tid, 7);
    assert_eq!(worker.inner, "worker");
    assert_eq!(worker.retval, 0);
    assert!(reg.current(MAIN).is_some());
}

#[test]
fn join_returns_the_value_passed_to_exit() {
    let mut reg = registry();
    reg.create(7, "worker");
    reg.exit_current(7, 0xdead_beef);
    assert_eq!(reg.join(MAIN, 7), Ok(0xdead_beef));
    assert!(reg.pthread_ref(7).is_none());
}

#[test]
fn second_join_finds_no_such_thread() {
    let mut reg = registry();
    reg.create(7, "worker");
    reg.exit_current(7, 42);
    assert_eq!(reg.join(MAIN, 7), Ok(42));
    assert_eq!(reg.join(MAIN, 7), Err(PosixError::NoSuchThread));
}

#[test]
fn join_of_a_thread_that_left_no_value_returns_null() {
    let mut reg = registry();
    reg.create(8, "callback");
    assert_eq!(reg.join(MAIN, 8), Ok(0));
}

#[test]
fn exit_changes_only_the_callers_value() {
    let mut reg = registry();
    reg.create(7, "a");
    reg.create(8, "b");
    reg.exit_current(7, 11);
    assert_eq!(reg.pthread_ref(7).unwrap().retval, 11);
    assert_eq!(reg.pthread_ref(7).unwrap().inner, "a");
    assert_eq!(reg.pthread_ref(8).unwrap().retval, 0);
    assert_eq!(reg.pthread_ref(MAIN).unwrap().retval, 0);
    reg.exit_current(7, 12);
    assert_eq!(reg.join(8, 7), Ok(12));
    assert_eq!(reg.join(MAIN, 8), Ok(0));
}

#[test]
fn self_join_would_deadlock_and_changes_nothing() {
    let mut reg = registry();
    reg.create(7, "worker");
    reg.exit_current(7, 5);
    assert_eq!(reg.join(7, 7), Err(PosixError::WouldDeadlock));
    assert_eq!(reg.pthread_ref(7).unwrap().retval, 5);
    assert_eq!(reg.join(MAIN, MAIN), Err(PosixError::WouldDeadlock));
    assert!(reg.current(MAIN).is_some());
    // The test for a self-join comes first, registered or not.
    assert_eq!(reg.join(99, 99), Err(PosixError::WouldDeadlock));
}

#[test]
fn join_of_an_unknown_thread_finds_no_such_thread() {
    let mut reg = registry();
    assert_eq!(reg.join(MAIN, 1234), Err(PosixError::NoSuchThread));
    assert!(reg.current(MAIN).is_some());
}

#[test]
fn join_target_hands_out_the_task_to_wait_for() {
    let mut reg = registry();
    reg.create(7, "worker");
    assert_eq!(reg.join_target(MAIN, 7), Ok(&"worker"));
    assert_eq!(reg.join_target(7, 7), Err(PosixError::WouldDeadlock));
    assert_eq!(reg.join_target(MAIN, 8), Err(PosixError::NoSuchThread));
    // Asking does not consume the record.
    assert_eq!(reg.join_target(MAIN, 7), Ok(&"worker"));
}

#[test]
fn create_replaces_a_record_with_the_same_identity() {
    let mut reg = registry();
    reg.create(7, "first");
    reg.exit_current(7, 1);
    reg.create(7, "second");
    let thread = reg.pthread_ref(7).unwrap();
    assert_eq!(thread.inner, "second");
    assert_eq!(thread.retval, 0);
}

#[test]
fn pthread_self_is_the_callers_identity() {
    let mut reg = registry();
    reg.create(7, "worker");
    assert_eq!(sys_pthread_self(&reg, MAIN), MAIN);
    assert_eq!(sys_pthread_self(&reg, 7), 7);
}

#[test]
fn pthread_equal_compares_identities() {
    assert_eq!(sys_pthread_equal(3, 3), 1);
    assert_eq!(sys_pthread_equal(3, 4), 0);
    assert_eq!(sys_pthread_equal(0, u64::MAX), 0);
}

#[test]
fn detach_succeeds_and_does_not_prevent_a_join() {
    let mut reg = registry();
    reg.create(7, "worker");
    assert_eq!(sys_pthread_detach(7), 0);
    reg.exit_current(7, 3);
    assert_eq!(reg.join(MAIN, 7), Ok(3));
    assert_eq!(sys_pthread_detach(1234), 0);
}
