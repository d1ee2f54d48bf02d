use arceos_posix_api::error::{syscall_status, PosixError};

#[test]
fn errors_carry_their_linux_numbers() {
    assert_eq!(PosixError::InvalidArgument.errno(), 22);
    assert_eq!(PosixError::NoSuchThread.errno(), 3);
    assert_eq!(PosixError::WouldDeadlock.errno(), 35);
}

#[test]
fn success_is_reported_as_the_value() {
    assert_eq!(syscall_status(Ok(0)), 0);
    assert_eq!(syscall_status(Ok(17)), 17);
    assert_eq!(syscall_status(Ok(-4)), -4);
}

#[test]
fn failure_is_reported_as_the_negated_error_number() {
    assert_eq!(syscall_status(Err(PosixError::InvalidArgument)), -22);
    assert_eq!(syscall_status(Err(PosixError::NoSuchThread)), -3);
    assert_eq!(syscall_status(Err(PosixError::WouldDeadlock)), -35);
}
