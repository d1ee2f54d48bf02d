use arceos_posix_api::sem::Semaphore;

#[test]
fn new_semaphore_has_the_given_count() {
    assert_eq!(Semaphore::new(0).count(), 0);
    assert_eq!(Semaphore::new(3).count(), 3);
    assert_eq!(Semaphore::new(isize::MAX).count(), isize::MAX);
}

#[test]
fn waiter_finds_no_permit_on_an_empty_semaphore() {
    let mut sem = Semaphore::new(0);
    assert!(!sem.available());
    assert!(!sem.try_down());
    assert_eq!(sem.count(), 0);
}

#[test]
fn post_adds_one_permit() {
    let mut sem = Semaphore::new(0);
    sem.up();
    assert_eq!(sem.count(), 1);
    assert!(sem.available());
    sem.up();
    assert_eq!(sem.count(), 2);
}

#[test]
fn completed_wait_takes_exactly_one_permit() {
    let mut sem = Semaphore::new(2);
    assert!(sem.try_down());
    assert_eq!(sem.count(), 1);
    assert!(sem.try_down());
    assert_eq!(sem.count(), 0);
    assert!(!sem.try_down());
    assert_eq!(sem.count(), 0);
}

#[test]
fn count_is_initial_plus_posts_minus_completed_waits() {
    let initial: isize = 2;
    let mut sem = Semaphore::new(initial);
    let mut posts: isize = 0;
    let mut completed: isize = 0;
    // true is a post, false a waiter's attempt.
    let history = [false, false, false, true, false, false, true, true, true, false];
    for op in history {
        if op {
            sem.up();
            posts += 1;
        } else if sem.try_down() {
            completed += 1;
        }
        assert!(sem.count() >= 0);
        assert_eq!(sem.count(), initial + posts - completed);
    }
    assert_eq!(posts, 4);
    assert_eq!(completed, 4);
    assert_eq!(sem.count(), 2);
}

#[test]
fn as_many_posts_as_waiters_let_each_waiter_through_once() {
    let waiters = 5;
    let mut sem = Semaphore::new(0);
    let mut through = 0;
    for _ in 0..waiters {
        assert!(!sem.try_down());
    }
    for _ in 0..waiters {
        sem.up();
    }
    for _ in 0..waiters {
        if sem.try_down() {
            through += 1;
        }
    }
    assert_eq!(through, waiters);
    assert_eq!(sem.count(), 0);
    assert!(!sem.try_down());
}
