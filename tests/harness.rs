use leak_me::{
    check, expect_leak, expect_no_leak, judge_leak, judge_no_leak, Error, LeakMe, ALIVE, DEAD,
};

fn keep(_leak_me: LeakMe) {}

#[test]
fn check_reports_false_when_finalized() {
    assert!(!check(|leak_me| drop(leak_me)));
    assert!(!check(keep));
}

#[test]
fn check_reports_true_when_forgotten() {
    assert!(check(|leak_me| std::mem::forget(leak_me)));
}

#[test]
fn check_sees_finalization_inside_a_container() {
    assert!(!check(|leak_me| {
        let v = vec![leak_me];
        assert_eq!(v.len(), 1);
    }));
}

#[test]
fn expect_leak_fails_when_finalized() {
    assert_eq!(expect_leak(|_leak_me| {}), Err(Error::NotLeaked));
}

#[test]
fn expect_no_leak_fails_when_leaked() {
    assert_eq!(expect_no_leak(|leak_me| std::mem::forget(leak_me)), Err(Error::Leaked));
}

#[test]
fn judge_leak_values() {
    assert_eq!(judge_leak(true), Ok(()));
    assert_eq!(judge_leak(false), Err(Error::NotLeaked));
}

#[test]
fn judge_no_leak_values() {
    assert_eq!(judge_no_leak(false), Ok(()));
    assert_eq!(judge_no_leak(true), Err(Error::Leaked));
}

#[test]
fn repeated_trials_agree() {
    for _ in 0..3 {
        assert_eq!(expect_no_leak(|_leak_me| {}), Ok(()));
        assert_eq!(expect_leak(|_leak_me| {}), Err(Error::NotLeaked));
        assert_eq!(expect_leak(|leak_me| std::mem::forget(leak_me)), Ok(()));
        assert_eq!(expect_no_leak(|leak_me| std::mem::forget(leak_me)), Err(Error::Leaked));
    }
}

#[test]
fn one_trial_does_not_affect_the_next() {
    assert!(check(|leak_me| std::mem::forget(leak_me)));
    assert!(!check(|_leak_me| {}));
    assert!(check(|leak_me| std::mem::forget(leak_me)));
}

#[test]
fn flag_values() {
    assert!(ALIVE);
    assert!(!DEAD);
}
