use vagga_settings::file_util::visible_entries;
use vagga_settings::file_util::Lock;
use vagga_settings::file_util::LockError;

fn s(text: &str) -> String {
    text.to_string()
}

fn acquire_then_fail_early(path: &String) -> Result<(), String> {
    let _lock = match Lock::exclusive(path) {
        Ok(l) => l,
        Err(e) => return Err(format!("could not lock: {:?}", e)),
    };
    // An early error return: the lock value's scope still ends here.
    Err(s("work failed after acquiring"))
}

#[test]
fn lock_mutual_exclusion_and_release() {
    let path = s("/tmp/vagga_settings_test_mutex.lock");
    let first = Lock::exclusive(&path);
    assert!(first.is_ok());
    // While the first holder lives, a second attempt fails fast.
    let second = Lock::exclusive(&path);
    assert!(matches!(second, Err(LockError::WouldBlock)));
    drop(first);
    // After the first holder's scope ended, the lock is free again.
    let third = Lock::exclusive(&path);
    assert!(third.is_ok());
}

#[test]
fn lock_released_on_early_error_return() {
    let path = s("/tmp/vagga_settings_test_early_error.lock");
    assert!(acquire_then_fail_early(&path).is_err());
    // No leak across the error path: the lock can be taken at once.
    let retry = Lock::exclusive(&path);
    assert!(retry.is_ok());
}

#[test]
fn lock_failure_reports_errno() {
    // Opening a lock file under a directory that does not exist fails with
    // an OS error, not contention.
    let path = s("/tmp/vagga_settings_no_such_dir/deep/file.lock");
    match Lock::exclusive(&path) {
        Err(LockError::Io(errno)) => assert!(errno > 0),
        Err(other) => panic!("expected an Io error, got {:?}", other),
        Ok(_) => panic!("expected an Io error, got a lock"),
    }
}

#[test]
fn visible_entries_drop_dot_names() {
    let entries = vec![
        (s("alpha"), s("/dir/alpha")),
        (s(".hidden"), s("/dir/.hidden")),
        (s("beta"), s("/dir/beta")),
        (s("."), s("/dir/.")),
    ];
    let visible = visible_entries(&entries);
    assert_eq!(visible, vec![s("/dir/alpha"), s("/dir/beta")]);
}
