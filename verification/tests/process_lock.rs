use doorstop::platform::Platform;
use doorstop::utils::process_lock::{ensure_single_instance, lock_name, ProcessLocks};

#[test]
fn second_acquire_is_refused_until_release() {
    let mut locks = ProcessLocks::new();
    assert!(ensure_single_instance(&mut locks, 4242));
    assert!(!ensure_single_instance(&mut locks, 4242));
    assert!(!ensure_single_instance(&mut locks, 4242));
    assert!(locks.is_held(4242));
    locks.release(4242);
    assert!(!locks.is_held(4242));
    assert!(ensure_single_instance(&mut locks, 4242));
    assert!(!ensure_single_instance(&mut locks, 4242));
}

#[test]
fn locks_of_other_processes_do_not_interfere() {
    let mut locks = ProcessLocks::new();
    assert!(ensure_single_instance(&mut locks, 1));
    assert!(ensure_single_instance(&mut locks, 2));
    assert!(!ensure_single_instance(&mut locks, 1));
    locks.release(1);
    assert!(locks.is_held(2));
    assert!(!locks.is_held(1));
    assert!(!ensure_single_instance(&mut locks, 2));
    assert!(ensure_single_instance(&mut locks, 1));
    locks.release(3);
    assert!(locks.is_held(1));
    assert!(locks.is_held(2));
}

#[test]
fn lock_names() {
    assert_eq!(lock_name(Platform::Linux, 4242), "/tmp/doorstop-4242");
    assert_eq!(lock_name(Platform::MacOs, 1), "/tmp/doorstop-1");
    assert_eq!(lock_name(Platform::Windows, 77), "Local\\doorstop-77");
    assert_eq!(lock_name(Platform::Linux, 0), "/tmp/doorstop-0");
    assert_eq!(lock_name(Platform::Linux, u32::MAX), format!("/tmp/doorstop-{}", u32::MAX));
}
