use singlyton::AccessError;
use singlyton::Mode;
use singlyton::SafetyCell;
use singlyton::Singleton;
use singlyton::SingletonLazy;
use singlyton::SingletonOption;
use singlyton::SingletonUninit;

const MAIN: u64 = 1;
const OTHER: u64 = 2;

#[test]
fn test_singleton() {
    let mut singleton: Singleton<&'static str> = Singleton::new("Hello");
    assert_eq!(*singleton.get(MAIN).unwrap(), "Hello");

    singleton.replace(MAIN, "Test").unwrap();
    assert_eq!(*singleton.get(MAIN).unwrap(), "Test");

    *singleton.get_mut(MAIN).unwrap() = "Test 2";
    assert_eq!(*singleton.get(MAIN).unwrap(), "Test 2");
}

#[test]
fn test_singleton_uninit() {
    let mut singleton: SingletonUninit<String> = SingletonUninit::uninit();

    singleton.init(MAIN, "Hello".to_string()).unwrap();
    assert_eq!(singleton.get(MAIN).unwrap().as_str(), "Hello");

    singleton.replace(MAIN, "Test".to_string()).unwrap();
    assert_eq!(singleton.get(MAIN).unwrap().as_str(), "Test");

    *singleton.get_mut(MAIN).unwrap() = "Test 2".to_string();
    assert_eq!(singleton.get(MAIN).unwrap().as_str(), "Test 2");
}

#[test]
#[should_panic]
fn test_singleton_uninit_panic() {
    let mut singleton: SingletonUninit<String> = SingletonUninit::uninit();
    singleton.get(MAIN).unwrap();
}

#[test]
#[should_panic]
fn test_refcell() {
    let mut singleton: Singleton<&'static str> = Singleton::new("Hello");
    singleton.acquire_shared(MAIN).unwrap();
    singleton.get_mut(MAIN).unwrap();
}

#[test]
#[should_panic]
fn test_thread_safety() {
    let mut singleton: Singleton<&'static str> = Singleton::new("Hello");
    singleton.acquire_shared(MAIN).unwrap();
    singleton.get_mut(OTHER).unwrap();
}

#[test]
#[should_panic]
fn test_thread_safety_2() {
    let mut singleton: Singleton<&'static str> = Singleton::new("Hello");
    singleton.acquire_exclusive(MAIN).unwrap();
    singleton.get(OTHER).unwrap();
}

#[test]
#[should_panic]
fn test_thread_safety_3() {
    let mut singleton: Singleton<&'static str> = Singleton::new("Hello");
    singleton.acquire_exclusive(MAIN).unwrap();
    singleton.get_mut(OTHER).unwrap();
}

#[test]
fn single_thread_sequence_never_fails() {
    let mut s = Singleton::new(0u64);
    for i in 0..100u64 {
        assert_eq!(*s.get(MAIN).unwrap(), i);
        s.replace(MAIN, i + 1).unwrap();
        assert_eq!(*s.get(MAIN).unwrap(), i + 1);
        *s.get_mut(MAIN).unwrap() = i + 1;
        assert_eq!(*s.get(MAIN).unwrap(), i + 1);
    }
}

#[test]
fn shared_then_exclusive_conflicts() {
    let mut s = Singleton::new(3u32);
    s.acquire_shared(MAIN).unwrap();
    assert_eq!(s.acquire_exclusive(MAIN), Err(AccessError::BorrowConflict));
    assert_eq!(s.get_mut(MAIN).unwrap_err(), AccessError::BorrowConflict);
    // a second shared handle is fine, and reads still work
    s.acquire_shared(MAIN).unwrap();
    assert_eq!(*s.get(MAIN).unwrap(), 3);
    s.release_shared();
    s.release_shared();
    // all handles gone: exclusive succeeds now
    s.acquire_exclusive(MAIN).unwrap();
    assert_eq!(s.acquire_shared(MAIN), Err(AccessError::BorrowConflict));
    assert_eq!(s.acquire_exclusive(MAIN), Err(AccessError::BorrowConflict));
    assert_eq!(s.get(MAIN).unwrap_err(), AccessError::BorrowConflict);
    s.release_exclusive();
    assert_eq!(*s.get(MAIN).unwrap(), 3);
}

#[test]
fn foreign_thread_is_refused() {
    let mut s = Singleton::new(10u8);
    assert_eq!(*s.get(MAIN).unwrap(), 10);
    assert_eq!(
        s.get(OTHER).unwrap_err(),
        AccessError::ThreadAffinityViolation
    );
    assert_eq!(
        s.get_mut(OTHER).unwrap_err(),
        AccessError::ThreadAffinityViolation
    );
    assert_eq!(
        s.replace(OTHER, 11).unwrap_err(),
        AccessError::ThreadAffinityViolation
    );
    // the first thread still owns the cell
    assert_eq!(*s.get(MAIN).unwrap(), 10);
}

#[test]
fn first_toucher_becomes_owner() {
    let mut s = Singleton::new(1i32);
    // the cell is pinned by whichever thread touches it first
    assert_eq!(*s.get(OTHER).unwrap(), 1);
    assert_eq!(s.get(MAIN).unwrap_err(), AccessError::ThreadAffinityViolation);
}

#[test]
fn unchecked_mode_skips_all_checks() {
    let mut s = Singleton::new_with_mode(5u64, Mode::Unchecked);
    assert_eq!(*s.get(MAIN).unwrap(), 5);
    assert_eq!(*s.get(OTHER).unwrap(), 5);
    s.acquire_shared(MAIN).unwrap();
    s.acquire_exclusive(OTHER).unwrap();
    s.replace(OTHER, 6).unwrap();
    assert_eq!(*s.get(MAIN).unwrap(), 6);
}

#[test]
fn safety_cell_primitives() {
    let mut c = SafetyCell::new(7u64, Mode::Checked);
    c.acquire_shared(MAIN).unwrap();
    assert_eq!(c.acquire_exclusive(MAIN), Err(AccessError::BorrowConflict));
    c.release_shared();
    c.acquire_exclusive(MAIN).unwrap();
    assert_eq!(c.acquire_shared(MAIN), Err(AccessError::BorrowConflict));
    c.release_exclusive();
    assert_eq!(*c.get(MAIN).unwrap(), 7);
    c.replace(MAIN, 8).unwrap();
    assert_eq!(*c.get_mut(MAIN).unwrap(), 8);
    assert_eq!(
        c.check_thread(OTHER),
        Err(AccessError::ThreadAffinityViolation)
    );
}

#[test]
fn uninit_lifecycle() {
    let mut s: SingletonUninit<&'static str> = SingletonUninit::uninit();
    assert_eq!(s.get(MAIN).unwrap_err(), AccessError::NotInitialized);
    assert_eq!(s.get_mut(MAIN).unwrap_err(), AccessError::NotInitialized);
    assert_eq!(s.replace(MAIN, "x").unwrap_err(), AccessError::NotInitialized);

    s.init(MAIN, "Hello").unwrap();
    assert_eq!(*s.get(MAIN).unwrap(), "Hello");

    assert_eq!(
        s.init(MAIN, "again").unwrap_err(),
        AccessError::AlreadyInitialized
    );
    assert_eq!(*s.get(MAIN).unwrap(), "Hello");

    s.replace(MAIN, "Test").unwrap();
    assert_eq!(*s.get(MAIN).unwrap(), "Test");
}

#[test]
fn uninit_error_order_prefers_not_initialized() {
    // the uninitialized tag is reported before the thread check
    let mut s: SingletonUninit<u32> = SingletonUninit::uninit();
    assert_eq!(s.get(MAIN).unwrap_err(), AccessError::NotInitialized);
    assert_eq!(s.get(OTHER).unwrap_err(), AccessError::NotInitialized);
}

#[test]
fn uninit_init_or_replace() {
    let mut s: SingletonUninit<u32> = SingletonUninit::uninit();
    s.init_or_replace(MAIN, 1).unwrap();
    assert_eq!(*s.get(MAIN).unwrap(), 1);
    s.init_or_replace(MAIN, 2).unwrap();
    assert_eq!(*s.get(MAIN).unwrap(), 2);
}

#[test]
fn uninit_new_starts_initialized() {
    let mut s = SingletonUninit::new(9u32);
    assert_eq!(*s.get(MAIN).unwrap(), 9);
    assert_eq!(s.init(MAIN, 10).unwrap_err(), AccessError::AlreadyInitialized);
}

#[test]
fn option_lifecycle() {
    let mut s: SingletonOption<&'static str> = SingletonOption::new();
    assert!(s.is_none(MAIN).unwrap());
    assert!(!s.is_some(MAIN).unwrap());
    assert_eq!(s.get(MAIN).unwrap_err(), AccessError::EmptyValue);
    assert_eq!(s.get_mut(MAIN).unwrap_err(), AccessError::EmptyValue);

    s.replace(MAIN, "v").unwrap();
    assert!(s.is_some(MAIN).unwrap());
    assert_eq!(*s.get(MAIN).unwrap(), "v");

    assert_eq!(s.take(MAIN).unwrap(), Some("v"));
    assert!(s.is_none(MAIN).unwrap());
    assert_eq!(s.get(MAIN).unwrap_err(), AccessError::EmptyValue);
    // taking from an empty cell succeeds and hands back nothing
    assert_eq!(s.take(MAIN).unwrap(), None);
}

#[test]
fn option_as_option_views() {
    let mut s = SingletonOption::new_some(4u64);
    assert_eq!(*s.as_option(MAIN).unwrap(), Some(4));
    *s.as_option_mut(MAIN).unwrap() = None;
    assert!(s.is_none(MAIN).unwrap());
    *s.as_option_mut(MAIN).unwrap() = Some(5);
    assert_eq!(*s.get(MAIN).unwrap(), 5);
}

#[test]
fn option_queries_still_run_checks() {
    let mut s: SingletonOption<u32> = SingletonOption::new();
    assert!(s.is_none(MAIN).unwrap());
    assert_eq!(
        s.is_none(OTHER).unwrap_err(),
        AccessError::ThreadAffinityViolation
    );
    assert_eq!(
        s.is_some(OTHER).unwrap_err(),
        AccessError::ThreadAffinityViolation
    );
    assert_eq!(
        s.take(OTHER).unwrap_err(),
        AccessError::ThreadAffinityViolation
    );
}

#[test]
fn lazy_initializer_runs_once() {
    let counter = std::cell::Cell::new(0u32);
    let mut s = SingletonLazy::new(|| {
        counter.set(counter.get() + 1);
        42u64
    });
    assert_eq!(*s.get(MAIN).unwrap(), 42);
    assert_eq!(*s.get(MAIN).unwrap(), 42);
    assert_eq!(*s.get_mut(MAIN).unwrap(), 42);
    assert_eq!(*s.get(MAIN).unwrap(), 42);
    assert_eq!(counter.get(), 1);
}

#[test]
fn lazy_replace_forces_resolution_once() {
    let counter = std::cell::Cell::new(0u32);
    let mut s = SingletonLazy::new(|| {
        counter.set(counter.get() + 1);
        1u64
    });
    s.replace(MAIN, 9).unwrap();
    assert_eq!(counter.get(), 1);
    assert_eq!(*s.get(MAIN).unwrap(), 9);
    assert_eq!(counter.get(), 1);
}

#[test]
fn lazy_resolution_needs_exclusive_access() {
    let mut s = SingletonLazy::new(|| 3u64);
    s.acquire_shared(MAIN).unwrap();
    // resolving is a write, so a pending read under a shared handle conflicts
    assert_eq!(s.get(MAIN).unwrap_err(), AccessError::BorrowConflict);
    s.release_shared();
    assert_eq!(*s.get(MAIN).unwrap(), 3);
    // once resolved, a read under a shared handle is an ordinary shared read
    s.acquire_shared(MAIN).unwrap();
    assert_eq!(*s.get(MAIN).unwrap(), 3);
    assert_eq!(s.get_mut(MAIN).unwrap_err(), AccessError::BorrowConflict);
    s.release_shared();
}

#[test]
fn lazy_thread_affinity() {
    let mut s = SingletonLazy::new(|| 3u64);
    assert_eq!(*s.get(MAIN).unwrap(), 3);
    assert_eq!(s.get(OTHER).unwrap_err(), AccessError::ThreadAffinityViolation);
}

#[test]
fn errors_compare_and_print() {
    assert_ne!(AccessError::BorrowConflict, AccessError::EmptyValue);
    let shown = format!("{:?}", AccessError::ThreadAffinityViolation);
    assert_eq!(shown, "ThreadAffinityViolation");
}
