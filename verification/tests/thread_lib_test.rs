use spdk_io::error::Error;
use spdk_io::thread::{
    join_outcome, thread_create_outcome, ThreadLib, ThreadLibInit, DEFAULT_MSG_MEMPOOL_SIZE,
    SMALL_MSG_MEMPOOL_SIZE,
};

#[test]
fn mempool_sizes() {
    assert_eq!(DEFAULT_MSG_MEMPOOL_SIZE, 262144 - 1);
    assert_eq!(SMALL_MSG_MEMPOOL_SIZE, 1023);
}

#[test]
fn init_is_made_once() {
    let mut lib = ThreadLib::new();
    assert!(!lib.is_initialized());
    assert!(lib.begin_init());
    assert!(lib.finish_init(ThreadLibInit::Default, 0).is_ok());
    assert!(lib.is_initialized());
    assert!(!lib.begin_init());
    assert!(lib.is_initialized());
}

#[test]
fn failed_init_can_be_retried() {
    let mut lib = ThreadLib::new();
    assert!(lib.begin_init());
    match lib.finish_init(ThreadLibInit::WithMempoolSize, -12) {
        Err(Error::EnvInit(m)) => assert_eq!(m, "spdk_thread_lib_init_ext failed with error code -12"),
        other => panic!("unexpected: {:?}", other),
    }
    assert!(!lib.is_initialized());
    assert!(lib.begin_init());
    match lib.finish_init(ThreadLibInit::Default, -1) {
        Err(Error::EnvInit(m)) => assert_eq!(m, "spdk_thread_lib_init failed with error code -1"),
        other => panic!("unexpected: {:?}", other),
    }
}

#[test]
fn fini_is_made_once() {
    let mut lib = ThreadLib::new();
    assert!(!lib.begin_fini());
    lib.assume_initialized();
    assert!(lib.is_initialized());
    assert!(lib.begin_fini());
    assert!(!lib.is_initialized());
    assert!(!lib.begin_fini());
}

#[test]
fn thread_outcomes() {
    assert!(thread_create_outcome(true).is_ok());
    match thread_create_outcome(false) {
        Err(Error::EnvInit(m)) => assert_eq!(m, "spdk_thread_create returned NULL"),
        other => panic!("unexpected: {:?}", other),
    }
    assert_eq!(join_outcome(Some(42)).unwrap(), 42);
    assert!(matches!(join_outcome::<i32>(None), Err(Error::ThreadPanic)));
}

#[test]
fn finalize_only_when_no_thread_is_left() {
    assert!(spdk_io::thread::finalize_after_thread_exit(0));
    assert!(!spdk_io::thread::finalize_after_thread_exit(1));
    assert!(!spdk_io::thread::finalize_after_thread_exit(7));
}
