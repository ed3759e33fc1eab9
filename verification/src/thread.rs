//! SPDK thread library bookkeeping.
//!
//! SPDK's thread library must be initialized once before the first SPDK
//! thread is created and finalized when the last one is gone. The library
//! keeps one flag for this. Initializing is asked for by setting the flag;
//! only the caller that found it clear actually initializes, and a failed
//! initialization clears it again. Finalizing clears the flag; only the
//! caller that found it set actually finalizes.

use crate::error::Error;
use crate::text::{decimal_i32, signed_decimal};
use vstd::prelude::*;

verus! {

/// Default message mempool size (SPDK's own default).
pub const DEFAULT_MSG_MEMPOOL_SIZE: usize = 262143;

/// Smaller mempool size for testing (1023 entries).
pub const SMALL_MSG_MEMPOOL_SIZE: usize = 1023;

/// Which SPDK call initializes the thread library.
#[derive(Debug, Clone, Copy, PartialEq, Eq, Structural)]
pub enum ThreadLibInit {
    /// `spdk_thread_lib_init`, with SPDK's default mempool.
    Default,
    /// `spdk_thread_lib_init_ext`, with a chosen mempool size.
    WithMempoolSize,
}

/// The name of the SPDK call behind an initialization kind.
pub open spec fn init_call_name(kind: ThreadLibInit) -> Seq<char> {
    match kind {
        ThreadLibInit::Default => "spdk_thread_lib_init"@,
        ThreadLibInit::WithMempoolSize => "spdk_thread_lib_init_ext"@,
    }
}

/// The message of a failed initialization.
pub open spec fn init_failure_message(kind: ThreadLibInit, rc: int) -> Seq<char> {
    init_call_name(kind) + " failed with error code "@ + signed_decimal(rc)
}

/// The message of a thread that SPDK could not create.
pub open spec fn thread_create_failure_message() -> Seq<char> {
    "spdk_thread_create returned NULL"@
}

/// Whether SPDK's thread library is initialized.
#[derive(Debug)]
pub struct ThreadLib {
    initialized: bool,
}

impl ThreadLib {
    pub closed spec fn spec_initialized(&self) -> bool {
        self.initialized
    }

    /// The library before anything was initialized.
    pub fn new() -> (t: ThreadLib)
        ensures
            !t.spec_initialized(),
    {
        ThreadLib { initialized: false }
    }

    /// Whether the library is initialized.
    pub fn is_initialized(&self) -> (b: bool)
        ensures
            b == self.spec_initialized(),
    {
        self.initialized
    }

    /// Claims the initialization: marks the library initialized and tells
    /// whether the caller must now make the SPDK call (it must when the
    /// library was not initialized before). When it need not, initializing
    /// has already succeeded.
    pub fn begin_init(&mut self) -> (must_call: bool)
        ensures
            (must_call, final(self).spec_initialized()) == claim_init(old(self).spec_initialized()),
    {
        let was = self.initialized;
        self.initialized = true;
        !was
    }

    /// Records the return code of the SPDK initialization call: zero keeps
    /// the library initialized, anything else clears the flag and reports
    /// the failure.
    pub fn finish_init(&mut self, kind: ThreadLibInit, rc: i32) -> (r: Result<(), Error>)
        ensures
            final(self).spec_initialized() == record_init(old(self).spec_initialized(), rc as int),
            rc == 0 ==> r is Ok,
            rc != 0 ==> (r matches Err(Error::EnvInit(m)) && m@ == init_failure_message(
                kind,
                rc as int,
            )),
    {
        if rc != 0 {
            self.initialized = false;
            let mut m = match kind {
                ThreadLibInit::Default => String::from_str("spdk_thread_lib_init"),
                ThreadLibInit::WithMempoolSize => String::from_str("spdk_thread_lib_init_ext"),
            };
            m.append(" failed with error code ");
            m.append(decimal_i32(rc).as_str());
            return Err(Error::EnvInit(m));
        }
        Ok(())
    }

    /// Marks the library initialized without an SPDK call, for when the
    /// application framework initialized it.
    pub fn assume_initialized(&mut self)
        ensures
            final(self).spec_initialized(),
    {
        self.initialized = true;
    }

    /// Claims the finalization: marks the library not initialized and tells
    /// whether the caller must now make the SPDK call (it must when the
    /// library was initialized).
    pub fn begin_fini(&mut self) -> (must_call: bool)
        ensures
            (must_call, final(self).spec_initialized()) == claim_fini(old(self).spec_initialized()),
    {
        let was = self.initialized;
        self.initialized = false;
        was
    }
}

/// Claiming the initialization: whether the SPDK call must be made, and the
/// flag afterwards.
pub open spec fn claim_init(initialized: bool) -> (bool, bool) {
    (!initialized, true)
}

/// Recording the SPDK call's return code: the flag afterwards.
pub open spec fn record_init(initialized: bool, rc: int) -> bool {
    if rc != 0 {
        false
    } else {
        initialized
    }
}

/// Claiming the finalization: whether the SPDK call must be made, and the
/// flag afterwards.
pub open spec fn claim_fini(initialized: bool) -> (bool, bool) {
    (initialized, false)
}

/// Law: of two successive initializations only the first makes the SPDK
/// call, and a successful call leaves the library initialized; a failed call
/// leaves it uninitialized, so the next initialization makes the call again;
/// finalizing makes the SPDK call only for an initialized library, and a
/// second finalization makes none.
pub proof fn lemma_thread_lib_protocol(initialized: bool, rc: int)
    ensures
        !claim_init(claim_init(initialized).1).0,
        record_init(claim_init(initialized).1, 0),
        rc != 0 ==> claim_init(record_init(claim_init(initialized).1, rc)).0,
        claim_fini(initialized).0 == initialized,
        !claim_fini(claim_fini(initialized).1).0,
        !claim_fini(initialized).1,
{
}

/// Whether the thread library is to be finalized after an SPDK thread was
/// destroyed: when no SPDK thread is left.
pub fn finalize_after_thread_exit(thread_count: u32) -> (f: bool)
    ensures
        f == (thread_count == 0),
{
    thread_count == 0
}

/// The outcome of creating an SPDK thread.
pub fn thread_create_outcome(created: bool) -> (r: Result<(), Error>)
    ensures
        created ==> r is Ok,
        !created ==> (r matches Err(Error::EnvInit(m)) && m@ == thread_create_failure_message()),
{
    if created {
        Ok(())
    } else {
        Err(Error::EnvInit(String::from_str("spdk_thread_create returned NULL")))
    }
}

/// The outcome of joining a spawned thread: its result, or
/// [`Error::ThreadPanic`] when it panicked.
pub fn join_outcome<T>(result: Option<T>) -> (r: Result<T, Error>)
    ensures
        result matches Some(v) ==> r == Ok::<T, Error>(v),
        result is None ==> r == Err::<T, Error>(Error::ThreadPanic),
{
    match result {
        Some(v) => Ok(v),
        None => Err(Error::ThreadPanic),
    }
}

} // verus!
