//! The multi-thread suite: the host runs every job on the calling thread.

use vstd::prelude::*;

use crate::ofx_constants::{kOfxStatErrUnsupported, kOfxStatOK};

verus! {

/// How a job is run: as the thread with this index, out of this many threads.
pub struct ThreadRun {
    pub thread_index: u32,
    pub thread_max: u32,
}

/// The operations of the multi-thread suite.
pub struct MultiThreadSuite;

/// The multi-thread suite that the host hands to plug-ins.
pub fn multithread_suite() -> (r: MultiThreadSuite) {
    MultiThreadSuite
}

impl MultiThreadSuite {
    /// How a job asked to run on `n_threads` threads is run: once, as thread
    /// 0 of 1, whatever was asked.
    pub fn multi_thread(&self, n_threads: u32) -> (r: ThreadRun)
        ensures
            r.thread_index == 0,
            r.thread_max == 1,
    {
        ThreadRun { thread_index: 0, thread_max: 1 }
    }

    /// The number of CPUs the host reports.
    pub fn multi_thread_num_cpus(&self) -> (r: u32)
        ensures
            r == 1,
    {
        1
    }

    /// The index of the calling thread.
    pub fn multi_thread_index(&self) -> (r: u32)
        ensures
            r == 0,
    {
        0
    }

    /// Whether the calling thread was spawned by the host: the answer is the OK status (0).
    pub fn multi_thread_is_spawned_thread(&self) -> (r: i32)
        ensures
            r == kOfxStatOK,
    {
        kOfxStatOK
    }

    /// Mutexes are not provided.
    pub fn mutex_create(&self) -> (status: i32)
        ensures
            status == kOfxStatErrUnsupported,
    {
        kOfxStatErrUnsupported
    }

    /// Mutexes are not provided.
    pub fn mutex_destroy(&self) -> (status: i32)
        ensures
            status == kOfxStatErrUnsupported,
    {
        kOfxStatErrUnsupported
    }

    /// Mutexes are not provided.
    pub fn mutex_lock(&self) -> (status: i32)
        ensures
            status == kOfxStatErrUnsupported,
    {
        kOfxStatErrUnsupported
    }

    /// Mutexes are not provided.
    pub fn mutex_unlock(&self) -> (status: i32)
        ensures
            status == kOfxStatErrUnsupported,
    {
        kOfxStatErrUnsupported
    }

    /// Mutexes are not provided.
    pub fn mutex_try_lock(&self) -> (status: i32)
        ensures
            status == kOfxStatErrUnsupported,
    {
        kOfxStatErrUnsupported
    }
}

} // verus!
