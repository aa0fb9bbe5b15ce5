//! Threads and their execution state.
use vstd::prelude::*;

use crate::context::identity::{ProcessKey, ThreadKey};
use crate::context::models::token::TokenContext;

verus! {

/// Execution state of a thread.
#[derive(Debug, Clone, Copy, PartialEq, Eq, Structural)]
pub enum ThreadExecutionState {
    /// Scheduled and running.
    Running,
    /// Suspended.
    Suspended,
    /// Terminated.
    Terminated,
}

/// One thread lifetime.
#[derive(Debug)]
pub struct ThreadContext {
    /// Synthetic key of the thread.
    pub key: ThreadKey,
    /// Key of the owning process.
    pub owner_process: ProcessKey,
    /// Operating-system thread id.
    pub tid: u32,
    /// Address where execution began.
    pub start_address: u64,
    /// Base of the thread environment block, when known.
    pub teb_base: Option<u64>,
    /// Creation time.
    pub create_time: i64,
    /// Termination time (0 while alive).
    pub exit_time: i64,
    /// Exit code.
    pub exit_status: u32,
    /// Token the thread impersonates, if any.
    pub impersonation_token: Option<TokenContext>,
}

impl ThreadContext {
    /// A live thread with no TEB, exit data or impersonation recorded.
    pub fn new(key: ThreadKey, owner_process: ProcessKey, tid: u32, start_address: u64, create_time: i64) -> (t: Self)
        ensures
            t.key == key,
            t.owner_process == owner_process,
            t.tid == tid,
            t.start_address == start_address,
            t.teb_base is None,
            t.create_time == create_time,
            t.exit_time == 0,
            t.exit_status == 0,
            t.impersonation_token is None,
    {
        ThreadContext {
            key,
            owner_process,
            tid,
            start_address,
            teb_base: None,
            create_time,
            exit_time: 0,
            exit_status: 0,
            impersonation_token: None,
        }
    }

    /// The thread has not terminated (its exit time is 0).
    pub fn is_alive(&self) -> (b: bool)
        ensures
            b == (self.exit_time == 0),
    {
        self.exit_time == 0
    }

    /// Records the thread's termination.
    pub fn mark_terminated(&mut self, exit_status: u32, timestamp: i64)
        ensures
            final(self).exit_status == exit_status,
            final(self).exit_time == timestamp,
            final(self).key == old(self).key,
            final(self).owner_process == old(self).owner_process,
            final(self).tid == old(self).tid,
            final(self).start_address == old(self).start_address,
            final(self).teb_base == old(self).teb_base,
            final(self).create_time == old(self).create_time,
    {
        self.exit_status = exit_status;
        self.exit_time = timestamp;
    }
}

} // verus!
