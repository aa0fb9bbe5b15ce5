//! Query handle over one thread.
use vstd::prelude::*;

use crate::context::identity::{ProcessKey, ThreadKey};
use crate::context::models::thread::ThreadContext;
use crate::context::models::token::TokenContext;
use crate::context::query::process_query::{ref_at, ProcessRef};
use crate::context::system::SystemContext;

verus! {

/// A thread, seen through the context that holds its owner.
pub struct ThreadRef<'a> {
    /// The context the owning process belongs to.
    pub ctx: &'a SystemContext,
    /// The thread.
    pub inner: &'a ThreadContext,
}

impl<'a> ThreadRef<'a> {
    /// A handle on `inner`, seen through `ctx`.
    pub fn new(ctx: &'a SystemContext, inner: &'a ThreadContext) -> (r: Self)
        ensures
            r.ctx == ctx,
            r.inner == inner,
    {
        ThreadRef { ctx, inner }
    }

    /// The thread itself.
    pub fn context(&self) -> (t: &'a ThreadContext)
        ensures
            t == self.inner,
    {
        self.inner
    }

    /// Synthetic key.
    pub fn key(&self) -> (k: ThreadKey)
        ensures
            k == self.inner.key,
    {
        self.inner.key
    }

    /// Key of the owning process.
    pub fn owner_key(&self) -> (k: ProcessKey)
        ensures
            k == self.inner.owner_process,
    {
        self.inner.owner_process
    }

    /// The owning process, when it is tracked.
    pub fn owner_process(&self) -> (r: Option<ProcessRef<'a>>)
        ensures
            r == (if self.ctx.processes.procs().contains_key(self.inner.owner_process.0) {
                Some(ref_at(self.ctx, self.inner.owner_process.0))
            } else {
                None
            }),
    {
        self.ctx.process_by_key(self.inner.owner_process)
    }

    /// Operating-system thread id.
    pub fn tid(&self) -> (t: u32)
        ensures
            t == self.inner.tid,
    {
        self.inner.tid
    }

    /// Address where execution began.
    pub fn start_address(&self) -> (a: u64)
        ensures
            a == self.inner.start_address,
    {
        self.inner.start_address
    }

    /// Base of the thread environment block, when known.
    pub fn teb_base(&self) -> (a: Option<u64>)
        ensures
            a == self.inner.teb_base,
    {
        self.inner.teb_base
    }

    /// Creation time.
    pub fn create_time(&self) -> (t: i64)
        ensures
            t == self.inner.create_time,
    {
        self.inner.create_time
    }

    /// The thread has not exited.
    pub fn is_alive(&self) -> (b: bool)
        ensures
            b == (self.inner.exit_time == 0),
    {
        self.inner.is_alive()
    }

    /// The token the thread impersonates, if any.
    pub fn impersonation_token(&self) -> (t: Option<&'a TokenContext>)
        ensures
            match self.inner.impersonation_token {
                Some(tok) => t == Some(&tok),
                None => t is None,
            },
    {
        match &self.inner.impersonation_token {
            Some(tok) => Some(tok),
            None => None,
        }
    }
}

} // verus!
