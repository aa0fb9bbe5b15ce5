//! Kernel handles held by a process and the access they grant.
use vstd::prelude::*;

use crate::context::identity::{FileKey, ProcessKey, ThreadKey};

verus! {

/// What a handle refers to.
#[derive(Debug, Clone, PartialEq, Eq)]
pub enum HandleTarget {
    /// A process.
    Process(ProcessKey),
    /// A thread.
    Thread(ThreadKey),
    /// A file.
    File(FileKey),
    /// A registry key, by path.
    Key(String),
    /// A section object, by name.
    Section(String),
    /// An access token.
    Token,
    /// A mutant (mutex), by name.
    Mutant(String),
    /// An event, by name.
    Event(String),
    /// Any other object type, by description.
    Other(String),
}

impl HandleTarget {
    /// A registry key target.
    pub fn key(path: String) -> (t: Self)
        ensures
            t == HandleTarget::Key(path),
    {
        HandleTarget::Key(path)
    }

    /// A section target.
    pub fn section(name: String) -> (t: Self)
        ensures
            t == HandleTarget::Section(name),
    {
        HandleTarget::Section(name)
    }

    /// A mutant target.
    pub fn mutant(name: String) -> (t: Self)
        ensures
            t == HandleTarget::Mutant(name),
    {
        HandleTarget::Mutant(name)
    }

    /// An event target.
    pub fn event(name: String) -> (t: Self)
        ensures
            t == HandleTarget::Event(name),
    {
        HandleTarget::Event(name)
    }

    /// A target of another object type.
    pub fn other(name: String) -> (t: Self)
        ensures
            t == HandleTarget::Other(name),
    {
        HandleTarget::Other(name)
    }
}

/// `PROCESS_CREATE_THREAD` access right.
pub const PROCESS_CREATE_THREAD: u32 = 0x0002;
/// `PROCESS_VM_OPERATION` access right.
pub const PROCESS_VM_OPERATION: u32 = 0x0008;
/// `PROCESS_VM_READ` access right.
pub const PROCESS_VM_READ: u32 = 0x0010;
/// `PROCESS_VM_WRITE` access right.
pub const PROCESS_VM_WRITE: u32 = 0x0020;
/// `PROCESS_DUP_HANDLE` access right.
pub const PROCESS_DUP_HANDLE: u32 = 0x0040;
/// `THREAD_SUSPEND_RESUME` access right.
pub const THREAD_SUSPEND_RESUME: u32 = 0x0002;
/// `THREAD_SET_CONTEXT` access right.
pub const THREAD_SET_CONTEXT: u32 = 0x0010;
/// `THREAD_DIRECT_IMPERSONATION` access right.
pub const THREAD_DIRECT_IMPERSONATION: u32 = 0x0200;

/// Rights that let a holder modify another process's memory.
pub const PROCESS_WRITE_MASK: u32 = 0x0028;
/// Rights that enable cross-process injection.
pub const PROCESS_INJECT_MASK: u32 = 0x006A;
/// Rights that let a holder hijack a thread.
pub const THREAD_HIJACK_MASK: u32 = 0x0212;

/// A kernel handle opened by a process.
#[derive(Debug, Clone)]
pub struct HandleObject {
    /// The handle value in the owning process.
    pub handle_value: u64,
    /// The object the handle refers to.
    pub target: HandleTarget,
    /// Access mask granted on open.
    pub granted_access: u32,
    /// When the handle was opened.
    pub open_time: i64,
}

impl HandleObject {
    /// The handle grants `PROCESS_VM_WRITE` or `PROCESS_VM_OPERATION`.
    pub fn has_process_write_access(&self) -> (b: bool)
        ensures
            b == (self.granted_access & PROCESS_WRITE_MASK != 0),
    {
        (self.granted_access & PROCESS_WRITE_MASK) != 0
    }

    /// The handle grants any of `PROCESS_VM_WRITE`, `PROCESS_VM_OPERATION`,
    /// `PROCESS_CREATE_THREAD` or `PROCESS_DUP_HANDLE`.
    pub fn has_process_inject_access(&self) -> (b: bool)
        ensures
            b == (self.granted_access & PROCESS_INJECT_MASK != 0),
    {
        (self.granted_access & PROCESS_INJECT_MASK) != 0
    }

    /// The handle grants `PROCESS_VM_READ`.
    pub fn has_process_read_access(&self) -> (b: bool)
        ensures
            b == (self.granted_access & PROCESS_VM_READ != 0),
    {
        (self.granted_access & PROCESS_VM_READ) != 0
    }

    /// The handle grants any of `THREAD_SET_CONTEXT`, `THREAD_SUSPEND_RESUME` or
    /// `THREAD_DIRECT_IMPERSONATION`.
    pub fn has_thread_hijack_access(&self) -> (b: bool)
        ensures
            b == (self.granted_access & THREAD_HIJACK_MASK != 0),
    {
        (self.granted_access & THREAD_HIJACK_MASK) != 0
    }

    /// The target process, when the handle refers to a process.
    pub fn target_process(&self) -> (r: Option<ProcessKey>)
        ensures
            r == (match self.target {
                HandleTarget::Process(k) => Some(k),
                _ => None,
            }),
    {
        match &self.target {
            HandleTarget::Process(k) => Some(*k),
            _ => None,
        }
    }

    /// The target file, when the handle refers to a file.
    pub fn target_file(&self) -> (r: Option<FileKey>)
        ensures
            r == (match self.target {
                HandleTarget::File(k) => Some(k),
                _ => None,
            }),
    {
        match &self.target {
            HandleTarget::File(k) => Some(*k),
            _ => None,
        }
    }

    /// The target thread, when the handle refers to a thread.
    pub fn target_thread(&self) -> (r: Option<ThreadKey>)
        ensures
            r == (match self.target {
                HandleTarget::Thread(k) => Some(k),
                _ => None,
            }),
    {
        match &self.target {
            HandleTarget::Thread(k) => Some(*k),
            _ => None,
        }
    }
}

/// The masks are exactly the unions of the rights they are documented to hold.
pub proof fn lemma_access_masks()
    ensures
        PROCESS_WRITE_MASK == PROCESS_VM_WRITE | PROCESS_VM_OPERATION,
        PROCESS_INJECT_MASK == PROCESS_VM_WRITE | PROCESS_VM_OPERATION | PROCESS_CREATE_THREAD
            | PROCESS_DUP_HANDLE,
        THREAD_HIJACK_MASK == THREAD_SET_CONTEXT | THREAD_SUSPEND_RESUME
            | THREAD_DIRECT_IMPERSONATION,
{
    assert(0x0020u32 | 0x0008u32 == 0x0028u32) by (bit_vector);
    assert(0x0020u32 | 0x0008u32 | 0x0002u32 | 0x0040u32 == 0x006Au32) by (bit_vector);
    assert(0x0010u32 | 0x0002u32 | 0x0200u32 == 0x0212u32) by (bit_vector);
}

} // verus!
