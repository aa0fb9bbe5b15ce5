//! Raw telemetry records and the normalized domain events produced from them.
use vstd::prelude::*;

use crate::context::identity::{FileKey, ProcessKey};
use crate::context::models::file::FileOperationKind;
use crate::context::models::module::LoadedModule;

verus! {

/// A raw kernel trace record: header fields and the event's payload bytes.
#[derive(Debug, Clone)]
pub struct EventRecord {
    /// Process that emitted the event.
    pub process_id: u32,
    /// Thread that emitted the event.
    pub thread_id: u32,
    /// Event timestamp.
    pub timestamp: i64,
    /// Event opcode within its provider.
    pub opcode: u8,
    /// Event payload.
    pub user_data: Vec<u8>,
}

/// A syscall trigger event paired with the kernel stack captured for it.
#[derive(Debug, Clone, PartialEq, Eq)]
pub struct CorrelatedSyscallEvent {
    /// Process ID of the triggering thread.
    pub pid: u32,
    /// Thread ID of the triggering thread.
    pub tid: u32,
    /// Timestamp of the trigger event.
    pub timestamp: i64,
    /// Address of the syscall instruction, when known.
    pub syscall_address: Option<u64>,
    /// Return addresses of the captured call stack, innermost first.
    pub frames: Vec<u64>,
}

/// A process started.
#[derive(Debug, Clone)]
pub struct ProcessStartEvent {
    /// Key of the process.
    pub key: ProcessKey,
    /// Process id.
    pub pid: u32,
    /// Parent process id.
    pub parent_pid: u32,
    /// Key of the parent, when resolved.
    pub parent_key: Option<ProcessKey>,
    /// Session id.
    pub session_id: u32,
    /// Image file name.
    pub image_file_name: String,
    /// Command line, when present.
    pub command_line: Option<String>,
    /// Event timestamp.
    pub timestamp: i64,
}

/// A process exited.
#[derive(Debug, Clone)]
pub struct ProcessExitEvent {
    /// Key of the process (0 when it was not tracked).
    pub key: ProcessKey,
    /// Process id.
    pub pid: u32,
    /// Exit code.
    pub exit_status: u32,
    /// Event timestamp.
    pub timestamp: i64,
}

/// An image was mapped into a process.
#[derive(Debug, Clone)]
pub struct ImageLoadEvent {
    /// Key of the process.
    pub process_key: ProcessKey,
    /// Process id.
    pub pid: u32,
    /// The mapped module.
    pub module: LoadedModule,
    /// Event timestamp.
    pub timestamp: i64,
}

/// An image was unmapped from a process.
#[derive(Debug, Clone)]
pub struct ImageUnloadEvent {
    /// Key of the process (0 when it was not tracked).
    pub process_key: ProcessKey,
    /// Process id.
    pub pid: u32,
    /// Base address of the unmapped image.
    pub base_address: u64,
    /// Event timestamp.
    pub timestamp: i64,
}

/// A file was created or opened, or a file object was named.
#[derive(Debug, Clone)]
pub struct FileCreateEvent {
    /// Key of the acting process (0 when it was not tracked).
    pub process_key: ProcessKey,
    /// Process id.
    pub pid: u32,
    /// Key of the file.
    pub file_key: FileKey,
    /// Kernel file object.
    pub file_object: u64,
    /// Normalized path of the file.
    pub file_path: String,
    /// Create options.
    pub create_options: u32,
    /// File attributes.
    pub file_attributes: u32,
    /// Share access.
    pub share_access: u32,
    /// Event timestamp.
    pub timestamp: i64,
}

/// A file was read or written.
#[derive(Debug, Clone)]
pub struct FileReadWriteEvent {
    /// Key of the acting process (0 when it was not tracked).
    pub process_key: ProcessKey,
    /// Process id.
    pub pid: u32,
    /// Key of the file, when its object is mapped.
    pub file_key: Option<FileKey>,
    /// Kernel file object.
    pub file_object: u64,
    /// Path of the file, when tracked.
    pub file_path: Option<String>,
    /// The access is a write.
    pub is_write: bool,
    /// File offset.
    pub offset: u64,
    /// Bytes transferred.
    pub io_size: u32,
    /// I/O flags.
    pub io_flags: u32,
    /// Event timestamp.
    pub timestamp: i64,
}

/// Another file operation (close, cleanup, delete, rename, ...).
#[derive(Debug, Clone)]
pub struct FileOperationEvent {
    /// Key of the acting process (0 when it was not tracked).
    pub process_key: ProcessKey,
    /// Process id.
    pub pid: u32,
    /// Key of the file, when its object is mapped.
    pub file_key: Option<FileKey>,
    /// Kernel file object.
    pub file_object: u64,
    /// Path of the file, when tracked.
    pub file_path: Option<String>,
    /// The operation.
    pub operation: FileOperationKind,
    /// Operation-specific extra information.
    pub extra_info: u64,
    /// Information class, for set-information operations.
    pub info_class: u32,
    /// Event timestamp.
    pub timestamp: i64,
}

} // verus!
