//! File I/O event handlers.
use vstd::prelude::*;

use crate::context::handlers::{live_process, opt_text, too_short};
use crate::context::identity::{FileKey, ProcessKey};
use crate::context::models::file::{history_after, FileAccessRecord, FileContext, FileOperationKind};
use crate::context::models::process::ProcessContext;
use crate::context::registries::file_registry::{key_for_path, lemma_registered_path_found, normalized_path};
use crate::context::system::SystemContext;
use crate::error::HandlerError;
use crate::helpers::bytes::{le32, le64, read_u32, read_u64};
use crate::helpers::strings::{extract_utf16_string, utf16_extract};
use crate::pipeline::event::{EventRecord, FileCreateEvent, FileOperationEvent, FileReadWriteEvent};

verus! {

/// Minimum payload of a file create event.
pub const MIN_CREATE_STRUCT_SIZE: usize = 36;
/// Minimum payload of a file name event.
pub const MIN_NAME_STRUCT_SIZE: usize = 8;
/// Minimum payload of a file read or write event.
pub const MIN_READWRITE_STRUCT_SIZE: usize = 48;
/// Minimum payload of a simple file operation event.
pub const MIN_SIMPLEOP_STRUCT_SIZE: usize = 24;

/// The file operation an opcode stands for.
pub open spec fn operation_of(opcode: u8) -> FileOperationKind {
    if opcode == 65 {
        FileOperationKind::Cleanup
    } else if opcode == 66 {
        FileOperationKind::Close
    } else if opcode == 69 {
        FileOperationKind::SetInformation
    } else if opcode == 70 {
        FileOperationKind::Delete
    } else if opcode == 71 {
        FileOperationKind::Rename
    } else if opcode == 73 {
        FileOperationKind::Flush
    } else {
        FileOperationKind::Open
    }
}

/// The operation modifies the file.
pub open spec fn modifies(op: FileOperationKind) -> bool {
    op is SetInformation || op is Delete || op is Rename
}

/// `after` is `before` with `fk` recorded as touched by the process holding `pid` (when a
/// tracked process holds it); `key` is that process's key, or 0.
pub open spec fn touched_by(before: SystemContext, pid: u32, fk: Option<FileKey>, after: SystemContext, key: ProcessKey) -> bool {
    &&& after.processes.pids() == before.processes.pids()
    &&& match live_process(before, pid) {
        Some(p) => {
            &&& key == p.key
            &&& after.processes.procs() == before.processes.procs().insert(
                p.key.0,
                match fk {
                    Some(f) => ProcessContext {
                        touched_files: after.processes.procs()[p.key.0].touched_files,
                        ..p
                    },
                    None => p,
                },
            )
            &&& fk matches Some(f) ==> after.processes.procs()[p.key.0].touched_files@
                == p.touched_files@.insert(f.0)
        },
        None => key == ProcessKey(0) && after.processes.procs() == before.processes.procs(),
    }
}

/// The operations that modify a file are exactly set-information (opcode 69), delete (70)
/// and rename (71): recording one of them on a tracked file marks the file modified, while
/// open, close, cleanup and flush leave its modified flag as it was.
pub proof fn lemma_modifying_operations(
    opcode: u8,
    before: Map<u64, FileContext>,
    k: u64,
    timestamp: i64,
    after: Map<u64, FileContext>,
)
    requires
        access_recorded(
            before,
            k,
            FileAccessRecord {
                operation: operation_of(opcode),
                timestamp,
                bytes_transferred: 0,
                is_write: modifies(operation_of(opcode)),
            },
            after,
        ),
    ensures
        modifies(operation_of(opcode)) == (opcode == 69 || opcode == 70 || opcode == 71),
        opcode == 69 || opcode == 70 || opcode == 71 ==> after[k].is_modified,
        !(opcode == 69 || opcode == 70 || opcode == 71) ==> after[k].is_modified == before[k].is_modified,
{
}

/// `after` is the file table `before` with `rec` recorded on the file `k`: its history gains
/// the record, it is marked modified by a write, its last access is the record's time,
/// nothing else of it changes, and no other file changes.
pub open spec fn access_recorded(
    before: Map<u64, FileContext>,
    k: u64,
    rec: FileAccessRecord,
    after: Map<u64, FileContext>,
) -> bool {
    &&& after.dom() == before.dom()
    &&& forall|j: u64| #[trigger] after.contains_key(j) && j != k ==> after[j] == before[j]
    &&& after[k].history() == history_after(before[k].history(), rec)
    &&& after[k].is_modified == (before[k].is_modified || rec.is_write)
    &&& after[k].last_accessed == rec.timestamp
    &&& after[k] == (FileContext {
        access_history: after[k].access_history,
        is_modified: after[k].is_modified,
        last_accessed: after[k].last_accessed,
        ..before[k]
    })
}

/// What a read or write event does: `res` and `after` are the outcome of handling `record`
/// (a write when `is_write`) on the context `before`.
pub open spec fn read_write_handled(
    before: SystemContext,
    record: EventRecord,
    is_write: bool,
    res: Result<FileReadWriteEvent, HandlerError>,
    after: SystemContext,
) -> bool {
    let d = record.user_data@;
    match res {
        Err(e) => {
            &&& too_short(d, MIN_READWRITE_STRUCT_SIZE)
            &&& e == (HandlerError::PayloadTooShort {
                expected: MIN_READWRITE_STRUCT_SIZE,
                actual: d.len() as usize,
            })
            &&& after == before
        },
        Ok(ev) => {
            let fo = le64(d, 24) as u64;
            let objects = before.files.objects();
            let files = before.files.files();
            &&& !too_short(d, MIN_READWRITE_STRUCT_SIZE)
            &&& ev.pid == record.process_id
            &&& ev.file_object == fo
            &&& ev.offset as int == le64(d, 0)
            &&& ev.io_size as int == le32(d, 40)
            &&& ev.io_flags as int == le32(d, 44)
            &&& ev.is_write == is_write
            &&& ev.timestamp == record.timestamp
            &&& ev.file_key == (if objects.contains_key(fo) {
                Some(FileKey(objects[fo]))
            } else {
                None
            })
            &&& after.files.objects() == objects
            &&& after.files.paths() == before.files.paths()
            &&& after.files.device_table() == before.files.device_table()
            &&& (match ev.file_key {
                Some(k) if files.contains_key(k.0) => {
                    &&& ev.file_path == Some(files[k.0].path)
                    &&& access_recorded(
                        files,
                        k.0,
                        FileAccessRecord {
                            operation: if is_write {
                                FileOperationKind::Write
                            } else {
                                FileOperationKind::Read
                            },
                            timestamp: record.timestamp,
                            bytes_transferred: ev.io_size as u64,
                            is_write,
                        },
                        after.files.files(),
                    )
                },
                _ => ev.file_path is None && after.files.files() == files,
            })
            &&& touched_by(before, record.process_id, ev.file_key, after, ev.process_key)
            &&& after.interactions == before.interactions
            &&& after.retention == before.retention
            &&& after.network == before.network
            &&& after.injection_correlator == before.injection_correlator
            &&& after.process_ids == before.process_ids
            &&& after.file_ids == before.file_ids
            &&& after.connection_ids == before.connection_ids
            &&& after.interaction_ids == before.interaction_ids
        },
    }
}

/// Two contexts that agree on everything a file access can change: the same processes
/// (touched files compared as sets), the same files (histories compared as sequences), the
/// same file-object mapping, path index and device table, and the same other registries and
/// key counters.
pub open spec fn access_views_agree(a: SystemContext, b: SystemContext) -> bool {
    &&& a.processes.pids() == b.processes.pids()
    &&& a.processes.procs().dom() == b.processes.procs().dom()
    &&& forall|k: u64| #[trigger]
        a.processes.procs().contains_key(k) ==> a.processes.procs()[k] == (ProcessContext {
            touched_files: a.processes.procs()[k].touched_files,
            ..b.processes.procs()[k]
        }) && a.processes.procs()[k].touched_files@ == b.processes.procs()[k].touched_files@
    &&& a.files.files().dom() == b.files.files().dom()
    &&& forall|k: u64| #[trigger]
        a.files.files().contains_key(k) ==> a.files.files()[k] == (FileContext {
            access_history: a.files.files()[k].access_history,
            ..b.files.files()[k]
        }) && a.files.files()[k].history() == b.files.files()[k].history()
    &&& a.files.objects() == b.files.objects()
    &&& a.files.paths() == b.files.paths()
    &&& a.files.device_table() == b.files.device_table()
    &&& a.interactions == b.interactions
    &&& a.retention == b.retention
    &&& a.network == b.network
    &&& a.injection_correlator == b.injection_correlator
    &&& a.process_ids == b.process_ids
    &&& a.file_ids == b.file_ids
    &&& a.connection_ids == b.connection_ids
    &&& a.interaction_ids == b.interaction_ids
}

/// A read or write event has one outcome: handled twice on the same context (as
/// `handle_file_read_write` and `handle_file_write` do for a write), it gives the same result
/// and contexts that agree on everything the access can change.
pub proof fn lemma_read_write_outcome_unique(
    before: SystemContext,
    record: EventRecord,
    is_write: bool,
    r1: Result<FileReadWriteEvent, HandlerError>,
    a1: SystemContext,
    r2: Result<FileReadWriteEvent, HandlerError>,
    a2: SystemContext,
)
    requires
        read_write_handled(before, record, is_write, r1, a1),
        read_write_handled(before, record, is_write, r2, a2),
    ensures
        r1 == r2,
        access_views_agree(a1, a2),
{
}

/// Records that the process holding `pid` touched the file (when both are known). Returns
/// the process's key, or 0 when no tracked process holds `pid`.
fn touch_from_process(ctx: &mut SystemContext, pid: u32, file_key: Option<FileKey>) -> (key: ProcessKey)
    requires
        old(ctx).wf(),
    ensures
        final(ctx).wf(),
        touched_by(*old(ctx), pid, file_key, *final(ctx), key),
        final(ctx).files == old(ctx).files,
        final(ctx).interactions == old(ctx).interactions,
        final(ctx).retention == old(ctx).retention,
        final(ctx).file_ids == old(ctx).file_ids,
        final(ctx).network == old(ctx).network,
        final(ctx).injection_correlator == old(ctx).injection_correlator,
        final(ctx).process_ids == old(ctx).process_ids,
        final(ctx).connection_ids == old(ctx).connection_ids,
        final(ctx).interaction_ids == old(ctx).interaction_ids,
{
    let k = match ctx.get_process(pid) {
        Some(p) => p.key,
        None => {
            return ProcessKey::from_raw(0);
        },
    };
    assert(live_process(*old(ctx), pid) == Some(old(ctx).processes.procs()[k.0]));
    match file_key {
        Some(f) => {
            match ctx.processes.evict(k) {
                Some(mut p) => {
                    p.record_file_access(f);
                    ctx.processes.restore(p);
                    assert(ctx.processes.procs() =~= old(ctx).processes.procs().insert(k.0, p));
                },
                None => {},
            }
        },
        None => {
            assert(old(ctx).processes.procs().insert(k.0, old(ctx).processes.procs()[k.0]) =~= old(
                ctx,
            ).processes.procs());
        },
    }
    k
}

/// Handles a file create: registers the file by its path, maps its file object, records the
/// creation in the file's history, and records the file as touched by the process.
pub fn handle_file_create(ctx: &mut SystemContext, record: &EventRecord) -> (res: Result<
    FileCreateEvent,
    HandlerError,
>)
    requires
        old(ctx).wf(),
        old(ctx).file_ids.peek() < u64::MAX,
        record.user_data@.len() <= isize::MAX,
    ensures
        final(ctx).wf(),
        old(ctx).file_ids.peek() <= final(ctx).file_ids.peek(),
        final(ctx).file_ids.peek() <= old(ctx).file_ids.peek() + 1,
        ({
            let d = record.user_data@;
            match res {
                Err(e) => {
                    &&& too_short(d, MIN_CREATE_STRUCT_SIZE)
                    &&& e == (HandlerError::PayloadTooShort {
                        expected: MIN_CREATE_STRUCT_SIZE,
                        actual: d.len() as usize,
                    })
                    &&& *final(ctx) == *old(ctx)
                },
                Ok(ev) => {
                    let fo = le64(d, 16) as u64;
                    &&& !too_short(d, MIN_CREATE_STRUCT_SIZE)
                    &&& ev.pid == record.process_id
                    &&& ev.file_object == fo
                    &&& ev.create_options as int == le32(d, 24)
                    &&& ev.file_attributes as int == le32(d, 28)
                    &&& ev.share_access as int == le32(d, 32)
                    &&& ev.timestamp == record.timestamp
                    &&& final(ctx).files.files().contains_key(ev.file_key.0)
                    &&& ev.file_path == final(ctx).files.files()[ev.file_key.0].path
                    &&& ev.file_path@ == normalized_path(
                        match utf16_extract(d, 36).0 {
                            Some(n) => n,
                            None => Seq::empty(),
                        },
                        old(ctx).files.device_table(),
                    )
                    &&& key_for_path(
                        final(ctx).files.paths(),
                        normalized_path(
                            match utf16_extract(d, 36).0 {
                                Some(n) => n,
                                None => Seq::empty(),
                            },
                            old(ctx).files.device_table(),
                        ),
                    ) == Some(ev.file_key.0)
                    &&& final(ctx).files.objects() == (if fo != 0 {
                        old(ctx).files.objects().insert(fo, ev.file_key.0)
                    } else {
                        old(ctx).files.objects()
                    })
                    &&& final(ctx).files.files()[ev.file_key.0].history().last() == (FileAccessRecord {
                        operation: FileOperationKind::Create,
                        timestamp: record.timestamp,
                        bytes_transferred: 0,
                        is_write: true,
                    })
                    &&& final(ctx).files.files()[ev.file_key.0].is_modified
                    &&& final(ctx).processes.pids() == old(ctx).processes.pids()
                    &&& (match live_process(*old(ctx), record.process_id) {
                        Some(p) => ev.process_key == p.key && final(ctx).processes.procs()[p.key.0].touched_files@
                            == p.touched_files@.insert(ev.file_key.0),
                        None => ev.process_key == ProcessKey(0) && final(ctx).processes.procs()
                            == old(ctx).processes.procs(),
                    })
                },
            }
        }),
{
    let data = &record.user_data;
    if data.len() < MIN_CREATE_STRUCT_SIZE {
        return Err(HandlerError::PayloadTooShort { expected: MIN_CREATE_STRUCT_SIZE, actual: data.len() });
    }
    let bytes = data.as_slice();
    let file_object = read_u64(bytes, 16);
    let create_options = read_u32(bytes, 24);
    let file_attributes = read_u32(bytes, 28);
    let share_access = read_u32(bytes, 32);
    let (open_path, _) = extract_utf16_string(bytes, 36);
    let resolved_path = match open_path {
        Some(p) => p,
        None => String::new(),
    };
    let ghost files_before = ctx.files;
    let file_key = ctx.get_or_create_file(resolved_path.as_str(), record.timestamp);
    proof {
        lemma_registered_path_found(
            files_before.paths(),
            normalized_path(resolved_path@, files_before.device_table()),
            file_key.0,
            ctx.files.paths(),
        );
    }
    ctx.files.map_file_object(file_object, file_key);
    ctx.files.record_access(
        file_key,
        FileAccessRecord {
            operation: FileOperationKind::Create,
            timestamp: record.timestamp,
            bytes_transferred: 0,
            is_write: true,
        },
    );
    let ghost files_now = ctx.files;
    let process_key = touch_from_process(ctx, record.process_id, Some(file_key));
    proof {
        ctx.files.lemma_path_lookup(normalized_path(resolved_path@, files_before.device_table()));
    }
    let file_path = match ctx.files.get_by_key(file_key) {
        Some(f) => f.path.clone(),
        None => String::new(),
    };
    Ok(
        FileCreateEvent {
            process_key,
            pid: record.process_id,
            file_key,
            file_object,
            file_path,
            create_options,
            file_attributes,
            share_access,
            timestamp: record.timestamp,
        },
    )
}

/// Handles a file-name event: registers the named file, maps its file object and records
/// it as touched by the process. An event without a (non-empty, valid) name yields `None`.
pub fn handle_file_name(ctx: &mut SystemContext, record: &EventRecord) -> (res: Result<
    Option<FileCreateEvent>,
    HandlerError,
>)
    requires
        old(ctx).wf(),
        old(ctx).file_ids.peek() < u64::MAX,
        record.user_data@.len() <= isize::MAX,
    ensures
        final(ctx).wf(),
        old(ctx).file_ids.peek() <= final(ctx).file_ids.peek(),
        final(ctx).file_ids.peek() <= old(ctx).file_ids.peek() + 1,
        ({
            let d = record.user_data@;
            match res {
                Err(e) => {
                    &&& too_short(d, MIN_NAME_STRUCT_SIZE)
                    &&& e == (HandlerError::PayloadTooShort {
                        expected: MIN_NAME_STRUCT_SIZE,
                        actual: d.len() as usize,
                    })
                    &&& *final(ctx) == *old(ctx)
                },
                Ok(None) => {
                    &&& !too_short(d, MIN_NAME_STRUCT_SIZE)
                    &&& match utf16_extract(d, 8).0 {
                        Some(n) => n.len() == 0,
                        None => true,
                    }
                    &&& *final(ctx) == *old(ctx)
                },
                Ok(Some(ev)) => {
                    let fo = le64(d, 0) as u64;
                    &&& !too_short(d, MIN_NAME_STRUCT_SIZE)
                    &&& utf16_extract(d, 8).0 matches Some(n) && n.len() > 0
                    &&& ev.pid == record.process_id
                    &&& ev.file_object == fo
                    &&& ev.create_options == 0
                    &&& ev.file_attributes == 0
                    &&& ev.share_access == 0
                    &&& ev.timestamp == record.timestamp
                    &&& final(ctx).files.files().contains_key(ev.file_key.0)
                    &&& ev.file_path == final(ctx).files.files()[ev.file_key.0].path
                    &&& ev.file_path@ == normalized_path(utf16_extract(d, 8).0->0, old(ctx).files.device_table())
                    &&& key_for_path(
                        final(ctx).files.paths(),
                        normalized_path(utf16_extract(d, 8).0->0, old(ctx).files.device_table()),
                    ) == Some(ev.file_key.0)
                    &&& final(ctx).files.objects() == (if fo != 0 {
                        old(ctx).files.objects().insert(fo, ev.file_key.0)
                    } else {
                        old(ctx).files.objects()
                    })
                    &&& final(ctx).processes.pids() == old(ctx).processes.pids()
                    &&& (match live_process(*old(ctx), record.process_id) {
                        Some(p) => ev.process_key == p.key && final(ctx).processes.procs()[p.key.0].touched_files@
                            == p.touched_files@.insert(ev.file_key.0),
                        None => ev.process_key == ProcessKey(0) && final(ctx).processes.procs()
                            == old(ctx).processes.procs(),
                    })
                },
            }
        }),
{
    let data = &record.user_data;
    if data.len() < MIN_NAME_STRUCT_SIZE {
        return Err(HandlerError::PayloadTooShort { expected: MIN_NAME_STRUCT_SIZE, actual: data.len() });
    }
    let bytes = data.as_slice();
    let file_object = read_u64(bytes, 0);
    let (file_name, _) = extract_utf16_string(bytes, 8);
    let resolved_path = match file_name {
        Some(p) => p,
        None => {
            return Ok(None);
        },
    };
    if resolved_path.as_str().is_empty() {
        return Ok(None);
    }
    let ghost files_before = ctx.files;
    let file_key = ctx.get_or_create_file(resolved_path.as_str(), record.timestamp);
    proof {
        lemma_registered_path_found(
            files_before.paths(),
            normalized_path(resolved_path@, files_before.device_table()),
            file_key.0,
            ctx.files.paths(),
        );
    }
    ctx.files.map_file_object(file_object, file_key);
    let process_key = touch_from_process(ctx, record.process_id, Some(file_key));
    proof {
        ctx.files.lemma_path_lookup(normalized_path(resolved_path@, files_before.device_table()));
    }
    let file_path = match ctx.files.get_by_key(file_key) {
        Some(f) => f.path.clone(),
        None => String::new(),
    };
    Ok(
        Some(
            FileCreateEvent {
                process_key,
                pid: record.process_id,
                file_key,
                file_object,
                file_path,
                create_options: 0,
                file_attributes: 0,
                share_access: 0,
                timestamp: record.timestamp,
            },
        ),
    )
}

/// Handles a file read or write: resolves the file object, records the access in the
/// file's history, and records the file as touched by the process.
pub fn handle_file_read_write(ctx: &mut SystemContext, record: &EventRecord, is_write: bool) -> (res:
    Result<FileReadWriteEvent, HandlerError>)
    requires
        old(ctx).wf(),
    ensures
        final(ctx).wf(),
        read_write_handled(*old(ctx), *record, is_write, res, *final(ctx)),
{
    let data = &record.user_data;
    if data.len() < MIN_READWRITE_STRUCT_SIZE {
        return Err(HandlerError::PayloadTooShort { expected: MIN_READWRITE_STRUCT_SIZE, actual: data.len() });
    }
    let bytes = data.as_slice();
    let offset = read_u64(bytes, 0);
    let file_object = read_u64(bytes, 24);
    let io_size = read_u32(bytes, 40);
    let io_flags = read_u32(bytes, 44);
    let file_key = ctx.files.get_key_by_file_object(file_object);
    let mut file_path: Option<String> = None;
    match file_key {
        Some(k) => {
            match ctx.files.get_by_key(k) {
                Some(f) => {
                    file_path = Some(f.path.clone());
                    ctx.files.record_access(
                        k,
                        FileAccessRecord {
                            operation: if is_write {
                                FileOperationKind::Write
                            } else {
                                FileOperationKind::Read
                            },
                            timestamp: record.timestamp,
                            bytes_transferred: io_size as u64,
                            is_write,
                        },
                    );
                },
                None => {},
            }
        },
        None => {},
    }
    let ghost after_files = *ctx;
    let process_key = touch_from_process(ctx, record.process_id, file_key);
    proof {
        assert(live_process(after_files, record.process_id) == live_process(*old(ctx), record.process_id));
    }
    Ok(
        FileReadWriteEvent {
            process_key,
            pid: record.process_id,
            file_key,
            file_object,
            file_path,
            is_write,
            offset,
            io_size,
            io_flags,
            timestamp: record.timestamp,
        },
    )
}

/// Handles a file write (a read-write event that writes).
pub fn handle_file_write(ctx: &mut SystemContext, record: &EventRecord) -> (res: Result<
    FileReadWriteEvent,
    HandlerError,
>)
    requires
        old(ctx).wf(),
    ensures
        final(ctx).wf(),
        read_write_handled(*old(ctx), *record, true, res, *final(ctx)),
{
    handle_file_read_write(ctx, record, true)
}

/// Handles a simple file operation: the opcode gives the operation; a close unmaps the file
/// object. The operation is recorded in the file's history (as a write for set-information,
/// delete and rename) and the file recorded as touched by the process.
pub fn handle_file_operation(ctx: &mut SystemContext, record: &EventRecord) -> (res: Result<
    FileOperationEvent,
    HandlerError,
>)
    requires
        old(ctx).wf(),
    ensures
        final(ctx).wf(),
        ({
            let d = record.user_data@;
            match res {
                Err(e) => {
                    &&& too_short(d, MIN_SIMPLEOP_STRUCT_SIZE)
                    &&& e == (HandlerError::PayloadTooShort {
                        expected: MIN_SIMPLEOP_STRUCT_SIZE,
                        actual: d.len() as usize,
                    })
                    &&& *final(ctx) == *old(ctx)
                },
                Ok(ev) => {
                    let fo = le64(d, 16) as u64;
                    let op = operation_of(record.opcode);
                    let objects = old(ctx).files.objects();
                    let files = old(ctx).files.files();
                    &&& !too_short(d, MIN_SIMPLEOP_STRUCT_SIZE)
                    &&& ev.pid == record.process_id
                    &&& ev.file_object == fo
                    &&& ev.operation == op
                    &&& ev.extra_info as int == (if d.len() >= 44 { le64(d, 32) } else { 0 })
                    &&& ev.info_class as int == (if d.len() >= 44 { le32(d, 40) } else { 0 })
                    &&& ev.timestamp == record.timestamp
                    &&& ev.file_key == (if objects.contains_key(fo) {
                        Some(FileKey(objects[fo]))
                    } else {
                        None
                    })
                    &&& final(ctx).files.objects() == (if op is Close {
                        objects.remove(fo)
                    } else {
                        objects
                    })
                    &&& final(ctx).files.paths() == old(ctx).files.paths()
                    &&& final(ctx).files.device_table() == old(ctx).files.device_table()
                    &&& final(ctx).interactions == old(ctx).interactions
                    &&& final(ctx).retention == old(ctx).retention
                    &&& (match ev.file_key {
                        Some(k) if files.contains_key(k.0) => {
                            &&& ev.file_path == Some(files[k.0].path)
                            &&& access_recorded(
                                files,
                                k.0,
                                FileAccessRecord {
                                    operation: op,
                                    timestamp: record.timestamp,
                                    bytes_transferred: 0,
                                    is_write: modifies(op),
                                },
                                final(ctx).files.files(),
                            )
                        },
                        _ => ev.file_path is None && final(ctx).files.files() == files,
                    })
                    &&& touched_by(*old(ctx), record.process_id, ev.file_key, *final(ctx), ev.process_key)
                },
            }
        }),
{
    let data = &record.user_data;
    if data.len() < MIN_SIMPLEOP_STRUCT_SIZE {
        return Err(HandlerError::PayloadTooShort { expected: MIN_SIMPLEOP_STRUCT_SIZE, actual: data.len() });
    }
    let bytes = data.as_slice();
    let file_object = read_u64(bytes, 16);
    let (extra_info, info_class) = if bytes.len() >= 44 {
        (read_u64(bytes, 32), read_u32(bytes, 40))
    } else {
        (0u64, 0u32)
    };
    let operation = match record.opcode {
        65 => FileOperationKind::Cleanup,
        66 => FileOperationKind::Close,
        69 => FileOperationKind::SetInformation,
        70 => FileOperationKind::Delete,
        71 => FileOperationKind::Rename,
        73 => FileOperationKind::Flush,
        _ => FileOperationKind::Open,
    };
    let file_key = match operation {
        FileOperationKind::Close => ctx.files.unmap_file_object(file_object),
        _ => ctx.files.get_key_by_file_object(file_object),
    };
    let mut file_path: Option<String> = None;
    match file_key {
        Some(k) => {
            match ctx.files.get_by_key(k) {
                Some(f) => {
                    file_path = Some(f.path.clone());
                    let is_write = match operation {
                        FileOperationKind::SetInformation
                        | FileOperationKind::Delete
                        | FileOperationKind::Rename => true,
                        _ => false,
                    };
                    ctx.files.record_access(
                        k,
                        FileAccessRecord {
                            operation,
                            timestamp: record.timestamp,
                            bytes_transferred: 0,
                            is_write,
                        },
                    );
                },
                None => {},
            }
        },
        None => {},
    }
    let ghost after_files = *ctx;
    let process_key = touch_from_process(ctx, record.process_id, file_key);
    proof {
        assert(live_process(after_files, record.process_id) == live_process(*old(ctx), record.process_id));
    }
    Ok(
        FileOperationEvent {
            process_key,
            pid: record.process_id,
            file_key,
            file_object,
            file_path,
            operation,
            extra_info,
            info_class,
            timestamp: record.timestamp,
        },
    )
}

} // verus!
