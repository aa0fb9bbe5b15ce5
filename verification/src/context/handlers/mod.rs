//! Decoding of kernel trace payloads into domain events, updating the system context.
use vstd::prelude::*;

use crate::context::identity::{FileKey, ProcessKey};
use crate::context::models::module::{is_system_path_spec, LoadedModule};
use crate::context::models::process::{module_loaded, module_unloaded, ProcessContext};
use crate::context::registries::file_registry::{key_for_path, lemma_registered_path_found, normalized_path};
use crate::context::registries::process_tree::{child_linked, resolve_parent};
use crate::context::system::SystemContext;
use crate::error::HandlerError;
use crate::helpers::bytes::{le32, le64, read_u32, read_u64};
use crate::helpers::strings::{ansi_text, extract_ansi_string, extract_utf16_string, utf16_extract};
use crate::helpers::text::{chars_of, trim_str, unicode_trim};
use crate::pipeline::event::{
    EventRecord, ImageLoadEvent, ImageUnloadEvent, ProcessExitEvent, ProcessStartEvent,
};
use vstd::utf8::encode_utf8;

pub mod file;

verus! {

/// Minimum payload of a process start event.
pub const MIN_PROCESS_STRUCT_SIZE: usize = 48;
/// Minimum payload of a process exit event.
pub const MIN_EXIT_STRUCT_SIZE: usize = 24;
/// Minimum payload of an image load event.
pub const MIN_IMAGE_LOAD_STRUCT_SIZE: usize = 32;
/// Minimum payload of an image unload event.
pub const MIN_IMAGE_UNLOAD_STRUCT_SIZE: usize = 20;

/// The view of an optional string.
pub open spec fn opt_text(s: Option<String>) -> Option<Seq<char>> {
    match s {
        Some(v) => Some(v@),
        None => None,
    }
}

/// The process holding `pid` in the context, when one does and is tracked.
pub open spec fn live_process(ctx: SystemContext, pid: u32) -> Option<ProcessContext> {
    if ctx.processes.pids().contains_key(pid) && ctx.processes.procs().contains_key(
        ctx.processes.pids()[pid],
    ) {
        Some(ctx.processes.procs()[ctx.processes.pids()[pid]])
    } else {
        None
    }
}

/// `merged` is the field `existing` after a repeated start: kept when present, otherwise
/// filled in from the payload's value `incoming` (absent when the payload has none).
pub open spec fn filled_in(existing: Option<String>, incoming: Option<Seq<char>>, merged: Option<String>) -> bool {
    match existing {
        Some(_) => merged == existing,
        None => opt_text(merged) == incoming,
    }
}

/// Payload too short for the event's fixed layout.
pub open spec fn too_short(d: Seq<u8>, min: usize) -> bool {
    d.len() < min
}

/// Handles a process start: decodes the payload, and registers the process unless its PID
/// is already held by a tracked process (then that process's identity is reported).
pub fn handle_process_start(ctx: &mut SystemContext, record: &EventRecord) -> (res: Result<
    ProcessStartEvent,
    HandlerError,
>)
    requires
        old(ctx).wf(),
        old(ctx).file_ids.peek() < u64::MAX,
        record.user_data@.len() <= isize::MAX,
    ensures
        final(ctx).wf(),
        old(ctx).file_ids.peek() <= final(ctx).file_ids.peek(),
        final(ctx).file_ids.peek() <= old(ctx).file_ids.peek() + 1,
        ({
            let d = record.user_data@;
            match res {
                Err(e) => {
                    &&& too_short(d, MIN_PROCESS_STRUCT_SIZE)
                    &&& e == (HandlerError::PayloadTooShort {
                        expected: MIN_PROCESS_STRUCT_SIZE,
                        actual: record.user_data@.len() as usize,
                    })
                    &&& *final(ctx) == *old(ctx)
                },
                Ok(ev) => {
                    let pid = le32(d, 8) as u32;
                    let cmd = utf16_extract(d, 48);
                    &&& !too_short(d, MIN_PROCESS_STRUCT_SIZE)
                    &&& ev.pid == pid
                    &&& ev.parent_pid as int == le32(d, 12)
                    &&& ev.session_id as int == le32(d, 16)
                    &&& ev.image_file_name@ == ansi_text(d.subrange(32, 48))
                    &&& opt_text(ev.command_line) == cmd.0
                    &&& ev.timestamp == record.timestamp
                    &&& match live_process(*old(ctx), pid) {
                        Some(p) => {
                            let pkg = utf16_extract(d, cmd.1);
                            let app = utf16_extract(d, pkg.1);
                            let merged = final(ctx).processes.procs()[p.key.0];
                            &&& ev.key == p.key
                            &&& ev.parent_key == p.parent_key
                            &&& final(ctx).processes.pids() == old(ctx).processes.pids()
                            &&& final(ctx).processes.procs() == old(ctx).processes.procs().insert(p.key.0, merged)
                            &&& merged == (ProcessContext {
                                command_line: merged.command_line,
                                package_full_name: merged.package_full_name,
                                application_id: merged.application_id,
                                ..p
                            })
                            &&& filled_in(p.command_line, cmd.0, merged.command_line)
                            &&& filled_in(p.package_full_name, pkg.0, merged.package_full_name)
                            &&& filled_in(p.application_id, app.0, merged.application_id)
                            &&& *final(ctx) == (SystemContext { processes: final(ctx).processes, ..*old(ctx) })
                        },
                        None => {
                            let pkg = utf16_extract(d, cmd.1);
                            let app = utf16_extract(d, pkg.1);
                            let p = final(ctx).processes.procs()[ev.key.0];
                            &&& final(ctx).processes.procs().dom() == old(ctx).processes.procs().dom().insert(ev.key.0)
                            &&& match ev.parent_key {
                                Some(pk) => pk.0 != ev.key.0 ==> child_linked(
                                    old(ctx).processes.procs().insert(ev.key.0, p),
                                    pk.0,
                                    ev.key.0,
                                    final(ctx).processes.procs(),
                                ),
                                None => final(ctx).processes.procs() == old(ctx).processes.procs().insert(ev.key.0, p),
                            }
                            &&& ev.key.0 == old(ctx).process_ids.peek()
                            &&& ev.parent_key == resolve_parent(old(ctx).processes.pids(), ev.parent_pid)
                            &&& final(ctx).processes.pids() == old(ctx).processes.pids().insert(pid, ev.key.0)
                            &&& final(ctx).processes.procs().contains_key(ev.key.0)
                            &&& p.key == ev.key
                            &&& p.pid == pid
                            &&& p.parent_pid == ev.parent_pid
                            &&& p.parent_key == ev.parent_key
                            &&& p.session_id == ev.session_id
                            &&& p.create_time == record.timestamp
                            &&& p.exit_time == 0
                            &&& p.page_directory_base as int == le64(d, 0)
                            &&& p.unique_process_key as int == le64(d, 24)
                            &&& p.image_file_name@ == ev.image_file_name@
                            &&& opt_text(p.command_line) == cmd.0
                            &&& opt_text(p.package_full_name) == pkg.0
                            &&& opt_text(p.application_id) == app.0
                            &&& final(ctx).files.device_table() == old(ctx).files.device_table()
                            &&& final(ctx).interactions == old(ctx).interactions
                            &&& final(ctx).retention == old(ctx).retention
                            &&& if ev.image_file_name@.len() > 0 {
                                match key_for_path(
                                    final(ctx).files.paths(),
                                    normalized_path(ev.image_file_name@, old(ctx).files.device_table()),
                                ) {
                                    Some(k) => final(ctx).files.files().contains_key(k),
                                    None => false,
                                }
                            } else {
                                final(ctx).files == old(ctx).files
                            }
                        },
                    }
                },
            }
        }),
{
    let data = &record.user_data;
    if data.len() < MIN_PROCESS_STRUCT_SIZE {
        return Err(HandlerError::PayloadTooShort { expected: MIN_PROCESS_STRUCT_SIZE, actual: data.len() });
    }
    let bytes = data.as_slice();
    let page_directory_base = read_u64(bytes, 0);
    let pid = read_u32(bytes, 8);
    let parent_pid = read_u32(bytes, 12);
    let session_id = read_u32(bytes, 16);
    let unique_process_key = read_u64(bytes, 24);
    let name_bytes = &bytes[32..48];
    assert(name_bytes@ =~= bytes@.subrange(32, 48));
    let image_file_name = extract_ansi_string(name_bytes);
    let (command_line, offset_after_cmd) = extract_utf16_string(bytes, 48);
    let (package_full_name, offset_after_pkg) = extract_utf16_string(bytes, offset_after_cmd);
    let (application_id, _) = extract_utf16_string(bytes, offset_after_pkg);
    let existing: Option<(ProcessKey, Option<ProcessKey>)> = match ctx.get_process(pid) {
        Some(p) => Some((p.key, p.parent_key)),
        None => None,
    };
    if let Some((key, parent_key)) = existing {
        let ghost before = ctx.processes.procs()[key.0];
        match ctx.processes.evict(key) {
            Some(mut p) => {
                if p.command_line.is_none() {
                    if let Some(c) = &command_line {
                        p.set_command_line(c.clone());
                    }
                }
                if p.package_full_name.is_none() {
                    if let Some(x) = package_full_name {
                        p.set_package_full_name(x);
                    }
                }
                if p.application_id.is_none() {
                    if let Some(x) = application_id {
                        p.set_application_id(x);
                    }
                }
                assert(p == (ProcessContext {
                    command_line: p.command_line,
                    package_full_name: p.package_full_name,
                    application_id: p.application_id,
                    ..before
                }));
                ctx.processes.restore(p);
                assert(ctx.processes.procs() =~= old(ctx).processes.procs().insert(key.0, p));
            },
            None => {},
        }
        return Ok(
            ProcessStartEvent {
                key,
                pid,
                parent_pid,
                parent_key,
                session_id,
                image_file_name,
                command_line,
                timestamp: record.timestamp,
            },
        );
    }
    let key = ctx.next_process_key();
    let mut context = ProcessContext::new(key, None, pid, parent_pid, record.timestamp);
    context.page_directory_base = page_directory_base;
    context.session_id = session_id;
    context.unique_process_key = unique_process_key;
    context.image_file_name = image_file_name.clone();
    context.command_line = command_line.clone();
    context.package_full_name = package_full_name;
    context.application_id = application_id;
    let parent_key = ctx.insert_process(context);
    let ghost after_insert = *ctx;
    if !image_file_name.as_str().is_empty() {
        let fk = ctx.get_or_create_file(image_file_name.as_str(), record.timestamp);
        proof {
            lemma_registered_path_found(
                after_insert.files.paths(),
                normalized_path(image_file_name@, after_insert.files.device_table()),
                fk.0,
                ctx.files.paths(),
            );
        }
    }
    assert(ctx.processes == after_insert.processes);
    Ok(
        ProcessStartEvent {
            key,
            pid,
            parent_pid,
            parent_key,
            session_id,
            image_file_name,
            command_line,
            timestamp: record.timestamp,
        },
    )
}

/// Handles a process exit: frees the PID, marks the process terminated and queues it for
/// retention. The key is 0 when no tracked process held the PID.
pub fn handle_process_exit(ctx: &mut SystemContext, record: &EventRecord) -> (res: Result<
    ProcessExitEvent,
    HandlerError,
>)
    requires
        old(ctx).wf(),
    ensures
        final(ctx).wf(),
        ({
            let d = record.user_data@;
            match res {
                Err(e) => {
                    &&& too_short(d, MIN_EXIT_STRUCT_SIZE)
                    &&& e == (HandlerError::PayloadTooShort {
                        expected: MIN_EXIT_STRUCT_SIZE,
                        actual: d.len() as usize,
                    })
                    &&& *final(ctx) == *old(ctx)
                },
                Ok(ev) => {
                    let pid = le32(d, 8) as u32;
                    &&& !too_short(d, MIN_EXIT_STRUCT_SIZE)
                    &&& ev.pid == pid
                    &&& ev.exit_status as int == le32(d, 20)
                    &&& ev.timestamp == record.timestamp
                    &&& final(ctx).processes.pids() == old(ctx).processes.pids().remove(pid)
                    &&& match live_process(*old(ctx), pid) {
                        Some(p) => {
                            &&& ev.key == p.key
                            &&& final(ctx).processes.procs() == old(ctx).processes.procs().insert(
                                p.key.0,
                                ProcessContext {
                                    exit_status: ev.exit_status,
                                    exit_time: record.timestamp,
                                    ..p
                                },
                            )
                            &&& final(ctx).retention.queue() == old(ctx).retention.queue().push(
                                (p.key, record.timestamp),
                            )
                        },
                        None => {
                            &&& ev.key == ProcessKey(0)
                            &&& final(ctx).processes.procs() == old(ctx).processes.procs()
                            &&& final(ctx).retention.queue() == old(ctx).retention.queue()
                        },
                    }
                },
            }
        }),
{
    let data = &record.user_data;
    if data.len() < MIN_EXIT_STRUCT_SIZE {
        return Err(HandlerError::PayloadTooShort { expected: MIN_EXIT_STRUCT_SIZE, actual: data.len() });
    }
    let bytes = data.as_slice();
    let pid = read_u32(bytes, 8);
    let exit_status = read_u32(bytes, 20);
    let key = match ctx.exit_process(pid, exit_status, record.timestamp) {
        Some(k) => k,
        None => ProcessKey::from_raw(0),
    };
    Ok(ProcessExitEvent { key, pid, exit_status, timestamp: record.timestamp })
}

/// Offsets probed, in order, for the image path of an image load payload.
pub open spec fn image_path_offsets() -> Seq<int> {
    seq![56, 64, 48, 44, 32, 20]
}

/// The trimmed string at `off`, when it is non-empty and looks like a path (holds a
/// backslash or a dot).
pub open spec fn probe_at(d: Seq<u8>, off: int) -> Option<Seq<char>> {
    if off < d.len() {
        match utf16_extract(d, off).0 {
            Some(p) => {
                let t = unicode_trim(p);
                if t.len() > 0 && (t.contains('\\') || t.contains('.')) {
                    Some(t)
                } else {
                    None
                }
            },
            None => None,
        }
    } else {
        None
    }
}

/// The trimmed string starting at `off` in a scan, when `off` looks like the start of a
/// UTF-16 path and the string holds a backslash and at least 3 bytes.
pub open spec fn scan_at(d: Seq<u8>, off: int) -> Option<Seq<char>> {
    if (d[off] == 0x5C || (0x41 <= d[off] <= 0x5A) || (0x61 <= d[off] <= 0x7A)) && d[off + 1] == 0 {
        match utf16_extract(d, off).0 {
            Some(p) => {
                let t = unicode_trim(p);
                if t.contains('\\') && encode_utf8(t).len() >= 3 {
                    Some(t)
                } else {
                    None
                }
            },
            None => None,
        }
    } else {
        None
    }
}

/// The first path found scanning even offsets from `off` below `d.len() - 4`.
pub open spec fn scan_from(d: Seq<u8>, off: int) -> Seq<char>
    decreases d.len() - off,
{
    if off < 0 || off >= d.len() - 4 {
        Seq::empty()
    } else {
        match scan_at(d, off) {
            Some(t) => t,
            None => scan_from(d, off + 2),
        }
    }
}

/// The first probed offset (from index `i` of the list) that yields a path.
pub open spec fn probe_from(d: Seq<u8>, i: int) -> Option<Seq<char>>
    decreases image_path_offsets().len() - i,
{
    if i < 0 || i >= image_path_offsets().len() {
        None
    } else {
        match probe_at(d, image_path_offsets()[i]) {
            Some(t) => Some(t),
            None => probe_from(d, i + 1),
        }
    }
}

/// The image path of an image load payload: the first of the probed offsets that holds a
/// path-like string, else the first path found by scanning from offset 20, else empty.
pub open spec fn image_path_of(d: Seq<u8>) -> Seq<char> {
    match probe_from(d, 0) {
        Some(t) => t,
        None => scan_from(d, 20),
    }
}

fn has_char(v: &[char], c: char) -> (b: bool)
    ensures
        b == v@.contains(c),
{
    let mut i: usize = 0;
    while i < v.len()
        invariant
            i <= v@.len(),
            forall|j: int| 0 <= j < i ==> v@[j] != c,
        decreases v@.len() - i,
    {
        if v[i] == c {
            return true;
        }
        i = i + 1;
    }
    false
}

fn probe(data: &[u8], off: usize) -> (r: Option<String>)
    requires
        data@.len() <= isize::MAX,
    ensures
        opt_text(r) == probe_at(data@, off as int),
{
    if off >= data.len() {
        return None;
    }
    let (path, _) = extract_utf16_string(data, off);
    match path {
        Some(p) => {
            let trimmed = trim_str(p.as_str());
            let t = chars_of(trimmed);
            if t.len() > 0 && (has_char(&t, '\\') || has_char(&t, '.')) {
                Some(trimmed.to_owned())
            } else {
                None
            }
        },
        None => None,
    }
}

fn scan_one(data: &[u8], off: usize) -> (r: Option<String>)
    requires
        data@.len() <= isize::MAX,
        off + 1 < data@.len(),
    ensures
        opt_text(r) == scan_at(data@, off as int),
{
    let b = data[off];
    if (b == 0x5C || (0x41 <= b && b <= 0x5A) || (0x61 <= b && b <= 0x7A)) && data[off + 1] == 0 {
        let (path, _) = extract_utf16_string(data, off);
        match path {
            Some(p) => {
                let trimmed = trim_str(p.as_str());
                let t = chars_of(trimmed);
                let raw = trimmed.as_bytes();
                if has_char(&t, '\\') && raw.len() >= 3 {
                    Some(trimmed.to_owned())
                } else {
                    None
                }
            },
            None => None,
        }
    } else {
        None
    }
}

/// Finds the image path in an image load payload: the string at the first of several known
/// offsets that looks like a path, else the first plausible path found scanning the
/// payload, else the empty string.
pub fn extract_image_path(data: &[u8]) -> (r: String)
    requires
        data@.len() <= isize::MAX,
    ensures
        r@ == image_path_of(data@),
{
    let offsets: [usize; 6] = [56, 64, 48, 44, 32, 20];
    let mut i: usize = 0;
    while i < 6
        invariant
            i <= 6,
            data@.len() <= isize::MAX,
            offsets@ == seq![56usize, 64, 48, 44, 32, 20],
            probe_from(data@, 0) == probe_from(data@, i as int),
        decreases 6 - i,
    {
        assert(image_path_offsets()[i as int] == offsets@[i as int] as int);
        match probe(data, offsets[i]) {
            Some(p) => {
                return p;
            },
            None => {},
        }
        i = i + 1;
    }
    assert(probe_from(data@, 6) is None);
    let end: usize = if data.len() >= 4 {
        data.len() - 4
    } else {
        0
    };
    let mut off: usize = 20;
    while off < end
        invariant
            data@.len() <= isize::MAX,
            end as int == (if data@.len() >= 4 { data@.len() - 4 } else { 0 }),
            20 <= off,
            off <= end + 22,
            probe_from(data@, 0) is None,
            scan_from(data@, 20) == scan_from(data@, off as int),
        decreases end + 22 - off,
    {
        match scan_one(data, off) {
            Some(p) => {
                return p;
            },
            None => {},
        }
        off = off + 2;
    }
    String::new()
}

/// Handles an image load: decodes the payload, registers the backing file (when the path
/// is known), and records the module in the loading process. A PID that no tracked process
/// holds is refused with `ProcessNotFound`, and the context is left as it was.
#[verifier::spinoff_prover]
pub fn handle_image_load(ctx: &mut SystemContext, record: &EventRecord) -> (res: Result<
    ImageLoadEvent,
    HandlerError,
>)
    requires
        old(ctx).wf(),
        old(ctx).file_ids.peek() < u64::MAX,
        record.user_data@.len() <= isize::MAX,
    ensures
        final(ctx).wf(),
        old(ctx).file_ids.peek() <= final(ctx).file_ids.peek(),
        final(ctx).file_ids.peek() <= old(ctx).file_ids.peek() + 1,
        ({
            let d = record.user_data@;
            match res {
                Err(e) => {
                    &&& *final(ctx) == *old(ctx)
                    &&& if too_short(d, MIN_IMAGE_LOAD_STRUCT_SIZE) {
                        e == (HandlerError::PayloadTooShort {
                            expected: MIN_IMAGE_LOAD_STRUCT_SIZE,
                            actual: d.len() as usize,
                        })
                    } else {
                        &&& live_process(*old(ctx), le32(d, 16) as u32) is None
                        &&& e == HandlerError::ProcessNotFound(le32(d, 16) as u32)
                    }
                },
                Ok(ev) => {
                    let m = ev.module;
                    let name = image_path_of(d);
                    &&& !too_short(d, MIN_IMAGE_LOAD_STRUCT_SIZE)
                    &&& ev.pid as int == le32(d, 16)
                    &&& ev.timestamp == record.timestamp
                    &&& m.base_address as int == le64(d, 0)
                    &&& m.info.image_size as int == le64(d, 8)
                    &&& m.info.checksum as int == le32(d, 20)
                    &&& m.info.default_base as int == (if d.len() >= 40 {
                        le64(d, 32)
                    } else {
                        le64(d, 24)
                    })
                    &&& m.info.image_name@ == name
                    &&& m.info.is_system == is_system_path_spec(name)
                    &&& m.load_time == record.timestamp
                    &&& (name.len() == 0 <==> m.info.file_key is None)
                    &&& m.is_unbacked == (name.len() == 0)
                    &&& (m.info.file_key matches Some(fk) ==> final(ctx).files.files().contains_key(fk.0)
                        && key_for_path(
                        final(ctx).files.paths(),
                        normalized_path(name, old(ctx).files.device_table()),
                    ) == Some(fk.0))
                    &&& final(ctx).files.device_table() == old(ctx).files.device_table()
                    &&& final(ctx).processes.pids() == old(ctx).processes.pids()
                    &&& final(ctx).processes.procs().dom() == old(ctx).processes.procs().dom()
                    &&& final(ctx).interactions == old(ctx).interactions
                    &&& final(ctx).retention == old(ctx).retention
                    &&& match live_process(*old(ctx), ev.pid) {
                        Some(p) => {
                            &&& ev.process_key == p.key
                            &&& final(ctx).processes.procs() == old(ctx).processes.procs().insert(
                                p.key.0,
                                final(ctx).processes.procs()[p.key.0],
                            )
                            &&& final(ctx).processes.procs()[p.key.0].key == p.key
                            &&& final(ctx).processes.procs()[p.key.0].pid == p.pid
                            &&& module_loaded(
                                p.loaded_modules@,
                                m,
                                final(ctx).processes.procs()[p.key.0].loaded_modules@,
                            )
                        },
                        None => false,
                    }
                },
            }
        }),
{
    let data = &record.user_data;
    if data.len() < MIN_IMAGE_LOAD_STRUCT_SIZE {
        return Err(HandlerError::PayloadTooShort { expected: MIN_IMAGE_LOAD_STRUCT_SIZE, actual: data.len() });
    }
    let bytes = data.as_slice();
    let image_base = read_u64(bytes, 0);
    let image_size = read_u64(bytes, 8);
    let pid = read_u32(bytes, 16);
    let checksum = read_u32(bytes, 20);
    let default_base = if bytes.len() >= 40 {
        read_u64(bytes, 32)
    } else {
        read_u64(bytes, 24)
    };
    let process_key = match ctx.get_process(pid) {
        Some(p) => p.key,
        None => {
            return Err(HandlerError::ProcessNotFound(pid));
        },
    };
    let resolved_name = extract_image_path(bytes);
    let ghost files_before = ctx.files;
    let file_key: Option<FileKey> = if !resolved_name.as_str().is_empty() {
        let fk = ctx.get_or_create_file(resolved_name.as_str(), record.timestamp);
        proof {
            lemma_registered_path_found(
                files_before.paths(),
                normalized_path(resolved_name@, files_before.device_table()),
                fk.0,
                ctx.files.paths(),
            );
        }
        Some(fk)
    } else {
        None
    };
    let is_unbacked = file_key.is_none();
    let module = LoadedModule::new(
        image_base,
        image_size,
        resolved_name,
        file_key,
        record.timestamp,
        checksum,
        default_base,
        is_unbacked,
    );
    let ghost files_after = ctx.files;
    let ghost procs_mid = ctx.processes.procs();
    let loaded = module.clone();
    match ctx.processes.evict(process_key) {
        Some(mut p) => {
            let ghost before_modules = p.loaded_modules@;
            assert(before_modules.len() == 0 ==> before_modules =~= Seq::<LoadedModule>::empty());
            p.record_module_load(loaded);
            ctx.processes.restore(p);
            assert(before_modules == procs_mid[process_key.0].loaded_modules@);
            assert(ctx.processes.procs()[process_key.0] == p);
        },
        None => {},
    }
    assert(procs_mid == old(ctx).processes.procs());
    assert(ctx.files == files_after);
    Ok(ImageLoadEvent { process_key, pid, module, timestamp: record.timestamp })
}

/// Handles an image unload: removes the module at the base address from the process holding
/// the PID. The process key is 0 when no tracked process holds it.
#[verifier::spinoff_prover]
pub fn handle_image_unload(ctx: &mut SystemContext, record: &EventRecord) -> (res: Result<
    ImageUnloadEvent,
    HandlerError,
>)
    requires
        old(ctx).wf(),
    ensures
        final(ctx).wf(),
        ({
            let d = record.user_data@;
            match res {
                Err(e) => {
                    &&& too_short(d, MIN_IMAGE_UNLOAD_STRUCT_SIZE)
                    &&& e == (HandlerError::PayloadTooShort {
                        expected: MIN_IMAGE_UNLOAD_STRUCT_SIZE,
                        actual: d.len() as usize,
                    })
                    &&& *final(ctx) == *old(ctx)
                },
                Ok(ev) => {
                    let pid = le32(d, 16) as u32;
                    &&& !too_short(d, MIN_IMAGE_UNLOAD_STRUCT_SIZE)
                    &&& ev.pid == pid
                    &&& ev.base_address as int == le64(d, 0)
                    &&& ev.timestamp == record.timestamp
                    &&& final(ctx).processes.pids() == old(ctx).processes.pids()
                    &&& match live_process(*old(ctx), pid) {
                        Some(p) => {
                            &&& ev.process_key == p.key
                            &&& final(ctx).processes.procs().contains_key(p.key.0)
                            &&& exists|removed: Option<LoadedModule>|
                                module_unloaded(
                                    p.loaded_modules@,
                                    ev.base_address,
                                    final(ctx).processes.procs()[p.key.0].loaded_modules@,
                                    removed,
                                )
                        },
                        None => {
                            &&& ev.process_key == ProcessKey(0)
                            &&& final(ctx).processes.procs() == old(ctx).processes.procs()
                        },
                    }
                },
            }
        }),
{
    let data = &record.user_data;
    if data.len() < MIN_IMAGE_UNLOAD_STRUCT_SIZE {
        return Err(HandlerError::PayloadTooShort { expected: MIN_IMAGE_UNLOAD_STRUCT_SIZE, actual: data.len() });
    }
    let bytes = data.as_slice();
    let image_base = read_u64(bytes, 0);
    let pid = read_u32(bytes, 16);
    let key = match ctx.get_process(pid) {
        Some(p) => Some(p.key),
        None => None,
    };
    let process_key = match key {
        Some(k) => {
            assert(live_process(*old(ctx), pid) == Some(old(ctx).processes.procs()[k.0]));
            match ctx.processes.evict(k) {
                Some(mut p) => {
                    let ghost before = p.loaded_modules@;
                    let removed = p.record_module_unload(image_base);
                    proof {
                        assert(module_unloaded(before, image_base, p.loaded_modules@, removed));
                    }
                    ctx.processes.restore(p);
                    assert(ctx.processes.procs()[k.0].loaded_modules@ == p.loaded_modules@);
                },
                None => {},
            }
            k
        },
        None => ProcessKey::from_raw(0),
    };
    Ok(ImageUnloadEvent { process_key, pid, base_address: image_base, timestamp: record.timestamp })
}

} // verus!
