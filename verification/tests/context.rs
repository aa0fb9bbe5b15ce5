use std::sync::Arc;

use pulsar::context::config::ContextConfig;
use pulsar::context::handlers::file::{
    handle_file_create, handle_file_name, handle_file_operation, handle_file_read_write,
    handle_file_write,
};
use pulsar::context::handlers::{
    extract_image_path, handle_image_load, handle_image_unload, handle_process_exit,
    handle_process_start,
};
use pulsar::context::identity::{
    ConnectionKey, EntityId, FileKey, IdCounter, InteractionId, ProcessKey, ThreadKey,
};
use pulsar::context::models::file::{FileAccessRecord, FileContext, FileOperationKind};
use pulsar::context::models::handle::{HandleObject, HandleTarget};
use pulsar::context::models::interaction::{
    ConfidenceLevel, ExecutionTrigger, InjectionTechnique, InteractionKind, InteractionRecord,
};
use pulsar::context::models::module::{LoadedModule, ModuleInfo};
use pulsar::context::models::network::{IpAddress, NetworkConnection, SocketAddress, SocketProtocol};
use pulsar::context::models::process::ProcessContext;
use pulsar::context::models::thread::ThreadContext;
use pulsar::context::models::token::{IntegrityLevel, TokenContext};
use pulsar::context::registries::file_registry::normalize_file_path;
use pulsar::context::registries::interaction_registry::InteractionRegistry;
use pulsar::context::system::SystemContext;
use pulsar::error::HandlerError;
use pulsar::pipeline::event::{EventRecord, FileReadWriteEvent};

const MS: i64 = 10_000;

fn named(ctx: &mut SystemContext, pid: u32, ppid: u32, t: i64, name: &str) -> ProcessKey {
    let key = ctx.next_process_key();
    let mut p = ProcessContext::new(key, None, pid, ppid, t);
    p.set_image_name(name.to_string());
    ctx.insert_process(p);
    key
}

fn record(pid: u32, opcode: u8, timestamp: i64, user_data: Vec<u8>) -> EventRecord {
    EventRecord { process_id: pid, thread_id: 1, timestamp, opcode, user_data }
}

fn push_utf16(buf: &mut Vec<u8>, s: &str) {
    for u in s.encode_utf16() {
        buf.extend_from_slice(&u.to_le_bytes());
    }
}

#[test]
fn test_pid_recycling_and_isolation() {
    let mut ctx = SystemContext::new_for_test(ContextConfig::for_test());
    let pid = 4500;

    let key_a = named(&mut ctx, pid, 1000, 100, "svchost.exe");
    let query_a = ctx.get_process(pid).expect("Process A should be active");
    assert_eq!(query_a.key, key_a);
    assert_eq!(query_a.image_file_name, "svchost.exe");

    ctx.exit_process(pid, 0, 200);
    assert!(ctx.get_process(pid).is_none());

    let key_b = named(&mut ctx, pid, 2000, 300, "malware.exe");
    assert_ne!(key_a, key_b);

    let query_b = ctx.get_process(pid).expect("Process B should be active");
    assert_eq!(query_b.key, key_b);
    assert_eq!(query_b.image_file_name, "malware.exe");

    let hist_a = ctx.get_process_by_key(key_a).expect("Historical Process A must exist");
    assert_eq!(hist_a.key, key_a);
    assert_eq!(hist_a.image_file_name, "svchost.exe");
    assert!(!hist_a.is_alive());
}

#[test]
fn test_retention_tombstones_and_suspicion_pinning() {
    let mut cfg = ContextConfig::for_test();
    cfg.retention_ttl_ms = 10_000;
    let mut ctx = SystemContext::new_for_test(cfg);

    let k_parent = named(&mut ctx, 1000, 4, 0, "parent.exe");
    let k_child = named(&mut ctx, 2000, 1000, 5, "child.exe");
    let k_pinned = named(&mut ctx, 3000, 4, 0, "attacker.exe");
    let mut attacker = ctx.processes.evict(k_pinned).unwrap();
    attacker.pin();
    ctx.processes.restore(attacker);
    let k_worker = named(&mut ctx, 4000, 4, 0, "worker.exe");

    ctx.exit_process(1000, 0, 10 * MS);
    ctx.exit_process(3000, 0, 10 * MS);
    ctx.exit_process(4000, 0, 10 * MS);

    let (evicted, tombstones) = ctx.run_gc_pass(30_000 * MS);
    assert_eq!(evicted, 1);
    assert_eq!(tombstones, 1);

    assert!(ctx.get_process_by_key(k_worker).is_none());
    assert!(ctx.get_process_by_key(k_pinned).is_some());

    let parent_tomb = ctx.get_process_by_key(k_parent).expect("Parent tombstone must exist");
    assert!(parent_tomb.is_tombstone());

    let child = ctx.get_process(2000).expect("Child is active");
    assert_eq!(child.key, k_child);
    let parent_key = child.parent_key.expect("Tombstone parent must be accessible");
    let resolved_parent = ctx.get_process_by_key(parent_key).unwrap();
    assert_eq!(resolved_parent.image_file_name, "parent.exe");
}

#[test]
fn test_stateful_injection_correlation() {
    let mut ctx = SystemContext::new_for_test(ContextConfig::for_test());
    let k_actor = named(&mut ctx, 111, 4, 0, "injector.exe");
    let k_target = named(&mut ctx, 222, 4, 0, "explorer.exe");

    ctx.injection_correlator.on_target_handle_opened(k_actor, k_target, 10);
    ctx.injection_correlator.on_remote_memory_alloc(k_actor, k_target, 0x0000_0200_0000, 0x1000, 20);
    ctx.injection_correlator.on_remote_memory_write(k_actor, k_target, 0x0000_0200_0000, 30);
    let confirmed = ctx.injection_correlator.on_remote_execution(
        k_actor,
        k_target,
        ExecutionTrigger::NtCreateThreadEx,
        InjectionTechnique::ClassicRemoteThread,
        40,
        &mut ctx.interactions,
        &mut ctx.processes,
        &mut ctx.interaction_ids,
    );

    assert!(confirmed.is_some());
    let recent = ctx.interactions.recent_interactions(1);
    let alert = recent[0];
    assert_eq!(Some(alert.id), confirmed);
    if let InteractionKind::ProcessInjection(inj) = &alert.kind {
        assert_eq!(inj.technique, InjectionTechnique::ClassicRemoteThread);
        assert_eq!(inj.stages_observed, 4);
        assert_eq!(inj.target_base_address, Some(0x0000_0200_0000));
        assert_eq!(inj.allocated_size, Some(0x1000));
    } else {
        panic!("Expected ProcessInjection interaction details");
    }
    assert_eq!(alert.confidence, ConfidenceLevel::Confirmed);
    assert_eq!(
        alert.description,
        "Process injection (ClassicRemoteThread) via NtCreateThreadEx observed across 4 stages"
    );

    assert!(ctx.get_process_by_key(k_actor).unwrap().is_pinned());
    assert!(ctx.get_process_by_key(k_target).unwrap().is_pinned());
    assert_eq!(ctx.injection_correlator.session_count(), 0);
}

#[test]
fn injection_without_session_is_medium_confidence() {
    let mut ctx = SystemContext::new_for_test(ContextConfig::for_test());
    let a = named(&mut ctx, 1, 4, 0, "a.exe");
    let b = named(&mut ctx, 2, 4, 0, "b.exe");
    assert!(ctx
        .injection_correlator
        .on_remote_execution(
            a,
            a,
            ExecutionTrigger::QueueUserApc,
            InjectionTechnique::QueueUserApc,
            5,
            &mut ctx.interactions,
            &mut ctx.processes,
            &mut ctx.interaction_ids,
        )
        .is_none());
    let id = ctx.injection_correlator.on_remote_execution(
        a,
        b,
        ExecutionTrigger::QueueUserApc,
        InjectionTechnique::QueueUserApc,
        5,
        &mut ctx.interactions,
        &mut ctx.processes,
        &mut ctx.interaction_ids,
    );
    assert!(id.is_some());
    let rec = ctx.interactions.injections_into(b);
    assert_eq!(rec.len(), 1);
    assert_eq!(rec[0].confidence, ConfidenceLevel::Medium);
    assert_eq!(ctx.interactions.outbound(EntityId::Process(a)).len(), 1);
    assert_eq!(ctx.interactions.inbound(EntityId::Process(a)).len(), 0);
}

#[test]
fn stale_injection_sessions_are_pruned() {
    let mut ctx = SystemContext::new_for_test(ContextConfig::for_test());
    let a = ProcessKey::from_raw(1);
    let b = ProcessKey::from_raw(2);
    let c = ProcessKey::from_raw(3);
    ctx.injection_correlator.on_target_handle_opened(a, b, 0);
    ctx.injection_correlator.on_target_handle_opened(a, c, 25_000);
    ctx.injection_correlator.on_remote_memory_write(b, c, 7, 25_000);
    assert_eq!(ctx.injection_correlator.session_count(), 2);
    assert_eq!(ctx.injection_correlator.prune_stale_sessions(40_000), 1);
    assert!(ctx.injection_correlator.session(a, b).is_none());
    let s = ctx.injection_correlator.session(a, c).unwrap();
    assert!(s.has_target_handle);
    assert_eq!(s.stages, 1);
}

#[test]
fn test_file_and_network_registries() {
    let mut ctx = SystemContext::new_for_test(ContextConfig::for_test());
    let mut ids = IdCounter::new();

    let (f1, created1) = ctx.files.get_or_create(r"\??\C:\Windows\System32\cmd.exe", 100, &mut ids);
    let (f2, created2) = ctx.files.get_or_create(r"c:/windows/system32/cmd.exe", 100, &mut ids);
    assert!(created1);
    assert!(!created2);
    assert_eq!(f1, f2);

    let file = ctx.files.get_by_key(f1).unwrap();
    assert_eq!(file.path, r"c:\windows\system32\cmd.exe");

    let k_proc = ProcessKey::from_raw(77);
    let conn = NetworkConnection {
        key: ConnectionKey::new(&mut ids),
        owner_process: k_proc,
        protocol: SocketProtocol::Tcp,
        local_addr: SocketAddress { ip: IpAddress::V4([192, 168, 1, 50]), port: 49152 },
        remote_addr: SocketAddress { ip: IpAddress::V4([93, 184, 216, 34]), port: 443 },
        start_time: 100,
        end_time: None,
    };
    let key = ctx.network.register_connection(conn);
    let recorded = ctx.network.get_by_key(key).unwrap();
    assert_eq!(recorded.remote_addr.port, 443);
    assert_eq!(ctx.network.len(), 1);
    assert_eq!(ctx.network.process_connections(k_proc).len(), 1);
    assert!(ctx.network.process_connections(ProcessKey::from_raw(78)).is_empty());
}

fn process_start_payload(pid: u32, ppid: u32, image: &[u8], cmd: &str) -> Vec<u8> {
    let mut payload = Vec::new();
    payload.extend_from_slice(&0x0000_0001_0000_0000u64.to_le_bytes());
    payload.extend_from_slice(&pid.to_le_bytes());
    payload.extend_from_slice(&ppid.to_le_bytes());
    payload.extend_from_slice(&1u32.to_le_bytes());
    payload.extend_from_slice(&0u32.to_le_bytes());
    payload.extend_from_slice(&0x1234_5678u64.to_le_bytes());
    let mut image_bytes = [0u8; 16];
    image_bytes[..image.len()].copy_from_slice(image);
    payload.extend_from_slice(&image_bytes);
    push_utf16(&mut payload, cmd);
    payload
}

#[test]
fn test_multi_source_deduplication_and_merging() {
    let mut ctx = SystemContext::new_for_test(ContextConfig::for_test());
    let payload = process_start_payload(5000, 1000, b"cmd.exe", "cmd.exe /c whoami\0");
    let record1 = record(5000, 1, 1000, payload);

    let event1 = handle_process_start(&mut ctx, &record1).expect("Must parse process start");
    assert_eq!(event1.pid, 5000);
    assert_eq!(event1.image_file_name, "cmd.exe");
    assert_eq!(event1.command_line.as_deref(), Some("cmd.exe /c whoami"));
    assert_eq!(event1.session_id, 1);

    let event2 = handle_process_start(&mut ctx, &record1).expect("Must deduplicate and merge");
    assert_eq!(event2.key, event1.key);

    let p = ctx.get_process(5000).unwrap();
    assert_eq!(p.page_directory_base, 0x0000_0001_0000_0000);
    assert_eq!(p.unique_process_key, 0x1234_5678);
    assert!(ctx.file("cmd.exe").is_some());
}

#[test]
fn repeated_start_fills_missing_details() {
    let mut ctx = SystemContext::new_for_test(ContextConfig::for_test());
    let key = named(&mut ctx, 6000, 4, 100, "notepad.exe");
    let count = ctx.processes.len();
    assert!(ctx.get_process(6000).unwrap().command_line().is_none());

    let payload = process_start_payload(6000, 4, b"notepad.exe", "notepad.exe a.txt\0");
    let ev = handle_process_start(&mut ctx, &record(6000, 1, 200, payload)).unwrap();
    assert_eq!(ev.key, key);
    assert_eq!(ctx.processes.len(), count);
    let p = ctx.get_process(6000).unwrap();
    assert_eq!(p.key, key);
    assert_eq!(p.command_line().as_deref(), Some("notepad.exe a.txt"));

    let payload = process_start_payload(6000, 4, b"notepad.exe", "other.exe\0");
    handle_process_start(&mut ctx, &record(6000, 1, 300, payload)).unwrap();
    assert_eq!(ctx.get_process(6000).unwrap().command_line().as_deref(), Some("notepad.exe a.txt"));
}

#[test]
fn process_start_links_parent_and_exit_queues_retention() {
    let mut ctx = SystemContext::new_for_test(ContextConfig::for_test());
    let parent = handle_process_start(&mut ctx, &record(10, 1, 1, process_start_payload(10, 4, b"p.exe", "\0")))
        .unwrap();
    let child = handle_process_start(&mut ctx, &record(11, 1, 2, process_start_payload(11, 10, b"c.exe", "\0")))
        .unwrap();
    assert_eq!(child.parent_key, Some(parent.key));
    assert!(ctx.processes.has_active_children(parent.key));

    let mut exit = vec![0u8; 24];
    exit[8..12].copy_from_slice(&11u32.to_le_bytes());
    exit[20..24].copy_from_slice(&7u32.to_le_bytes());
    let ev = handle_process_exit(&mut ctx, &record(11, 2, 9, exit.clone())).unwrap();
    assert_eq!(ev.key, child.key);
    assert_eq!(ev.exit_status, 7);
    assert!(!ctx.processes.has_active_children(parent.key));
    let ev2 = handle_process_exit(&mut ctx, &record(11, 2, 9, exit)).unwrap();
    assert_eq!(ev2.key, ProcessKey::from_raw(0));

    assert!(matches!(
        handle_process_exit(&mut ctx, &record(1, 2, 1, vec![0u8; 3])),
        Err(HandlerError::PayloadTooShort { expected: 24, actual: 3 })
    ));
    assert!(matches!(
        handle_process_start(&mut ctx, &record(1, 1, 1, vec![0u8; 47])),
        Err(HandlerError::PayloadTooShort { expected: 48, actual: 47 })
    ));
}

#[test]
fn test_module_address_resolution_and_boundaries() {
    let mut ctx = SystemContext::new_for_test(ContextConfig::for_test());
    let pid = 7777;
    let proc_key = named(&mut ctx, pid, 1000, 100, "");

    let file_ntdll = ctx.get_or_create_file(r"C:\Windows\System32\ntdll.dll", 100);
    let file_app = ctx.get_or_create_file(r"C:\Program Files\App\app.dll", 100);

    let mod1 = LoadedModule::new(
        0x7FFE_0000_0000,
        0x10_0000,
        r"C:\Windows\System32\ntdll.dll".to_string(),
        Some(file_ntdll),
        100,
        0x1234,
        0x7FFE_0000_0000,
        false,
    );
    let mod2 = LoadedModule::new(
        0x7FFE_0020_0000,
        0x5_0000,
        r"C:\Program Files\App\app.dll".to_string(),
        Some(file_app),
        110,
        0x5678,
        0x7FFE_0020_0000,
        false,
    );

    let mut proc = ctx.processes.evict(proc_key).unwrap();
    proc.record_module_load(mod2);
    proc.record_module_load(mod1);
    ctx.processes.restore(proc);
    let proc = ctx.get_process(pid).unwrap();

    let resolved = proc.find_module_by_address(0x7FFE_0005_1234).expect("Should resolve ntdll");
    assert_eq!(resolved.image_name(), r"C:\Windows\System32\ntdll.dll");
    assert!(resolved.is_system());
    assert_eq!(resolved.file_key(), Some(file_ntdll));

    let at_start = proc.find_module_by_address(0x7FFE_0000_0000).expect("Base address must resolve");
    assert_eq!(at_start.base_address, 0x7FFE_0000_0000);
    let at_last_byte = proc.find_module_by_address(0x7FFE_000F_FFFF).expect("Last byte must resolve");
    assert_eq!(at_last_byte.base_address, 0x7FFE_0000_0000);
    assert!(proc.find_module_by_address(0x7FFE_0010_0000).is_none());
    assert!(proc.find_module_by_address(0x7FFE_0015_0000).is_none());
    assert!(proc.find_module_by_address(0x1000).is_none());
    assert!(proc.find_module_by_address(0x7FFF_FFFF_FFFF).is_none());

    let resolved_app = proc.find_module_by_address(0x7FFE_0021_0000).expect("Should resolve app.dll");
    assert_eq!(resolved_app.image_name(), r"C:\Program Files\App\app.dll");
    assert!(!resolved_app.is_system());
    assert_eq!(resolved_app.file_key(), Some(file_app));

    let mut proc = ctx.processes.evict(proc_key).unwrap();
    let removed = proc.record_module_unload(0x7FFE_0020_0000).unwrap();
    assert_eq!(removed.base_address, 0x7FFE_0020_0000);
    assert!(proc.record_module_unload(0x7FFE_0020_0000).is_none());
    assert!(proc.find_module_by_address(0x7FFE_0021_0000).is_none());
    assert!(proc.find_module_by_address(0x7FFE_0000_1000).is_some());
    ctx.processes.restore(proc);
}

#[test]
fn module_load_names_process_from_exe_and_replaces_same_base() {
    let mut p = ProcessContext::new(ProcessKey::from_raw(1), None, 1, 0, 0);
    let exe = LoadedModule::new(0x40_0000, 0x1000, r"C:\Tools\App.EXE".to_string(), None, 0, 0, 0x40_0000, true);
    p.record_module_load(exe);
    assert_eq!(p.image_file_name, "App.EXE");
    assert_eq!(p.image_path.as_deref(), Some(r"C:\Tools\App.EXE"));
    let other = LoadedModule::new(0x40_0000, 0x2000, r"C:\Other\b.exe".to_string(), None, 5, 0, 0x50_0000, true);
    p.record_module_load(other);
    assert_eq!(p.loaded_modules.len(), 1);
    assert_eq!(p.image_file_name, "App.EXE");
    assert!(p.loaded_modules[0].is_relocated());
    assert_eq!(p.loaded_modules[0].end_address(), 0x40_2000);
    let found = p.find_module_by_address(0x40_1FFF).unwrap();
    assert_eq!(found.load_time, 5);
}

#[test]
fn test_file_path_normalization_nt_prefixes() {
    assert_eq!(
        normalize_file_path(r"\??\C:\Windows\System32\notepad.exe", &[]),
        r"c:\windows\system32\notepad.exe"
    );
    assert_eq!(
        normalize_file_path(r"\\?\C:\Users\Admin/AppData/Local/Temp/malware.exe", &[]),
        r"c:\users\admin\appdata\local\temp\malware.exe"
    );
    let normalized_dev = normalize_file_path(r"\Device\HarddiskVolume2\Windows\explorer.exe", &[]);
    assert!(
        normalized_dev.ends_with(r"\windows\explorer.exe")
            && (normalized_dev.starts_with(r"c:")
                || normalized_dev.starts_with(r"d:")
                || normalized_dev.starts_with(r"\\?\globalroot"))
    );
    assert_eq!(
        normalize_file_path("C:/Program Files/Quasar/agent.exe", &[]),
        r"c:\program files\quasar\agent.exe"
    );
}

#[test]
fn normalization_uses_device_table() {
    let devices = vec![
        (r"\device\harddiskvolume3".to_string(), "d:".to_string()),
        (r"\device\harddiskvolume2".to_string(), "c:".to_string()),
    ];
    assert_eq!(
        normalize_file_path(r"\Device\HarddiskVolume2\Windows\Explorer.exe", &devices),
        r"c:\windows\explorer.exe"
    );
    assert_eq!(
        normalize_file_path(r"\Device\HarddiskVolume9\x", &devices),
        r"\\?\globalroot\device\harddiskvolume9\x"
    );
}

fn create_payload(file_obj: u64, path: &str) -> Vec<u8> {
    let mut p = Vec::new();
    p.extend_from_slice(&0x1111_0000u64.to_le_bytes());
    p.extend_from_slice(&0x2222_0000u64.to_le_bytes());
    p.extend_from_slice(&file_obj.to_le_bytes());
    p.extend_from_slice(&0x0000_0020u32.to_le_bytes());
    p.extend_from_slice(&0x0000_0080u32.to_le_bytes());
    p.extend_from_slice(&0x0000_0001u32.to_le_bytes());
    push_utf16(&mut p, path);
    p
}

#[test]
fn test_fileio_create_and_name_parsing() {
    let mut ctx = SystemContext::new_for_test(ContextConfig::for_test());
    let pid = 8812;
    let proc_key = named(&mut ctx, pid, 1000, 100, "powershell.exe");

    let file_obj_1: u64 = 0xFFFF_E000_1234_5678;
    let create_record = record(pid, 64, 1000, create_payload(file_obj_1, "\\??\\C:\\Users\\Target\\secret.docx\0"));
    let create_event = handle_file_create(&mut ctx, &create_record).expect("Must parse FileIo_Create");
    assert_eq!(create_event.pid, pid);
    assert_eq!(create_event.process_key, proc_key);
    assert_eq!(create_event.file_object, file_obj_1);
    assert_eq!(create_event.file_path, r"c:\users\target\secret.docx");
    assert_eq!(create_event.create_options, 0x20);
    assert_eq!(create_event.file_attributes, 0x80);
    assert_eq!(create_event.share_access, 1);

    assert_eq!(ctx.files.get_key_by_file_object(file_obj_1), Some(create_event.file_key));
    let proc_ref = ctx.get_process(pid).unwrap();
    assert!(proc_ref.touched_files.contains(&create_event.file_key.as_u64()));

    let file_obj_2: u64 = 0xFFFF_E000_9876_5432;
    let mut name_payload = Vec::new();
    name_payload.extend_from_slice(&file_obj_2.to_le_bytes());
    push_utf16(&mut name_payload, "C:\\Windows\\System32\\drivers\\etc\\hosts\0");
    let name_record = record(pid, 0, 1100, name_payload);
    let name_event = handle_file_name(&mut ctx, &name_record)
        .expect("Must parse FileIo_Name")
        .expect("Must produce FileCreateEvent");
    assert_eq!(name_event.file_object, file_obj_2);
    assert_eq!(name_event.file_path, r"c:\windows\system32\drivers\etc\hosts");

    let mut empty_name = Vec::new();
    empty_name.extend_from_slice(&5u64.to_le_bytes());
    push_utf16(&mut empty_name, "\0");
    assert!(handle_file_name(&mut ctx, &record(pid, 0, 1, empty_name)).unwrap().is_none());
}

#[test]
fn test_file_object_mapping_and_lifecycle() {
    let mut ctx = SystemContext::new_for_test(ContextConfig::for_test());
    let pid = 9999;
    named(&mut ctx, pid, 1000, 100, "ransomware.exe");
    let file_obj: u64 = 0xFFFF_ABCD_0000_1111;

    let mut cp = Vec::new();
    cp.extend_from_slice(&0u64.to_le_bytes());
    cp.extend_from_slice(&0u64.to_le_bytes());
    cp.extend_from_slice(&file_obj.to_le_bytes());
    cp.extend_from_slice(&0u32.to_le_bytes());
    cp.extend_from_slice(&0u32.to_le_bytes());
    cp.extend_from_slice(&0u32.to_le_bytes());
    push_utf16(&mut cp, "C:\\Data\\database.kdbx\0");
    let create_evt = handle_file_create(&mut ctx, &record(pid, 64, 1000, cp)).expect("Create must succeed");
    assert_eq!(ctx.files.get_key_by_file_object(file_obj), Some(create_evt.file_key));

    let mut wp = Vec::new();
    wp.extend_from_slice(&0u64.to_le_bytes());
    wp.extend_from_slice(&0u64.to_le_bytes());
    wp.extend_from_slice(&0u64.to_le_bytes());
    wp.extend_from_slice(&file_obj.to_le_bytes());
    wp.extend_from_slice(&0u64.to_le_bytes());
    wp.extend_from_slice(&65536u32.to_le_bytes());
    wp.extend_from_slice(&0u32.to_le_bytes());
    let write_evt = handle_file_write(&mut ctx, &record(pid, 68, 1050, wp)).expect("Write must succeed");
    assert_eq!(write_evt.file_key, Some(create_evt.file_key));
    assert_eq!(write_evt.io_size, 65536);
    assert!(write_evt.is_write);
    assert_eq!(write_evt.file_path.as_deref(), Some(r"c:\data\database.kdbx"));

    let file_ctx = ctx.files.get_by_key(create_evt.file_key).unwrap();
    assert!(file_ctx.has_writes());
    let history = file_ctx.access_history();
    assert_eq!(history.len(), 2);
    assert_eq!(history[1].operation, FileOperationKind::Write);
    assert_eq!(history[1].bytes_transferred, 65536);

    let mut close = Vec::new();
    close.extend_from_slice(&0u64.to_le_bytes());
    close.extend_from_slice(&0u64.to_le_bytes());
    close.extend_from_slice(&file_obj.to_le_bytes());
    close.extend_from_slice(&0u64.to_le_bytes());
    let close_evt = handle_file_operation(&mut ctx, &record(pid, 66, 1100, close)).expect("Close must succeed");
    assert_eq!(close_evt.operation, FileOperationKind::Close);
    assert_eq!(close_evt.file_key, Some(create_evt.file_key));
    assert_eq!(ctx.files.get_key_by_file_object(file_obj), None);
}

fn write_scenario(as_write_handler: bool) -> (FileReadWriteEvent, Vec<FileAccessRecord>, bool, Vec<u64>) {
    let mut ctx = SystemContext::new_for_test(ContextConfig::for_test());
    let pid = 4321;
    named(&mut ctx, pid, 4, 10, "writer.exe");
    let file_obj: u64 = 0xFFFF_0000_0000_2222;
    let mut cp = Vec::new();
    cp.extend_from_slice(&0u64.to_le_bytes());
    cp.extend_from_slice(&0u64.to_le_bytes());
    cp.extend_from_slice(&file_obj.to_le_bytes());
    cp.extend_from_slice(&[0u8; 12]);
    push_utf16(&mut cp, "C:\\Data\\notes.txt\0");
    let created = handle_file_create(&mut ctx, &record(pid, 64, 100, cp)).unwrap();
    let mut wp = Vec::new();
    wp.extend_from_slice(&512u64.to_le_bytes());
    wp.extend_from_slice(&[0u8; 16]);
    wp.extend_from_slice(&file_obj.to_le_bytes());
    wp.extend_from_slice(&0u64.to_le_bytes());
    wp.extend_from_slice(&128u32.to_le_bytes());
    wp.extend_from_slice(&3u32.to_le_bytes());
    let rec = record(pid, 68, 200, wp);
    let ev = if as_write_handler {
        handle_file_write(&mut ctx, &rec).unwrap()
    } else {
        handle_file_read_write(&mut ctx, &rec, true).unwrap()
    };
    let f = ctx.files.get_by_key(created.file_key).unwrap();
    let touched: Vec<u64> = ctx.get_process(pid).unwrap().touched_files.iter().copied().collect();
    (ev, f.access_history(), f.has_writes(), touched)
}

#[test]
fn file_write_is_read_write_with_write_flag() {
    let (a, ha, wa, ta) = write_scenario(true);
    let (b, hb, wb, tb) = write_scenario(false);
    assert!(a.is_write && b.is_write);
    assert_eq!(a.process_key, b.process_key);
    assert_eq!(a.file_key, b.file_key);
    assert_eq!(a.file_path, b.file_path);
    assert_eq!(a.offset, 512);
    assert_eq!((a.offset, a.io_size, a.io_flags), (b.offset, b.io_size, b.io_flags));
    assert_eq!(ha, hb);
    assert_eq!(ha.len(), 2);
    assert_eq!(ha[1].operation, FileOperationKind::Write);
    assert_eq!(ha[1].bytes_transferred, 128);
    assert!(wa && wb);
    assert_eq!(ta, tb);
    assert_eq!(ta, vec![a.file_key.unwrap().as_u64()]);
}

#[test]
fn process_keys_increase() {
    let mut ids = IdCounter::new();
    let k1 = ProcessKey::new(&mut ids);
    let k2 = ProcessKey::new(&mut ids);
    let k3 = ProcessKey::new(&mut ids);
    assert_eq!(k1.as_u64(), 1);
    assert!(k1.as_u64() < k2.as_u64() && k2.as_u64() < k3.as_u64());
    assert_ne!(k1, k3);
    assert_eq!(ids.next_value(), 4);
}

#[test]
fn test_truncated_file_payload_rejection() {
    let mut ctx = SystemContext::new_for_test(ContextConfig::for_test());
    let short_record = record(100, 64, 100, vec![0u8; 10]);
    assert!(matches!(
        handle_file_create(&mut ctx, &short_record),
        Err(HandlerError::PayloadTooShort { expected: 36, actual: 10 })
    ));
    assert!(matches!(
        handle_file_read_write(&mut ctx, &short_record, true),
        Err(HandlerError::PayloadTooShort { expected: 48, actual: 10 })
    ));
    assert!(matches!(
        handle_file_operation(&mut ctx, &short_record),
        Err(HandlerError::PayloadTooShort { expected: 24, actual: 10 })
    ));
    assert!(matches!(
        handle_file_name(&mut ctx, &record(1, 0, 1, vec![0u8; 7])),
        Err(HandlerError::PayloadTooShort { expected: 8, actual: 7 })
    ));
    assert!(matches!(
        handle_image_load(&mut ctx, &record(1, 10, 1, vec![0u8; 31])),
        Err(HandlerError::PayloadTooShort { expected: 32, actual: 31 })
    ));
    assert!(matches!(
        handle_image_unload(&mut ctx, &record(1, 2, 1, vec![0u8; 19])),
        Err(HandlerError::PayloadTooShort { expected: 20, actual: 19 })
    ));
}

#[test]
fn image_load_and_unload_events() {
    let mut ctx = SystemContext::new_for_test(ContextConfig::for_test());
    let mut p = Vec::new();
    p.extend_from_slice(&0x7FF0_0000_0000u64.to_le_bytes());
    p.extend_from_slice(&0x2000u64.to_le_bytes());
    p.extend_from_slice(&4242u32.to_le_bytes());
    p.extend_from_slice(&0xABCDu32.to_le_bytes());
    p.extend_from_slice(&0x1111u64.to_le_bytes());
    p.extend_from_slice(&0x7FF0_0000_0000u64.to_le_bytes());
    while p.len() < 56 {
        p.push(0);
    }
    push_utf16(&mut p, "C:\\Windows\\System32\\ntdll.dll\0");
    let files_before = ctx.files.len();
    assert!(matches!(
        handle_image_load(&mut ctx, &record(4242, 10, 50, p.clone())),
        Err(HandlerError::ProcessNotFound(4242))
    ));
    assert!(ctx.get_process(4242).is_none());
    assert_eq!(ctx.files.len(), files_before);
    let key = named(&mut ctx, 4242, 4, 40, "");
    let ev = handle_image_load(&mut ctx, &record(4242, 10, 50, p)).unwrap();
    assert_eq!(ev.process_key, key);
    assert_eq!(ev.pid, 4242);
    assert_eq!(ev.module.base_address, 0x7FF0_0000_0000);
    assert_eq!(ev.module.image_size(), 0x2000);
    assert_eq!(ev.module.checksum(), 0xABCD);
    assert_eq!(ev.module.default_base(), 0x7FF0_0000_0000);
    assert_eq!(ev.module.image_name(), r"C:\Windows\System32\ntdll.dll");
    assert!(ev.module.is_system());
    assert!(!ev.module.is_unbacked);
    let proc = ctx.get_process(4242).expect("tracked process");
    assert_eq!(proc.key, ev.process_key);
    assert!(proc.find_module_by_address(0x7FF0_0000_1000).is_some());

    let mut u = vec![0u8; 20];
    u[0..8].copy_from_slice(&0x7FF0_0000_0000u64.to_le_bytes());
    u[16..20].copy_from_slice(&4242u32.to_le_bytes());
    let uev = handle_image_unload(&mut ctx, &record(4242, 2, 60, u)).unwrap();
    assert_eq!(uev.process_key, ev.process_key);
    assert!(ctx.get_process(4242).unwrap().find_module_by_address(0x7FF0_0000_1000).is_none());
}

#[test]
fn image_path_probing_and_scanning() {
    let mut p = vec![0u8; 30];
    push_utf16(&mut p, "\\x\\lib.dll\0");
    assert_eq!(extract_image_path(&p), r"x\lib.dll");
    assert_eq!(extract_image_path(&[0u8; 40]), "");
}

#[test]
fn test_loaded_module_flyweight_sharing_and_liveness() {
    let mut ctx = SystemContext::new_for_test(ContextConfig::for_test());
    let mut proc1 = ProcessContext::new(ProcessKey::from_raw(1), None, 8001, 1000, 100);
    assert!(proc1.is_alive());
    assert_eq!(proc1.exit_time, 0);
    proc1.mark_terminated(0, 500);
    assert!(!proc1.is_alive());
    assert_eq!(proc1.exit_time, 500);

    let file = ctx.get_or_create_file(r"C:\Windows\System32\kernel32.dll", 100);
    let info = Arc::new(ModuleInfo::new(
        r"C:\Windows\System32\kernel32.dll".to_string(),
        0x100000,
        Some(file),
        0xABCD,
        0x7FFE_0000_0000,
    ));
    let mod_p1 = LoadedModule::with_info(0x7FFE_0000_0000, 100, false, Arc::clone(&info));
    let mod_p2 = LoadedModule::with_info(0x7FFE_0000_0000, 150, false, Arc::clone(&info));
    assert!(Arc::ptr_eq(&mod_p1.info, &mod_p2.info));
    assert_eq!(mod_p1.image_name(), r"C:\Windows\System32\kernel32.dll");
    assert!(mod_p1.is_system());
    assert_eq!(mod_p1.file_key(), Some(file));
    assert!(!mod_p1.is_relocated());
    assert!(mod_p1.contains_address(0x7FFE_000F_FFFF));
    assert!(!mod_p1.contains_address(0x7FFE_0010_0000));
}

#[test]
fn test_interaction_registry_secondary_index_pruning() {
    let mut registry = InteractionRegistry::new(2);
    let mut ids = IdCounter::new();
    let p1 = EntityId::Process(ProcessKey::new(&mut ids));
    let p2 = EntityId::Process(ProcessKey::new(&mut ids));

    let r1 = InteractionRecord::new(&mut ids, InteractionKind::ProcessSpawn, p1, p2, 100, ConfidenceLevel::Confirmed, "spawn".to_string());
    let r2 = InteractionRecord::new(&mut ids, InteractionKind::ProcessSpawn, p1, p2, 101, ConfidenceLevel::Confirmed, "spawn".to_string());
    let r3 = InteractionRecord::new(&mut ids, InteractionKind::ProcessSpawn, p1, p2, 102, ConfidenceLevel::Confirmed, "spawn".to_string());
    let id1 = r1.id;
    let id2 = r2.id;
    let id3 = r3.id;

    registry.record(r1);
    registry.record(r2);
    assert_eq!(registry.inbound(p2).len(), 2);

    registry.record(r3);
    let inbound = registry.inbound(p2);
    assert_eq!(inbound.len(), 2);
    assert!(!inbound.iter().any(|r| r.id == id1));
    assert!(inbound.iter().any(|r| r.id == id2));
    assert!(inbound.iter().any(|r| r.id == id3));
    assert_eq!(registry.len(), 2);
    let recent = registry.recent_interactions(5);
    assert_eq!(recent.len(), 2);
    assert_eq!(recent[0].id, id3);
    assert_eq!(InteractionId::from_raw(id1.as_u64()), id1);
}

#[test]
fn test_process_command_line_in_place_enrichment() {
    let mut ctx = SystemContext::new_for_test(ContextConfig::for_test());
    let key = named(&mut ctx, 5555, 4, 100, "powershell.exe");
    assert!(ctx.get_process(5555).expect("Process 5555 must be active").command_line().is_none());

    let mut p = ctx.processes.evict(key).unwrap();
    p.set_command_line("powershell.exe -NoProfile -ExecutionPolicy Bypass".to_string());
    p.set_package_full_name("Microsoft.WindowsPowerShell".to_string());
    p.set_application_id("PowerShellApp".to_string());
    ctx.processes.restore(p);

    let p = ctx.get_process(5555).unwrap();
    assert_eq!(p.command_line().as_deref(), Some("powershell.exe -NoProfile -ExecutionPolicy Bypass"));
    assert_eq!(p.package_full_name().as_deref(), Some("Microsoft.WindowsPowerShell"));
    assert_eq!(p.application_id().as_deref(), Some("PowerShellApp"));
}

#[test]
fn handles_threads_and_tokens() {
    let mut p = ProcessContext::new(ProcessKey::from_raw(9), None, 9, 0, 0);
    let h = HandleObject {
        handle_value: 0x44,
        target: HandleTarget::Process(ProcessKey::from_raw(3)),
        granted_access: 0x0020,
        open_time: 1,
    };
    assert!(h.has_process_write_access());
    assert!(h.has_process_inject_access());
    assert!(!h.has_process_read_access());
    assert!(!h.has_thread_hijack_access());
    assert_eq!(h.target_process(), Some(ProcessKey::from_raw(3)));
    assert_eq!(h.target_file(), None);
    p.record_handle_open(h);
    assert_eq!(p.handles.len(), 1);
    p.record_handle_close(0x44);
    assert!(p.handles.is_empty());

    let t = HandleObject { handle_value: 1, target: HandleTarget::Thread(ThreadKey::from_raw(5)), granted_access: 0x0010, open_time: 0 };
    assert!(t.has_thread_hijack_access());
    assert!(t.has_process_read_access());
    assert_eq!(t.target_thread(), Some(ThreadKey::from_raw(5)));
    assert_eq!(HandleTarget::key("HKLM\\x".to_string()), HandleTarget::Key("HKLM\\x".to_string()));

    p.record_thread_create(10);
    assert!(p.threads.contains(&10));
    p.record_thread_exit(10);
    assert!(p.threads.is_empty());
    p.record_network_connection(ConnectionKey::from_raw(4));
    p.record_file_access(FileKey::from_raw(6));
    p.convert_to_tombstone();
    assert!(p.is_tombstone());
    assert!(p.network_connections.is_empty());
    assert!(p.touched_files.is_empty());

    let mut token = TokenContext::new();
    assert_eq!(token.integrity, IntegrityLevel::Unknown);
    assert!(!token.has_privilege("SeDebugPrivilege"));
    token.enable_privilege("SeDebugPrivilege".to_string());
    token.enable_privilege("SeDebugPrivilege".to_string());
    assert!(token.has_privilege("SeDebugPrivilege"));
    assert!(!token.has_privilege("SeTcbPrivilege"));
    assert_eq!(token.enabled_privileges.len(), 1);

    let mut th = ThreadContext::new(ThreadKey::from_raw(1), ProcessKey::from_raw(9), 100, 0x1000, 5);
    assert!(th.is_alive());
    th.mark_terminated(3, 9);
    assert!(!th.is_alive());
    assert_eq!(th.exit_status, 3);
}

#[test]
fn file_history_is_bounded() {
    let mut f = FileContext::new(FileKey::from_raw(1), "c:\\a.txt".to_string(), 0);
    for i in 0..40 {
        f.record_access(FileAccessRecord { operation: FileOperationKind::Read, timestamp: i, bytes_transferred: 1, is_write: false });
    }
    let h = f.access_history();
    assert_eq!(h.len(), 32);
    assert_eq!(h[0].timestamp, 8);
    assert_eq!(h[31].timestamp, 39);
    assert!(!f.has_writes());
    assert_eq!(f.last_accessed, 39);
    f.touch(5);
    assert_eq!(f.last_accessed, 39);
    assert!(f.is_executable() == false);
    let exe = FileContext::new(FileKey::from_raw(2), "c:\\x\\TOOL.EXE".to_string(), 0);
    assert!(exe.is_executable());
}

#[test]
fn system_path_classification() {
    assert!(ModuleInfo::is_system_path(r"C:\Windows\System32\kernel32.dll"));
    assert!(ModuleInfo::is_system_path(r"\SystemRoot\System32\drivers\x.sys"));
    assert!(ModuleInfo::is_system_path(r"D:\copies\NTDLL.DLL"));
    assert!(!ModuleInfo::is_system_path(r"C:\Program Files\App\app.dll"));
    assert!(LoadedModule::is_system_path(r"C:\Windows\WinSxS\a\b.dll"));
}
