use std::sync::Arc;

use pulsar::context::config::ContextConfig;
use pulsar::context::identity::{ConnectionKey, EntityId, FileKey, IdCounter, ProcessKey, ThreadKey};
use pulsar::context::models::file::signature::{DigitalSignature, SignatureStatus, SignatureType};
use pulsar::context::models::file::{FileAccessRecord, FileFormatInfo, FileOperationKind};
use pulsar::context::models::handle::{HandleObject, HandleTarget};
use pulsar::context::models::interaction::{ConfidenceLevel, InteractionKind, InteractionRecord};
use pulsar::context::models::network::{IpAddress, NetworkConnection, SocketAddress, SocketProtocol};
use pulsar::context::models::module::LoadedModule;
use pulsar::context::models::process::ProcessContext;
use pulsar::context::models::thread::ThreadContext;
use pulsar::context::models::token::{IntegrityLevel, TokenContext};
use pulsar::context::query::file_query::FileRef;
use pulsar::context::query::process_query::ProcessRef;
use pulsar::context::query::thread_query::ThreadRef;
use pulsar::context::system::SystemContext;
use pulsar::helpers::pe::models::{PeExport, PeExportDirectory, PeInfo, PeSection};

fn process(ctx: &mut SystemContext, pid: u32, ppid: u32, t: i64, name: &str) -> ProcessContext {
    let key = ctx.next_process_key();
    let mut p = ProcessContext::new(key, None, pid, ppid, t);
    p.set_image_name(name.to_string());
    p
}

fn write_record(timestamp: i64, bytes: u64) -> FileAccessRecord {
    FileAccessRecord { operation: FileOperationKind::Write, timestamp, bytes_transferred: bytes, is_write: true }
}

fn v4(a: u8, b: u8, c: u8, d: u8, port: u16) -> SocketAddress {
    SocketAddress { ip: IpAddress::V4([a, b, c, d]), port }
}

#[test]
fn test_process_ancestry_graph_walking() {
    let mut ctx = SystemContext::new_for_test(ContextConfig::for_test());

    // services.exe (100) -> svchost.exe (200) -> cmd.exe (300) -> powershell.exe (400)
    let p1 = process(&mut ctx, 100, 4, 10, "services.exe");
    ctx.insert_process(p1);
    let p2 = process(&mut ctx, 200, 100, 20, "svchost.exe");
    ctx.insert_process(p2);
    let p3 = process(&mut ctx, 300, 200, 30, "cmd.exe");
    ctx.insert_process(p3);
    let p4 = process(&mut ctx, 400, 300, 40, "powershell.exe");
    ctx.insert_process(p4);

    let target = ctx.process(400).expect("powershell.exe must exist");
    let mut walk = target.ancestors();
    let mut ancestors = Vec::new();
    while let Some(p) = walk.next() {
        ancestors.push(p);
    }

    assert_eq!(ancestors.len(), 3);
    assert_eq!(ancestors[0].image_file_name(), "cmd.exe");
    assert_eq!(ancestors[1].image_file_name(), "svchost.exe");
    assert_eq!(ancestors[2].image_file_name(), "services.exe");
}

#[test]
fn test_file_query_dsl() {
    let mut ctx = SystemContext::new_for_test(ContextConfig::for_test());
    let pid = 3333;
    let f1 = ctx.get_or_create_file(r"C:\Test\doc1.txt", 100);
    let f2 = ctx.get_or_create_file(r"C:\Test\doc2.txt", 110);

    let mut proc = process(&mut ctx, pid, 1000, 100, "");
    let proc_key = proc.key;
    proc.record_file_access(f1);
    proc.record_file_access(f2);
    ctx.insert_process(proc);

    ctx.files.record_access(f2, write_record(120, 1024));

    let touched_pid = ctx.touched_files(pid);
    assert_eq!(touched_pid.len(), 2);

    let touched_key = ctx.touched_files_by_key(proc_key);
    assert_eq!(touched_key.len(), 2);

    let proc_ref = ctx.process(pid).expect("Process must exist");
    assert_eq!(proc_ref.touched_file_keys().len(), 2);
    assert_eq!(proc_ref.touched_files().len(), 2);

    let modified = proc_ref.modified_files();
    assert_eq!(modified.len(), 1);
    assert_eq!(modified[0].path(), r"c:\test\doc2.txt");

    let history = ctx.file_access_history(f2);
    assert_eq!(history.len(), 1);
    assert!(history[0].is_write);
    assert_eq!(history[0].bytes_transferred, 1024);
}

#[test]
fn test_file_format_info_pe_caching_and_sharing() {
    let mut ctx = SystemContext::new_for_test(ContextConfig::for_test());
    let path = r"C:\Windows\System32\dummy_syscall.dll";
    let file_key = ctx.get_or_create_file(path, 1000);

    {
        let file_ctx = ctx.get_file_by_key(file_key).unwrap();
        assert!(!file_ctx.is_pe());
        assert!(file_ctx.pe_info().is_none());
    }

    let export_dir = PeExportDirectory {
        dll_name: Some("dummy_syscall.dll".to_string()),
        export_table_rva: 0x2000,
        export_table_size: 0x1000,
        ordinal_base: 1,
        exports: vec![PeExport { name: Some("NtTestSyscall".to_string()), ordinal: 1, rva: 0x1020, forwarder: None }],
        by_ordinal: std::collections::HashMap::new(),
    };
    let pe_info = Arc::new(PeInfo {
        is_64bit: true,
        machine: 0x8664,
        characteristics: 0x2000,
        subsystem: 3,
        image_base: 0x180000000,
        size_of_image: 0x10000,
        entry_point_rva: 0x1000,
        size_of_headers: 0x400,
        sections: vec![PeSection {
            name: ".text".to_string(),
            virtual_address: 0x1000,
            virtual_size: 0x1000,
            raw_data_offset: 0x400,
            raw_data_size: 0x400,
            characteristics: 0x60000020,
        }],
        exports: Some(export_dir),
    });

    ctx.set_file_format_info(file_key, FileFormatInfo::Pe(Arc::clone(&pe_info)));

    {
        let file_ctx = ctx.get_file_by_key(file_key).unwrap();
        assert!(file_ctx.is_pe());
        let retrieved_pe = file_ctx.pe_info().expect("Must have PeInfo");
        assert_eq!(retrieved_pe.find_export_by_name("NtTestSyscall"), Some(0x1020));
    }

    let facade_pe = ctx.file_pe_info(file_key).expect("Facade must resolve PeInfo");
    assert_eq!(facade_pe.image_base, 0x180000000);

    let mut proc1 = process(&mut ctx, 6001, 1000, 100, "");
    proc1.record_file_access(file_key);
    ctx.insert_process(proc1);
    let mut proc2 = process(&mut ctx, 6002, 1000, 100, "");
    proc2.record_file_access(file_key);
    ctx.insert_process(proc2);

    let f1 = ctx.files.get_by_key(file_key).unwrap();
    let f2 = ctx.files.get_by_key(file_key).unwrap();
    let pe1 = f1.pe_info().unwrap();
    let pe2 = f2.pe_info().unwrap();
    assert!(Arc::ptr_eq(&pe1, &pe2));
    assert!(Arc::ptr_eq(&pe1, &pe_info));
}

#[test]
fn test_process_ref_dsl_extended_queries_and_handles() {
    let mut ctx = SystemContext::new_for_test(ContextConfig::for_test());
    let victim = process(&mut ctx, 7000, 4, 100, "lsass.exe");
    let key_victim = victim.key;
    ctx.insert_process(victim);

    let mut actor = process(&mut ctx, 8000, 4, 100, "mimikatz.exe");
    let mut tok = TokenContext::new();
    tok.is_elevated = true;
    tok.integrity = IntegrityLevel::System;
    tok.enable_privilege("SeDebugPrivilege".to_string());
    actor.token = tok;

    actor.record_handle_open(HandleObject {
        handle_value: 0x100,
        target: HandleTarget::Process(key_victim),
        granted_access: 0x1FFFFF,
        open_time: 105,
    });
    let mut ids = IdCounter::new();
    let file_key = FileKey::new(&mut ids);
    actor.record_handle_open(HandleObject {
        handle_value: 0x104,
        target: HandleTarget::File(file_key),
        granted_access: 0x80000000,
        open_time: 106,
    });
    ctx.insert_process(actor);

    let actor_ref = ctx.process(8000).expect("Actor process must exist");
    assert!(actor_ref.is_elevated());
    assert_eq!(actor_ref.integrity(), IntegrityLevel::System);
    assert!(actor_ref.has_privilege("SeDebugPrivilege"));
    assert!(!actor_ref.has_privilege("SeTcbPrivilege"));

    let handles_to_victim = actor_ref.handles_to_process(key_victim);
    assert_eq!(handles_to_victim.len(), 1);
    assert!(handles_to_victim[0].has_process_write_access());
    assert!(handles_to_victim[0].has_process_inject_access());
    assert!(handles_to_victim[0].has_process_read_access());

    let handles_to_file = actor_ref.handles_to_file(file_key);
    assert_eq!(handles_to_file.len(), 1);
    assert_eq!(handles_to_file[0].handle_value, 0x104);
}

#[test]
fn test_file_ref_and_thread_ref_query_dsl() {
    let mut ctx = SystemContext::new_for_test(ContextConfig::for_test());
    let file = ctx.get_or_create_file(r"C:\Windows\System32\drivers\etc\hosts", 100);
    ctx.files.record_access(file, write_record(105, 512));

    let mut proc1 = process(&mut ctx, 4401, 4, 100, "editor.exe");
    let k_proc1 = proc1.key;
    proc1.record_file_access(file);
    ctx.insert_process(proc1);

    let mut proc2 = process(&mut ctx, 4402, 4, 100, "reader.exe");
    proc2.record_file_access(file);
    ctx.insert_process(proc2);

    let file_ref = ctx.file(r"C:\Windows\System32\drivers\etc\hosts").expect("File must be queried");
    assert_eq!(file_ref.file_name(), "hosts");
    assert!(file_ref.has_writes());
    assert!(file_ref.is_modified());

    let accessing = file_ref.accessing_processes();
    assert_eq!(accessing.len(), 2);
    assert!(accessing.iter().any(|p| p.pid() == 4401));
    assert!(accessing.iter().any(|p| p.pid() == 4402));

    let modifying = file_ref.modifying_processes();
    assert_eq!(modifying.len(), 2);

    let mut ids = IdCounter::new();
    let t_key = ThreadKey::new(&mut ids);
    let thread = ThreadContext::new(t_key, k_proc1, 9901, 0x7FFE_1000, 100);
    let thread_ref = ThreadRef::new(&ctx, &thread);

    assert_eq!(thread_ref.tid(), 9901);
    assert!(thread_ref.is_alive());
    assert_eq!(thread_ref.start_address(), 0x7FFE_1000);
    assert_eq!(thread_ref.owner_process().unwrap().pid(), 4401);
}

#[test]
fn test_network_query_dsl() {
    let mut ctx = SystemContext::new_for_test(ContextConfig::for_test());
    let proc = process(&mut ctx, 6001, 4, 100, "curl.exe");
    let k_proc = proc.key;
    ctx.insert_process(proc);

    let conn1 = NetworkConnection {
        key: ConnectionKey::new(&mut ctx.connection_ids),
        owner_process: k_proc,
        protocol: SocketProtocol::Tcp,
        local_addr: v4(192, 168, 1, 50, 52100),
        remote_addr: v4(93, 184, 216, 34, 443),
        start_time: 100,
        end_time: None,
    };
    let conn2 = NetworkConnection {
        key: ConnectionKey::new(&mut ctx.connection_ids),
        owner_process: k_proc,
        protocol: SocketProtocol::Udp,
        local_addr: v4(127, 0, 0, 1, 53000),
        remote_addr: v4(127, 0, 0, 1, 53),
        start_time: 101,
        end_time: None,
    };
    ctx.network.register_connection(conn1);
    ctx.network.register_connection(conn2);

    let net_query = ctx.network_query();
    assert_eq!(net_query.by_process(k_proc).len(), 2);
    assert_eq!(net_query.by_remote_port(443).len(), 1);
    assert_eq!(net_query.by_protocol(SocketProtocol::Tcp).len(), 1);
    assert_eq!(net_query.by_protocol(SocketProtocol::Udp).len(), 1);

    let external = net_query.outbound_external();
    assert_eq!(external.len(), 1);
    assert_eq!(external[0].remote_addr.port(), 443);
}

#[test]
fn test_file_digital_signature_caching_and_process_sharing() {
    let mut ctx = SystemContext::new_for_test(ContextConfig::for_test());

    let file = ctx.get_or_create_file(r"C:\Windows\System32\svchost.exe", 100);
    assert_eq!(ctx.get_file_by_key(file).unwrap().signature_status(), SignatureStatus::Unchecked);

    let sig = DigitalSignature {
        status: SignatureStatus::SignedVerified,
        signature_type: Some(SignatureType::Catalog),
        signer_name: Some("Microsoft Windows".to_string()),
        issuer_name: Some("Microsoft Root Certificate Authority 2010".to_string()),
        is_microsoft: true,
        win32_error: 0,
        verification_timestamp: 150,
    };
    ctx.set_file_signature(file, sig);

    let mut proc1 = process(&mut ctx, 1001, 4, 200, r"C:\Windows\System32\svchost.exe");
    proc1.record_file_access(file);
    ctx.insert_process(proc1);
    let mut proc2 = process(&mut ctx, 1002, 4, 205, r"C:\Windows\System32\svchost.exe");
    proc2.record_file_access(file);
    ctx.insert_process(proc2);

    let p1_ref = ctx.process(1001).expect("Process 1 must exist");
    let p2_ref = ctx.process(1002).expect("Process 2 must exist");
    assert!(p1_ref.is_image_signed());
    assert!(p1_ref.is_image_microsoft());
    assert!(p2_ref.is_image_signed());
    assert!(p2_ref.is_image_microsoft());

    let file_ref = ctx.file(r"C:\Windows\System32\svchost.exe").expect("FileRef must resolve");
    assert_eq!(file_ref.signature_status(), SignatureStatus::SignedVerified);
    assert!(file_ref.is_trusted());
    assert!(file_ref.is_microsoft());
    assert_eq!(file_ref.signer_name().as_deref(), Some("Microsoft Windows"));
    assert_eq!(file_ref.issuer_name().as_deref(), Some("Microsoft Root Certificate Authority 2010"));
}

#[test]
fn children_and_parent_navigation() {
    let mut ctx = SystemContext::new_for_test(ContextConfig::for_test());
    let parent = process(&mut ctx, 10, 4, 1, "explorer.exe");
    ctx.insert_process(parent);
    let c1 = process(&mut ctx, 11, 10, 2, "a.exe");
    ctx.insert_process(c1);
    let c2 = process(&mut ctx, 12, 10, 3, "b.exe");
    ctx.insert_process(c2);

    let p = ctx.process(10).unwrap();
    let mut kids: Vec<u32> = p.children().iter().map(|c| c.pid()).collect();
    kids.sort();
    assert_eq!(kids, vec![11, 12]);
    assert!(p.parent().is_none());

    let c = ctx.process(12).unwrap();
    assert_eq!(c.parent().unwrap().pid(), 10);
    let first = c.ancestors().next().unwrap();
    assert_eq!(first.key(), c.parent().unwrap().key());
}

#[test]
fn image_name_prefers_path_component() {
    let mut ctx = SystemContext::new_for_test(ContextConfig::for_test());
    let mut p = process(&mut ctx, 20, 4, 1, "short.exe");
    p.set_image_path(r"C:\Tools\long\name.exe".to_string());
    ctx.insert_process(p);
    let q = process(&mut ctx, 21, 4, 1, "");
    ctx.insert_process(q);
    let r = process(&mut ctx, 22, 4, 1, "only.exe");
    ctx.insert_process(r);

    assert_eq!(ctx.process(20).unwrap().image_name(), "name.exe");
    assert_eq!(ctx.process(21).unwrap().image_name(), "unknown");
    assert_eq!(ctx.process(22).unwrap().image_name(), "only.exe");
    assert_eq!(ctx.process(20).unwrap().image_path(), Some(r"C:\Tools\long\name.exe"));
}

#[test]
fn has_module_is_case_insensitive_substring() {
    let mut ctx = SystemContext::new_for_test(ContextConfig::for_test());
    let mut p = process(&mut ctx, 30, 4, 1, "host.exe");
    p.record_module_load(LoadedModule::new(0x1000, 0x100, r"C:\Windows\System32\NTDLL.dll".to_string(), None, 1, 0, 0, false));
    ctx.insert_process(p);
    let r = ctx.process(30).unwrap();
    assert!(r.has_module("ntdll"));
    assert!(r.has_module("System32\\ntdll.DLL"));
    assert!(!r.has_module("kernel32"));
    assert_eq!(r.loaded_modules().len(), 1);
}

#[test]
fn sha256_hex_is_lowercase_pairs() {
    let mut ctx = SystemContext::new_for_test(ContextConfig::for_test());
    let k = ctx.get_or_create_file(r"C:\a.bin", 1);
    let file_ref = ctx.file(r"C:\a.bin").unwrap();
    assert_eq!(file_ref.sha256_hex(), None);
    let _ = k;
    let mut hash = [0u8; 32];
    hash[0] = 0xAB;
    hash[1] = 0x01;
    hash[31] = 0xF0;
    let mut f = pulsar::context::models::file::FileContext::new(FileKey(7), "x".to_string(), 0);
    f.set_sha256(hash);
    let r = FileRef::new(&ctx, &f);
    let hex = r.sha256_hex().unwrap();
    assert_eq!(hex.len(), 64);
    assert!(hex.starts_with("ab01"));
    assert!(hex.ends_with("f0"));
}

#[test]
fn interaction_query_filters() {
    let mut ctx = SystemContext::new_for_test(ContextConfig::for_test());
    let a = ProcessKey(1);
    let b = ProcessKey(2);
    for i in 0..4i64 {
        let kind = if i % 2 == 0 { InteractionKind::ProcessSpawn } else { InteractionKind::RemoteThreadCreation };
        let rec = InteractionRecord::new(
            &mut ctx.interaction_ids,
            kind,
            EntityId::Process(a),
            EntityId::Process(b),
            10 + i,
            ConfidenceLevel::Confirmed,
            "t".to_string(),
        );
        ctx.record_interaction(rec);
    }
    let q = ctx.query_interactions();
    assert_eq!(q.by_source_process(a).len(), 4);
    assert_eq!(q.targeting(EntityId::Process(b)).len(), 4);
    assert_eq!(q.recent(3).len(), 3);
    let late = q.matching(10, |r| r.timestamp >= 12);
    assert_eq!(late.len(), 2);
    assert_eq!(late[0].timestamp, 13);
}

#[test]
fn pin_through_context() {
    let mut ctx = SystemContext::new_for_test(ContextConfig::for_test());
    let p = process(&mut ctx, 40, 4, 1, "x.exe");
    let k = p.key;
    ctx.insert_process(p);
    ctx.pin_process(k);
    assert!(ctx.process(40).unwrap().is_pinned());
    ctx.unpin_process(k);
    assert!(!ctx.process(40).unwrap().is_pinned());
}

#[test]
fn loopback_classification() {
    assert!(IpAddress::V4([127, 1, 2, 3]).is_loopback());
    assert!(!IpAddress::V4([10, 0, 0, 1]).is_loopback());
    let mut one = [0u8; 16];
    one[15] = 1;
    assert!(IpAddress::V6(one).is_loopback());
    assert!(!IpAddress::V6([0u8; 16]).is_loopback());
}

#[test]
fn process_ref_and_file_ref_constructors() {
    let mut ctx = SystemContext::new_for_test(ContextConfig::for_test());
    let p = process(&mut ctx, 50, 4, 9, "z.exe");
    ctx.insert_process(p);
    let inner = ctx.get_process(50).unwrap();
    let r = ProcessRef::new(&ctx, inner);
    assert_eq!(r.pid(), 50);
    assert_eq!(r.create_time(), 9);
    assert!(r.is_alive());
    assert!(!r.is_tombstone());
    assert_eq!(r.command_line(), None);
}

#[test]
fn dedup_by_normalized_path() {
    let mut ctx = SystemContext::new_for_test(ContextConfig::for_test());
    let a = ctx.get_or_create_file(r"\??\C:\Windows\System32\KERNEL32.dll", 1);
    let b = ctx.get_or_create_file(r"c:/windows/system32/kernel32.DLL", 2);
    assert_eq!(a, b);
    assert_eq!(ctx.file(r"C:\WINDOWS\system32\kernel32.dll").unwrap().key(), a);
    assert_eq!(ctx.files.len(), 1);
}

#[test]
fn recycled_pid_keeps_old_lifetime() {
    let mut ctx = SystemContext::new_for_test(ContextConfig::for_test());
    let first = process(&mut ctx, 900, 4, 1, "first.exe");
    let k1 = first.key;
    ctx.insert_process(first);
    ctx.exit_process(900, 3, 50);
    let second = process(&mut ctx, 900, 4, 60, "second.exe");
    let k2 = second.key;
    ctx.insert_process(second);
    assert_eq!(ctx.process(900).unwrap().key(), k2);
    let old = ctx.process_by_key(k1).unwrap();
    assert_eq!(old.image_file_name(), "first.exe");
    assert!(!old.is_alive());
    assert_eq!(old.context().exit_status, 3);
    assert_eq!(old.context().exit_time, 50);
}
