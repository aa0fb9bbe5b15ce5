use std::sync::Arc;

use pulsar::alerts::model::{AlertRecord, AlertSeverity};
use pulsar::alerts::sinks::{console_line, logs_as_warning};
use pulsar::bootstrap::{
    clean_driver_path, is_ppl_antimalware_level, plan_driver_setup, DriverSetupPlan,
    PPL_ANTIMALWARE_REQUEST_LEVEL,
};
use pulsar::cli::{Cli, LogMode};
use pulsar::context::config::ContextConfig;
use pulsar::context::enrichment::EnrichmentTask;
use pulsar::context::identity::{FileKey, IdCounter, ProcessKey};
use pulsar::context::models::file::signature::{
    catalog_member_tag, name_from_units, DigitalSignature, SignatureStatus,
};
use pulsar::context::registries::file_registry::{device_entry, normalize_file_path};
use pulsar::context::models::interaction::ConfidenceLevel;
use pulsar::context::system::SystemContext;
use pulsar::drivers::error::DriverError;
use pulsar::drivers::kmdf::check_ioctl_response;
use pulsar::error::format_win32_error_message;
use pulsar::helpers::pe::error::PeError;
use pulsar::helpers::pe::models::PeInfo;
use pulsar::helpers::strings::StringError;

#[test]
fn driver_path_prefix_quotes_and_system_root() {
    assert_eq!(
        clean_driver_path("  \\??\\C:\\Drivers\\singularity.sys  ", "C:\\Windows"),
        "C:\\Drivers\\singularity.sys"
    );
    assert_eq!(
        clean_driver_path("\"\\SystemRoot\\System32\\drivers\\singularity.sys\"", "D:\\Win"),
        "D:\\Win\\System32\\drivers\\singularity.sys"
    );
    assert_eq!(
        clean_driver_path("\\systemroot\\x.sys", "C:\\Windows"),
        "C:\\Windows\\x.sys"
    );
    assert_eq!(
        clean_driver_path("%SystemRoot%\\a\\%systemroot%.sys", "E:\\W"),
        "E:\\W\\a\\E:\\W.sys"
    );
    assert_eq!(clean_driver_path("\"\"\"", "C:\\Windows"), "");
    assert_eq!(clean_driver_path("plain.sys", "C:\\Windows"), "plain.sys");
}

#[test]
fn driver_setup_plans() {
    assert_eq!(plan_driver_setup(false, None), DriverSetupPlan::Install { unload_existing: false });
    assert_eq!(plan_driver_setup(true, None), DriverSetupPlan::Install { unload_existing: true });
    assert_eq!(plan_driver_setup(true, Some(false)), DriverSetupPlan::Install { unload_existing: true });
    assert_eq!(plan_driver_setup(true, Some(true)), DriverSetupPlan::EnsureRunning);
}

#[test]
fn protection_levels() {
    assert_eq!(PPL_ANTIMALWARE_REQUEST_LEVEL, 0x31);
    assert!(is_ppl_antimalware_level(3));
    assert!(!is_ppl_antimalware_level(0));
    assert!(!is_ppl_antimalware_level(0x31));
}

#[test]
fn ioctl_response_sizes() {
    assert_eq!(check_ioctl_response(0x22_2000, 8, 8), Ok(()));
    assert_eq!(check_ioctl_response(0x22_2000, 8, 16), Ok(()));
    assert_eq!(check_ioctl_response(0x22_2000, 0, 0), Ok(()));
    let err = check_ioctl_response(0x22_2000, 8, 4).unwrap_err();
    assert_eq!(err, DriverError::IoctlResponseTruncated { code: 0x22_2000, expected: 8, received: 4 });
    assert_eq!(err.message(), "IOCTL 0x222000 response truncated: expected 8 bytes, received 4 bytes");
}

#[test]
fn win32_message_from_system_answer() {
    let text: Vec<u16> = "Access is denied.\r\n".encode_utf16().collect();
    let mut buffer = [0u16; 512];
    buffer[..text.len()].copy_from_slice(&text);
    assert_eq!(format_win32_error_message(5, &buffer, text.len() as u32), "Access is denied.");
    assert_eq!(format_win32_error_message(1234, &buffer, 0), "Unknown Windows error code 1234");
}

#[test]
fn console_alert_line() {
    let mut ids = IdCounter::new();
    let key = ProcessKey::from_raw(42);
    let alert = AlertRecord::new(
        &mut ids,
        AlertSeverity::High,
        "Defense Evasion".to_string(),
        "Direct Syscall".to_string(),
        "stub in unbacked memory".to_string(),
        key,
        ConfidenceLevel::Confirmed,
        10,
    );
    assert_eq!(
        console_line(&alert),
        "[ALERT] [HIGH] [Defense Evasion] Direct Syscall | Proc: ProcKey(#42) | MITRE: N/A | stub in unbacked memory"
    );
    assert!(logs_as_warning(&alert));
    let tagged = alert.with_mitre("T1106".to_string());
    assert!(console_line(&tagged).contains("| MITRE: T1106 |"));

    let info = AlertRecord::new(
        &mut ids,
        AlertSeverity::Informational,
        "c".to_string(),
        "t".to_string(),
        "d".to_string(),
        key,
        ConfidenceLevel::Confirmed,
        11,
    );
    assert!(!logs_as_warning(&info));
}

#[test]
fn cli_feature_switches() {
    let cli = Cli {
        uninstall: false,
        log_mode: Some(LogMode::Debug),
        log_file: None,
        disable_syscalls: true,
        disable_context: false,
        skip_driver: true,
    };
    assert!(!cli.syscalls_enabled());
    assert!(cli.context_enabled());
    assert!(!cli.is_pass_through());
    let quiet = Cli { disable_context: true, ..cli.clone() };
    assert!(quiet.is_pass_through());
}

#[test]
fn enrichment_results_are_recorded() {
    let mut ctx = SystemContext::new_for_test(ContextConfig::for_test());
    let key = ctx.get_or_create_file(r"C:\Windows\System32\x.dll", 5);
    let task = EnrichmentTask::NewFile(key);
    assert_eq!(task, EnrichmentTask::NewFile(key));

    let mut sig = DigitalSignature::unsigned(9);
    ctx.apply_file_enrichment(key, Err(PeError::InvalidDosSignature), sig.clone());
    let f = ctx.get_file_by_key(key).unwrap();
    assert!(!f.is_pe());
    assert_eq!(f.signature_status(), SignatureStatus::Unsigned);

    let pe = PeInfo {
        is_64bit: true,
        machine: 0x8664,
        characteristics: 0x2002,
        subsystem: 2,
        image_base: 0x1_8000_0000,
        size_of_image: 0x1000,
        entry_point_rva: 0x10,
        size_of_headers: 0x200,
        sections: Vec::new(),
        exports: None,
    };
    sig.signer_name = Some("Someone".to_string());
    ctx.apply_file_enrichment(key, Ok(pe), sig);
    let f = ctx.get_file_by_key(key).unwrap();
    assert!(f.is_pe());
    assert_eq!(f.signer_name().as_deref(), Some("Someone"));
    let info: Arc<PeInfo> = ctx.file_pe_info(key).unwrap();
    assert_eq!(info.image_base, 0x1_8000_0000);

    // An untracked key changes nothing.
    ctx.apply_file_enrichment(FileKey::from_raw(999), Err(PeError::InvalidPeSignature), DigitalSignature::unchecked());
    assert!(ctx.get_file_by_key(FileKey::from_raw(999)).is_none());
}

#[test]
fn string_error_texts() {
    assert_eq!(StringError::MissingNullTerminator.message(), "Missing null terminator");
    assert_eq!(StringError::InvalidEncoding.message(), "Invalid UTF-8 encoding");
}

#[test]
fn certificate_names_and_catalog_tags() {
    let mut buf = [0u16; 256];
    let name: Vec<u16> = "Microsoft Windows".encode_utf16().collect();
    buf[..name.len()].copy_from_slice(&name);
    // The reported length counts the terminating null.
    assert_eq!(name_from_units(&buf, name.len() as u32 + 1).as_deref(), Some("Microsoft Windows"));
    assert_eq!(name_from_units(&buf, 1), None);
    assert_eq!(name_from_units(&buf, 0), None);
    assert_eq!(catalog_member_tag(&[0x0A, 0xFF, 0x10]), "0AFF10");
    assert_eq!(catalog_member_tag(&[]), "");
}

#[test]
fn device_table_entries() {
    let mut buf = [0u16; 512];
    let dev: Vec<u16> = "\\Device\\HarddiskVolume3\0\0".encode_utf16().collect();
    buf[..dev.len()].copy_from_slice(&dev);
    let entry = device_entry("C:", &buf, dev.len() as u32);
    assert_eq!(entry, ("\\device\\harddiskvolume3".to_string(), "c:".to_string()));
    let table = vec![entry];
    assert_eq!(
        normalize_file_path("\\Device\\HarddiskVolume3\\Windows\\x.dll", &table),
        "c:\\windows\\x.dll"
    );
}
