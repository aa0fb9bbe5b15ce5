use pulsar::drivers::error::DriverError;
use pulsar::error::{AppError, BootstrapError, EtwError};

#[test]
fn test_driver_error_formatting() {
    let err = DriverError::IoctlResponseTruncated { code: 0x222000, expected: 16, received: 8 };
    assert_eq!(
        err.message(),
        "IOCTL 0x222000 response truncated: expected 16 bytes, received 8 bytes"
    );

    let err_null = DriverError::NullBinaryPath;
    assert_eq!(err_null.message(), "Driver service configuration contains a null binary path");

    let err_conn = DriverError::DeviceConnectFailed {
        device: "\\\\.\\SingularityDevice",
        code: 2,
        message: "The system cannot find the file specified.".to_string(),
    };
    assert_eq!(
        err_conn.message(),
        "Failed to connect to KMDF device '\\\\.\\SingularityDevice': Windows Error 2: The system cannot find the file specified."
    );
}

#[test]
fn test_app_error_from_domain_errors() {
    let etw_err = EtwError::KernelLoggerAlreadyActive;
    let app_err: AppError = etw_err.into();
    assert!(matches!(app_err, AppError::Etw(EtwError::KernelLoggerAlreadyActive)));
    assert_eq!(
        app_err.message(),
        "The NT Kernel Logger is already active or locked by another instance"
    );

    let driver_err = DriverError::NullBinaryPath;
    let app_err: AppError = driver_err.into();
    assert!(matches!(app_err, AppError::Driver(DriverError::NullBinaryPath)));

    let boot_err = BootstrapError::NotElevated;
    let app_err: AppError = boot_err.into();
    assert!(matches!(app_err, AppError::Bootstrap(BootstrapError::NotElevated)));
}

#[test]
fn app_error_messages() {
    assert_eq!(
        AppError::from_win32(5, "Access is denied.".to_string()).message(),
        "Windows API Error 5: Access is denied."
    );
    assert_eq!(AppError::internal("boom".to_string()).message(), "Internal Error: boom");
    assert_eq!(
        AppError::bootstrap("early".to_string()),
        AppError::Bootstrap(BootstrapError::Failed("early".to_string()))
    );
    assert_eq!(AppError::bootstrap("early".to_string()).message(), "Bootstrap failed: early");
    assert_eq!(
        DriverError::windows_api(1060, "missing".to_string()).message(),
        "Windows Driver/SCM Error 1060: missing"
    );
    assert_eq!(
        DriverError::ServiceNotRegistered("singularity".to_string()).message(),
        "Driver service 'singularity' is not registered in the Service Control Manager"
    );
    assert_eq!(
        AppError::Driver(DriverError::IoctlResponseTruncated { code: 0xABC, expected: 0, received: 1234567 })
            .message(),
        "IOCTL 0xABC response truncated: expected 0 bytes, received 1234567 bytes"
    );
}
