use bux::proto::{
    ErrorCode, ErrorInfo, ExecStart, AGENT_PORT, MAX_UPLOAD_BYTES, PROTOCOL_VERSION,
    STREAM_CHUNK_SIZE,
};

#[test]
fn protocol_constants() {
    assert_eq!(PROTOCOL_VERSION, 5);
    assert_eq!(STREAM_CHUNK_SIZE, 1 << 20);
    assert_eq!(MAX_UPLOAD_BYTES, 512 * 1024 * 1024);
    assert_eq!(AGENT_PORT, 1024);
}

#[test]
fn exec_start_builder_sets_each_field() {
    let start = ExecStart::new("/bin/ls")
        .args(vec!["-la".into()])
        .env(vec!["PATH=/usr/bin".into()])
        .cwd("/tmp")
        .user(1000, 1001)
        .with_stdin()
        .tty(24, 80)
        .timeout(5000);
    assert_eq!(start.cmd, "/bin/ls");
    assert_eq!(start.args, vec!["-la"]);
    assert_eq!(start.env, vec!["PATH=/usr/bin"]);
    assert_eq!(start.cwd.as_deref(), Some("/tmp"));
    assert_eq!(start.uid, Some(1000));
    assert_eq!(start.gid, Some(1001));
    assert!(start.stdin);
    let tty = start.tty.unwrap();
    assert_eq!((tty.rows, tty.cols, tty.x_pixels, tty.y_pixels), (24, 80, 0, 0));
    assert_eq!(start.timeout_ms, 5000);
}

#[test]
fn exec_start_new_is_minimal() {
    let start = ExecStart::new("true");
    assert_eq!(start.cmd, "true");
    assert!(start.args.is_empty());
    assert!(start.env.is_empty());
    assert!(start.cwd.is_none() && start.uid.is_none() && start.gid.is_none());
    assert!(!start.stdin);
    assert!(start.tty.is_none());
    assert_eq!(start.timeout_ms, 0);
}

#[test]
fn error_info_constructors() {
    assert_eq!(ErrorInfo::internal("a").code, ErrorCode::Internal);
    assert_eq!(ErrorInfo::not_found("a").code, ErrorCode::NotFound);
    assert_eq!(ErrorInfo::invalid_request("a").code, ErrorCode::InvalidRequest);
    assert_eq!(ErrorInfo::permission_denied("a").code, ErrorCode::PermissionDenied);
    assert_eq!(ErrorInfo::version_mismatch("a").code, ErrorCode::VersionMismatch);
    let e = ErrorInfo::new(ErrorCode::Timeout, "too slow");
    assert_eq!(e.message, "too slow");
    assert_eq!(e.to_string(), "Timeout: too slow");
    assert_eq!(ErrorInfo::new(ErrorCode::LimitExceeded, "").to_string(), "LimitExceeded: ");
}
