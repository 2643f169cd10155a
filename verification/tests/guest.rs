use bux::guest::control::{graceful_shutdown, pong, thawed, ControlWork, FrozenMounts, ShutdownStep};
use bux::guest::exec::{
    exec_id, output_event, send_exit, send_exit_by_pid, split_env, timeout, ExecAction, ExecEvent,
    ExecSession, WaitOutcome,
};
use bux::guest::files::{
    check_entry, handle_copy_in, handle_copy_out, handle_read, path_within, temp_file_path,
    CopyInError,
};
use bux::guest::mounts::{
    counts_as_frozen, essential_tmpfs, freeze_candidates, freeze_filesystems, is_tmpfs, is_virtual,
    mount_essential_tmpfs, thaw_frozen, Separator,
};
use bux::guest::server::{session, uptime_ms, Route};
use bux::proto::{
    ControlReq, ControlResp, Download, ErrorCode, ExecIn, ExecOut, ExecStart, Hello, HelloAck,
    StreamError, TtyConfig, UploadResult,
};

const MOUNTS: &str = "\
/dev/vda / ext4 rw,relatime 0 0
proc /proc proc rw,nosuid 0 0
tmpfs /run tmpfs rw,mode=755 0 0
/dev/vdb /data xfs rw 0 0
/dev/vdc /media iso9660 ro,relatime 0 0
/dev/vdd /weird ext4 rw,errors=remount-ro 0 0
share /mnt virtiofs rw 0 0
broken line
";

#[test]
fn control_hello_checks_the_version() {
    let ok = session(Hello::Control { version: 5 });
    assert!(matches!(ok.ack, Some(HelloAck::Control { version: 5 })));
    assert!(matches!(ok.route, Route::Control));
    let bad = session(Hello::Control { version: 4 });
    assert!(matches!(bad.route, Route::Close));
    match bad.ack {
        Some(HelloAck::Error(e)) => {
            assert_eq!(e.code, ErrorCode::VersionMismatch);
            assert_eq!(e.message, "host protocol v4, guest protocol v5");
        }
        other => panic!("expected an error, got {other:?}"),
    }
}

#[test]
fn file_hellos_are_ready_at_once() {
    let s = session(Hello::FileRead { path: "/etc/hosts".into() });
    assert!(matches!(s.ack, Some(HelloAck::Ready)));
    assert!(matches!(s.route, Route::FileRead { path } if path == "/etc/hosts"));
    let s = session(Hello::FileWrite { path: "/tmp/x".into(), mode: 0o640 });
    assert!(matches!(s.ack, Some(HelloAck::Ready)));
    assert!(matches!(s.route, Route::FileWrite { path, mode: 0o640 } if path == "/tmp/x"));
    let s = session(Hello::CopyIn { dest: "/srv".into() });
    assert!(matches!(s.route, Route::CopyIn { dest } if dest == "/srv"));
    let s = session(Hello::CopyOut { path: "/srv".into(), follow_symlinks: true });
    assert!(matches!(s.route, Route::CopyOut { path, follow_symlinks: true } if path == "/srv"));
    let s = session(Hello::Exec(ExecStart::new("/bin/echo")));
    assert!(s.ack.is_none());
    assert!(matches!(s.route, Route::Exec(req) if req.cmd == "/bin/echo"));
}

#[test]
fn uptime_is_the_low_64_bits() {
    assert_eq!(uptime_ms(0), 0);
    assert_eq!(uptime_ms(1234), 1234);
    assert_eq!(uptime_ms(u64::MAX as u128 + 6), 5);
}

#[test]
fn thaw_takes_what_quiesce_froze() {
    let mut frozen = FrozenMounts::new();
    assert!(matches!(frozen.handle(ControlReq::Ping), ControlWork::Ping));
    assert!(matches!(frozen.handle(ControlReq::Quiesce), ControlWork::Freeze));
    let resp = frozen.quiesce(vec!["/".to_string(), "/data".to_string()]);
    assert!(matches!(resp, ControlResp::QuiesceOk { frozen_count: 2 }));
    match frozen.handle(ControlReq::Thaw) {
        ControlWork::Thaw(list) => assert_eq!(list, vec!["/", "/data"]),
        other => panic!("expected Thaw, got {other:?}"),
    }
    match frozen.handle(ControlReq::Thaw) {
        ControlWork::Thaw(list) => assert!(list.is_empty()),
        other => panic!("expected Thaw, got {other:?}"),
    }
    assert!(matches!(thawed(2), ControlResp::ThawOk { thawed_count: 2 }));
    assert!(matches!(pong("0.6.1", 1234), ControlResp::Pong { version, uptime_ms: 1234 } if version == "0.6.1"));
}

#[test]
fn shutdown_goes_through_its_steps() {
    let steps = vec![
        ShutdownStep::Acknowledge,
        ShutdownStep::Terminate,
        ShutdownStep::Sleep(500),
        ShutdownStep::KillAll,
        ShutdownStep::Sync,
        ShutdownStep::Exit(0),
    ];
    assert_eq!(graceful_shutdown(), steps);
    let mut frozen = FrozenMounts::new();
    assert_eq!(frozen.handle(ControlReq::Shutdown), ControlWork::Shutdown(steps));
}

#[test]
fn mount_table_is_read() {
    assert!(is_tmpfs(MOUNTS, "/run"));
    assert!(!is_tmpfs(MOUNTS, "/tmp"));
    assert!(!is_tmpfs(MOUNTS, "/data"));
    assert!(!is_tmpfs("", "/run"));
    assert_eq!(freeze_candidates(MOUNTS), vec!["/", "/data", "/weird"]);
    assert!(freeze_candidates("").is_empty());
    assert!(is_virtual("overlay") && is_virtual("cgroup2") && !is_virtual("ext4") && !is_virtual(""));
    let targets = mount_essential_tmpfs(MOUNTS);
    let seen: Vec<(&str, u32)> = targets.iter().map(|t| (t.path, t.mode)).collect();
    assert_eq!(seen, vec![("/tmp", 0o1777), ("/var/tmp", 0o1777)]);
    let all: Vec<(&str, u32)> = essential_tmpfs().iter().map(|t| (t.path, t.mode)).collect();
    assert_eq!(all, vec![("/tmp", 0o1777), ("/var/tmp", 0o1777), ("/run", 0o755)]);
}

#[test]
fn text_is_split() {
    assert_eq!(Separator::WhiteSpace.split("  a \t b\n"), vec!["a", "b"]);
    assert!(Separator::WhiteSpace.split(" \t ").is_empty());
    assert_eq!(Separator::LineFeed.split("a\n\nb\n"), vec!["a", "", "b"]);
    assert_eq!(Separator::LineFeed.split("\n"), vec![""]);
    assert!(Separator::LineFeed.split("").is_empty());
    assert_eq!(Separator::Comma.split("rw,,ro"), vec!["rw", "", "ro"]);
}

#[test]
fn freeze_counts_busy_as_frozen() {
    const EBUSY: i32 = 16;
    const EOPNOTSUPP: i32 = 95;
    assert!(counts_as_frozen(0, 0));
    assert!(counts_as_frozen(-1, EBUSY));
    assert!(!counts_as_frozen(-1, EOPNOTSUPP));
    let candidates: Vec<String> = ["/", "/data", "/weird"].iter().map(|s| s.to_string()).collect();
    let frozen = freeze_filesystems(&candidates, &[(0, 0), (-1, EOPNOTSUPP), (-1, EBUSY)]);
    assert_eq!(frozen, vec!["/", "/weird"]);
    assert_eq!(thaw_frozen(&[0, -1, 0]), 2);
    assert_eq!(thaw_frozen(&[]), 0);
}

#[test]
fn exec_ids_and_environment() {
    assert_eq!(exec_id(1), "exec-1");
    assert_eq!(exec_id(1234567890), "exec-1234567890");
    assert_eq!(split_env("A=1"), Some(("A".to_string(), "1".to_string())));
    assert_eq!(split_env("A=b=c"), Some(("A".to_string(), "b=c".to_string())));
    assert_eq!(split_env("=x"), Some((String::new(), "x".to_string())));
    assert_eq!(split_env("NOEQ"), None);
    assert_eq!(timeout(&ExecStart::new("x")), None);
    assert_eq!(timeout(&ExecStart::new("x").timeout(200)), Some(200));
}

#[test]
fn exit_messages() {
    assert!(matches!(
        send_exit(Some(0), None, false, 42),
        ExecOut::Exit { code: 0, signal: None, timed_out: false, duration_ms: 42, error_message } if error_message.is_empty()
    ));
    assert!(matches!(
        send_exit(None, Some(9), true, 200),
        ExecOut::Exit { code: -1, signal: Some(9), timed_out: true, duration_ms: 200, .. }
    ));
    assert!(matches!(send_exit_by_pid(WaitOutcome::Exited(3), false, 1), ExecOut::Exit { code: 3, signal: None, .. }));
    assert!(matches!(send_exit_by_pid(WaitOutcome::Signaled(15), false, 1), ExecOut::Exit { code: 0, signal: Some(15), .. }));
    assert!(matches!(send_exit_by_pid(WaitOutcome::AlreadyReaped, false, 1), ExecOut::Exit { code: 0, signal: None, .. }));
    assert!(matches!(send_exit_by_pid(WaitOutcome::Unknown, true, 1), ExecOut::Exit { code: -1, signal: None, timed_out: true, .. }));
}

#[test]
fn pipe_session() {
    let mut s = ExecSession::handle(&ExecStart::new("cat").with_stdin());
    assert!(!s.finished());
    assert!(matches!(s.step(ExecEvent::Host(ExecIn::Stdin(b"hi".to_vec()))), ExecAction::Write(d) if d == b"hi"));
    assert!(matches!(s.step(ExecEvent::Host(ExecIn::ResizeTty(TtyConfig { rows: 1, cols: 2, x_pixels: 0, y_pixels: 0 }))), ExecAction::Idle));
    assert!(matches!(s.step(ExecEvent::Host(ExecIn::Signal(15))), ExecAction::Signal(15)));
    assert!(matches!(s.step(ExecEvent::Host(ExecIn::StdinClose)), ExecAction::CloseStdin));
    assert!(matches!(s.step(ExecEvent::Host(ExecIn::Stdin(b"late".to_vec()))), ExecAction::Idle));
    assert!(matches!(s.step(output_event(false, Some(b"out"))), ExecAction::Send(ExecOut::Stdout(d)) if d == b"out"));
    assert!(matches!(s.step(output_event(true, Some(b"err"))), ExecAction::Send(ExecOut::Stderr(d)) if d == b"err"));
    assert!(matches!(s.step(output_event(false, Some(b""))), ExecAction::Idle));
    assert!(!s.finished());
    assert!(matches!(s.step(output_event(true, None)), ExecAction::Idle));
    assert!(s.finished());
}

#[test]
fn session_without_stdin_drops_input_and_ends_when_the_host_goes() {
    let mut s = ExecSession::handle(&ExecStart::new("sleep"));
    assert!(matches!(s.step(ExecEvent::Host(ExecIn::Stdin(b"x".to_vec()))), ExecAction::Idle));
    assert!(matches!(s.step(ExecEvent::HostGone), ExecAction::Kill));
    assert!(s.finished());
}

#[test]
fn tty_session() {
    let mut s = ExecSession::handle(&ExecStart::new("sh").tty(24, 80));
    let size = TtyConfig { rows: 50, cols: 120, x_pixels: 0, y_pixels: 0 };
    assert!(matches!(s.step(ExecEvent::Host(ExecIn::Stdin(b"ls\n".to_vec()))), ExecAction::Write(_)));
    assert!(matches!(s.step(ExecEvent::Host(ExecIn::StdinClose)), ExecAction::Idle));
    assert!(matches!(s.step(ExecEvent::Host(ExecIn::Stdin(b"x".to_vec()))), ExecAction::Write(_)));
    assert!(matches!(s.step(ExecEvent::Host(ExecIn::ResizeTty(size))), ExecAction::Resize(t) if t == size));
    assert!(!s.finished());
    assert!(matches!(s.step(ExecEvent::StdoutClosed), ExecAction::Idle));
    assert!(s.finished());
}

#[test]
fn temp_files_differ_by_counter() {
    assert_eq!(temp_file_path("upload", 1, 0), "/tmp/bux-upload-1-0");
    assert_eq!(temp_file_path("download", 4242, 17), "/tmp/bux-download-4242-17");
    assert_ne!(temp_file_path("upload", 1, 1), temp_file_path("upload", 1, 2));
}

#[test]
fn traversal_is_blocked() {
    assert!(path_within("/srv/app", "/srv/app"));
    assert!(path_within("/srv/app/sub", "/srv/app"));
    assert!(!path_within("/srv/application", "/srv/app"));
    assert!(!path_within("/etc", "/srv/app"));
    assert!(!path_within("/srv", "/srv/app"));
    assert!(path_within("/etc", "/"));
    assert!(check_entry("a/b", Some("/srv/app/a"), "/srv/app").is_ok());
    assert!(check_entry("a/b", None, "/srv/app").is_ok());
    let refused = check_entry("../../etc/evil", Some("/etc"), "/srv/app");
    assert!(matches!(&refused, Err(CopyInError::Traversal(p)) if p == "../../etc/evil"));
    match handle_copy_in(refused) {
        UploadResult::Error(e) => {
            assert_eq!(e.code, ErrorCode::PermissionDenied);
            assert_eq!(e.message, "path traversal blocked: ../../etc/evil");
        }
        other => panic!("expected an error, got {other:?}"),
    }
}

#[test]
fn upload_failures_are_classified() {
    assert!(matches!(handle_copy_in(Ok(())), UploadResult::Success));
    match handle_copy_in(Err(CopyInError::Upload(StreamError::LimitExceeded))) {
        UploadResult::Error(e) => assert_eq!(e.code, ErrorCode::LimitExceeded),
        other => panic!("expected an error, got {other:?}"),
    }
    match handle_copy_in(Err(CopyInError::Upload(StreamError::UnexpectedEof))) {
        UploadResult::Error(e) => assert_eq!(e.code, ErrorCode::Internal),
        other => panic!("expected an error, got {other:?}"),
    }
    match handle_copy_in(Err(CopyInError::Io("disk full".into()))) {
        UploadResult::Error(e) => {
            assert_eq!(e.code, ErrorCode::Internal);
            assert_eq!(e.message, "disk full");
        }
        other => panic!("expected an error, got {other:?}"),
    }
    match handle_read("No such file or directory (os error 2)") {
        Download::Error(e) => {
            assert_eq!(e.code, ErrorCode::NotFound);
            assert_eq!(e.message, "No such file or directory (os error 2)");
        }
        other => panic!("expected an error, got {other:?}"),
    }
}

#[test]
fn single_files_are_packed_under_their_name() {
    assert_eq!(handle_copy_out("/etc/hosts"), "hosts");
    assert_eq!(handle_copy_out("hosts"), "hosts");
    assert_eq!(handle_copy_out("/srv/dir/"), "dir");
    assert_eq!(handle_copy_out("/"), "file");
    assert_eq!(handle_copy_out(""), "file");
    assert_eq!(handle_copy_out("/a/.."), "file");
}
