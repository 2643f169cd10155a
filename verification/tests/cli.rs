use bux::cli::{parse_guest_ref, parse_signal, parse_user, parse_volume, read_env_file};
use bux::client::{Client, ExecHandle};
use bux::oci::config::{dirs_default_store, DataDirs, Platform};
use bux::oci::registry::{
    blob_url, image_arch, manifest_url, select_platform, token_endpoint, token_url, IndexEntry,
};
use bux::oci::{ImageConfig, Reference};
use bux::proto::{ControlResp, ErrorCode, ErrorInfo, ExecIn, ExecOut, Hello, HelloAck, UploadResult};
use bux::{Error, IoKind};

#[test]
fn users() {
    assert_eq!(parse_user("1000"), Ok((1000, None)));
    assert_eq!(parse_user("1000:100"), Ok((1000, Some(100))));
    assert_eq!(parse_user("+7:0"), Ok((7, Some(0))));
    assert_eq!(parse_user("4294967295"), Ok((u32::MAX, None)));
    assert_eq!(parse_user("4294967296"), Err("invalid UID".to_string()));
    assert_eq!(parse_user(""), Err("invalid UID".to_string()));
    assert_eq!(parse_user("root"), Err("invalid UID".to_string()));
    assert_eq!(parse_user("-1"), Err("invalid UID".to_string()));
    assert_eq!(parse_user("1:"), Err("invalid GID".to_string()));
    assert_eq!(parse_user("1:2:3"), Err("invalid GID".to_string()));
    assert_eq!(parse_user(":1"), Err("invalid UID".to_string()));
}

#[test]
fn volumes() {
    assert_eq!(parse_volume("/host:/guest"), Ok(("/host".into(), "/guest".into(), false)));
    assert_eq!(parse_volume("/host:/guest:ro"), Ok(("/host".into(), "/guest".into(), true)));
    assert_eq!(parse_volume("/host:/guest:rw,RO"), Ok(("/host".into(), "/guest".into(), true)));
    assert_eq!(parse_volume("/host:/guest:rw"), Ok(("/host".into(), "/guest".into(), false)));
    assert_eq!(parse_volume("/host:/guest:a:ro"), Ok(("/host".into(), "/guest".into(), false)));
    assert_eq!(
        parse_volume("/host"),
        Err("invalid volume spec \"/host\"; use hostPath:guestPath[:ro]".to_string())
    );
}

#[test]
fn signals() {
    assert_eq!(parse_signal("9"), Ok(9));
    assert_eq!(parse_signal("-3"), Ok(-3));
    assert_eq!(parse_signal("KILL"), Ok(9));
    assert_eq!(parse_signal("kill"), Ok(9));
    assert_eq!(parse_signal("SIGTERM"), Ok(15));
    assert_eq!(parse_signal("sigint"), Ok(2));
    assert_eq!(parse_signal("HUP"), Ok(1));
    assert_eq!(parse_signal("QUIT"), Ok(3));
    assert_eq!(parse_signal("USR1"), Ok(10));
    assert_eq!(parse_signal("usr2"), Ok(12));
    assert_eq!(parse_signal("CONT"), Ok(18));
    assert_eq!(parse_signal("SigStop"), Ok(19));
    assert_eq!(parse_signal("SIG"), Err("unknown signal: SIG".to_string()));
    assert_eq!(parse_signal("BOGUS"), Err("unknown signal: BOGUS".to_string()));
    assert_eq!(parse_signal("99999999999"), Err("unknown signal: 99999999999".to_string()));
}

#[test]
fn guest_references() {
    assert_eq!(parse_guest_ref("vm:/etc/hosts"), Some(("vm", "/etc/hosts")));
    assert_eq!(parse_guest_ref("vm:a:b"), Some(("vm", "a:b")));
    assert_eq!(parse_guest_ref("vm:"), Some(("vm", "")));
    assert_eq!(parse_guest_ref(":/etc"), None);
    assert_eq!(parse_guest_ref("/local/path"), None);
    assert_eq!(parse_guest_ref(""), None);
}

#[test]
fn image_command_is_entrypoint_then_cmd() {
    let mut cfg = ImageConfig {
        cmd: Some(vec!["-c".into(), "true".into()]),
        entrypoint: Some(vec!["/bin/sh".into()]),
        env: None,
        working_dir: None,
        user: None,
        exposed_ports: None,
    };
    assert_eq!(cfg.command(), vec!["/bin/sh", "-c", "true"]);
    cfg.entrypoint = None;
    assert_eq!(cfg.command(), vec!["-c", "true"]);
    cfg.cmd = None;
    assert!(cfg.command().is_empty());
}

#[test]
fn default_store_directory() {
    let mut dirs = DataDirs {
        bux_home: Some("/custom".into()),
        xdg_data_home: Some("/xdg".into()),
        home: Some("/home/u".into()),
        local_app_data: Some("C:/Users/u/AppData/Local".into()),
    };
    assert_eq!(dirs_default_store(Platform::Linux, &dirs), "/custom");
    dirs.bux_home = None;
    assert_eq!(dirs_default_store(Platform::Linux, &dirs), "/xdg/bux");
    assert_eq!(dirs_default_store(Platform::MacOs, &dirs), "/home/u/Library/Application Support/bux");
    assert_eq!(dirs_default_store(Platform::Windows, &dirs), "C:/Users/u/AppData/Local/bux");
    assert_eq!(dirs_default_store(Platform::Other, &dirs), "bux");
    dirs.xdg_data_home = None;
    assert_eq!(dirs_default_store(Platform::Linux, &dirs), "/home/u/.local/share/bux");
    dirs.home = None;
    assert_eq!(dirs_default_store(Platform::Linux, &dirs), "bux");
}

#[test]
fn registry_addresses() {
    let r = Reference::parse("ubuntu:22.04").unwrap();
    assert_eq!(manifest_url(&r, "22.04"), "https://registry-1.docker.io/v2/library/ubuntu/manifests/22.04");
    assert_eq!(blob_url(&r, "sha256:abc"), "https://registry-1.docker.io/v2/library/ubuntu/blobs/sha256:abc");
    assert_eq!(token_endpoint("docker.io"), Some(("https://auth.docker.io/token", "registry.docker.io")));
    assert_eq!(token_endpoint("ghcr.io"), Some(("https://ghcr.io/token", "ghcr.io")));
    assert_eq!(token_endpoint("localhost:5000"), None);
    assert_eq!(
        token_url("https://auth.docker.io/token", "registry.docker.io", "library/ubuntu"),
        "https://auth.docker.io/token?service=registry.docker.io&scope=repository:library/ubuntu:pull"
    );
    let mut client = bux::oci::registry::Client::new();
    assert_eq!(client.cached_token(&r), None);
    client.remember(&r, "secret");
    assert_eq!(client.cached_token(&r).as_deref(), Some("secret"));
    assert_eq!(client.cached_token(&Reference::parse("alpine").unwrap()), None);
    assert_eq!(bux::oci::registry::Client::authorization("secret"), "Bearer secret");
}

#[test]
fn platform_is_chosen_from_an_index() {
    let entry = |digest: &str, platform: Option<(&str, &str)>| IndexEntry {
        digest: digest.into(),
        platform: platform.map(|(a, o)| (a.to_string(), o.to_string())),
    };
    let entries = vec![
        entry("sha256:none", None),
        entry("sha256:win", Some(("amd64", "windows"))),
        entry("sha256:arm", Some(("arm64", "linux"))),
        entry("sha256:amd", Some(("amd64", "linux"))),
        entry("sha256:amd2", Some(("amd64", "linux"))),
    ];
    assert_eq!(image_arch("x86_64"), "amd64");
    assert_eq!(image_arch("aarch64"), "arm64");
    assert_eq!(image_arch("riscv64"), "riscv64");
    assert_eq!(select_platform(&entries, "x86_64").unwrap(), 3);
    assert_eq!(select_platform(&entries, "aarch64").unwrap(), 2);
    match select_platform(&entries, "riscv64") {
        Err(bux::oci::Error::Registry(m)) => assert_eq!(m, "no manifest for platform riscv64/linux"),
        other => panic!("expected Registry, got {other:?}"),
    }
}

#[test]
fn handshake_checks_the_version() {
    assert!(matches!(Client::hello_control(), Hello::Control { version: 5 }));
    assert!(Client::handshake(&HelloAck::Control { version: 5 }).is_ok());
    match Client::handshake(&HelloAck::Control { version: 4 }) {
        Err(Error::Io(IoKind::Unsupported, m)) => {
            assert_eq!(m, "protocol version mismatch: host=5, guest=4")
        }
        other => panic!("expected Unsupported, got {other:?}"),
    }
    match Client::handshake(&HelloAck::Error(ErrorInfo::version_mismatch("old host"))) {
        Err(Error::Io(IoKind::Other, m)) => assert_eq!(m, "VersionMismatch: old host"),
        other => panic!("expected Other, got {other:?}"),
    }
    match Client::handshake(&HelloAck::Ready) {
        Err(Error::Io(IoKind::InvalidData, m)) => assert_eq!(m, "expected Control ack"),
        other => panic!("expected InvalidData, got {other:?}"),
    }
}

#[test]
fn answers_are_judged() {
    let client = Client::new("/data/socks/x.sock");
    assert_eq!(client.socket_path(), "/data/socks/x.sock");
    assert!(Client::expect_ready(&HelloAck::Ready).is_ok());
    assert!(matches!(Client::expect_ready(&HelloAck::Control { version: 5 }), Err(Error::Io(IoKind::InvalidData, _))));
    assert_eq!(
        Client::exec(&HelloAck::ExecStarted { exec_id: "exec-1".into(), pid: 42 }).unwrap(),
        ("exec-1".to_string(), 42)
    );
    assert!(matches!(Client::exec(&HelloAck::Ready), Err(Error::Io(IoKind::InvalidData, _))));
    assert!(Client::expect_upload_ok(&UploadResult::Success).is_ok());
    match Client::expect_upload_ok(&UploadResult::Error(ErrorInfo::new(ErrorCode::PermissionDenied, "no"))) {
        Err(Error::Io(IoKind::Other, m)) => assert_eq!(m, "PermissionDenied: no"),
        other => panic!("expected Other, got {other:?}"),
    }
    assert!(Client::shutdown(&ControlResp::ShutdownOk).is_ok());
    assert!(Client::shutdown(&ControlResp::QuiesceOk { frozen_count: 1 }).is_err());
    let pong = Client::ping(&ControlResp::Pong { version: "0.6.1".into(), uptime_ms: 1234 }).unwrap();
    assert_eq!((pong.version.as_str(), pong.uptime_ms), ("0.6.1", 1234));
    assert_eq!(Client::quiesce(&ControlResp::QuiesceOk { frozen_count: 3 }).unwrap(), 3);
    assert_eq!(Client::thaw(&ControlResp::ThawOk { thawed_count: 3 }).unwrap(), 3);
    assert!(Client::thaw(&ControlResp::QuiesceOk { frozen_count: 3 }).is_err());
    assert!(matches!(Client::read_file("/x"), Hello::FileRead { path } if path == "/x"));
    assert!(matches!(Client::write_file("/x", 0o640), Hello::FileWrite { path, mode: 0o640 } if path == "/x"));
    assert!(matches!(Client::copy_in("/d"), Hello::CopyIn { dest } if dest == "/d"));
    assert!(matches!(Client::copy_out("/p"), Hello::CopyOut { path, follow_symlinks: false } if path == "/p"));
    assert!(matches!(Client::copy_out_opts("/p", true), Hello::CopyOut { follow_symlinks: true, .. }));
}

#[test]
fn exec_output_is_gathered_up_to_the_exit() {
    let handle = ExecHandle::new("exec-7", 99);
    assert_eq!((handle.exec_id(), handle.pid()), ("exec-7", 99));
    assert!(matches!(handle.write_stdin(b"in"), ExecIn::Stdin(d) if d == b"in"));
    assert!(matches!(handle.close_stdin(), ExecIn::StdinClose));
    assert!(matches!(handle.signal(2), ExecIn::Signal(2)));
    assert!(matches!(handle.resize_tty(1, 2, 3, 4), ExecIn::ResizeTty(t) if (t.rows, t.cols, t.x_pixels, t.y_pixels) == (1, 2, 3, 4)));
    let msgs = vec![
        ExecOut::Stdout(b"h".to_vec()),
        ExecOut::Stderr(b"warn".to_vec()),
        ExecOut::Stdout(b"i\n".to_vec()),
        ExecOut::Exit { code: 0, signal: None, timed_out: false, duration_ms: 12, error_message: String::new() },
        ExecOut::Stdout(b"ignored".to_vec()),
    ];
    let out = handle.wait_with_output(&msgs).unwrap();
    assert_eq!(out.exec_id, "exec-7");
    assert_eq!(out.pid, 99);
    assert_eq!(out.stdout, b"hi\n");
    assert_eq!(out.stderr, b"warn");
    assert_eq!((out.code, out.signal, out.timed_out, out.duration_ms), (0, None, false, 12));

    let failed = ExecHandle::new("e", 1)
        .wait_with_output(&[ExecOut::Stdout(vec![1]), ExecOut::Error(ErrorInfo::internal("pipe broke"))]);
    assert!(matches!(failed, Err(Error::Io(IoKind::Other, m)) if m == "Internal: pipe broke"));
    let cut = ExecHandle::new("e", 1).wait_with_output(&[ExecOut::Stdout(vec![1])]);
    assert!(matches!(cut, Err(Error::Io(IoKind::UnexpectedEof, _))));
}

#[test]
fn environment_files() {
    let content = "A=1\n\n  # comment\n  B = two \r\n#C=3\nD=#4\n   \nE=5";
    assert_eq!(read_env_file(content), vec!["A=1", "B = two", "D=#4", "E=5"]);
    assert!(read_env_file("").is_empty());
    assert!(read_env_file("\n\n#x\n").is_empty());
}
