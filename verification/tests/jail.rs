use bux::jail::{
    bwrap_args, build_command, close_limit, find_shim, generate_profile, search_path, sibling_path,
    Sandbox,
};
use bux::watchdog::{after_poll, parse_watchdog_fd, watchdog_env_value, WatchdogStep, ENV_WATCHDOG_FD};
use bux::JailConfig;

fn config() -> JailConfig {
    JailConfig {
        rootfs: Some("/rootfs".into()),
        root_disk: None,
        socks_dir: "/data/socks".into(),
        virtiofs_paths: vec!["/share/a".into(), "/share/b".into()],
        watchdog_fd: Some(5),
    }
}

#[test]
fn bwrap_command_line() {
    let args = bwrap_args("/usr/bin/bux-shim", "/data/socks/x.json", &config(), true);
    let expected: Vec<&str> = vec![
        "--unshare-pid", "--unshare-ipc", "--unshare-uts", "--die-with-parent",
        "--ro-bind", "/", "/",
        "--tmpfs", "/tmp", "--tmpfs", "/dev/shm",
        "--dev-bind", "/dev/kvm", "/dev/kvm",
        "--bind", "/rootfs", "/rootfs",
        "--bind", "/data/socks", "/data/socks",
        "--bind", "/share/a", "/share/a",
        "--bind", "/share/b", "/share/b",
        "--ro-bind", "/data/socks/x.json", "/data/socks/x.json",
        "--", "/usr/bin/bux-shim", "/data/socks/x.json",
    ];
    assert_eq!(args, expected);
}

#[test]
fn bwrap_without_kvm_with_root_disk() {
    let cfg = JailConfig {
        rootfs: None,
        root_disk: Some("/d.qcow2".into()),
        socks_dir: "/s".into(),
        virtiofs_paths: vec![],
        watchdog_fd: None,
    };
    let args = bwrap_args("shim", "cfg", &cfg, false);
    assert!(!args.iter().any(|a| a == "--dev-bind"));
    assert_eq!(&args[11..17], &["--bind", "/d.qcow2", "/d.qcow2", "--bind", "/s", "/s"]);
    assert_eq!(args.len(), 11 + 3 + 3 + 6);
}

#[test]
fn seatbelt_profile() {
    let profile = generate_profile("/usr/bin/bux-shim", "/data/socks/x.json", &config());
    let expected = "(version 1)\n(deny default)\n\n\
(allow process-exec process-fork)\n\
(allow signal (target self))\n\
(allow sysctl-read)\n\n\
(allow file-read*\n  (subpath \"/usr/lib\")\n  (subpath \"/System\")\n  (subpath \"/Library/Frameworks\")\n  (subpath \"/dev\")\n)\n\n\
(allow file-read* (subpath \"/usr/bin/bux-shim\"))\n\
(allow file-read* (subpath \"/data/socks/x.json\"))\n\
(allow file-read* file-write* (subpath \"/data/socks\"))\n\
(allow file-read* file-write* (subpath \"/rootfs\"))\n\
(allow file-read* file-write* (subpath \"/share/a\"))\n\
(allow file-read* file-write* (subpath \"/share/b\"))\n\
(allow hv-all)\n\
(allow mach-lookup)\n";
    assert_eq!(profile, expected);
}

#[test]
fn commands_for_each_sandbox() {
    let cfg = config();
    let bare = build_command(&Sandbox::Bare, "/shim", "/cfg.json", &cfg);
    assert_eq!(bare.program, "/shim");
    assert_eq!(bare.args, vec!["/cfg.json"]);
    let seatbelt = build_command(&Sandbox::Seatbelt, "/shim", "/cfg.json", &cfg);
    assert_eq!(seatbelt.program, "/usr/bin/sandbox-exec");
    assert_eq!(seatbelt.args.len(), 5);
    assert_eq!(seatbelt.args[0], "-p");
    assert_eq!(seatbelt.args[1], generate_profile("/shim", "/cfg.json", &cfg));
    assert_eq!(&seatbelt.args[2..], &["--", "/shim", "/cfg.json"]);
    let bwrap = build_command(
        &Sandbox::Bwrap { path: "/usr/bin/bwrap".into(), has_kvm: false },
        "/shim",
        "/cfg.json",
        &cfg,
    );
    assert_eq!(bwrap.program, "/usr/bin/bwrap");
    assert_eq!(bwrap.args, bwrap_args("/shim", "/cfg.json", &cfg, false));
}

#[test]
fn descriptor_limit() {
    assert_eq!(close_limit(-1), 1024);
    assert_eq!(close_limit(0), 1024);
    assert_eq!(close_limit(256), 256);
    assert_eq!(close_limit(i64::MAX), i32::MAX);
}

#[test]
fn helper_programs_are_searched_in_order() {
    assert_eq!(sibling_path("/usr/bin/bux", "bux-shim"), "/usr/bin/bux-shim");
    assert_eq!(sibling_path("bux", "bux-shim"), "bux-shim");
    assert_eq!(search_path("/a:/b/:", "bwrap"), vec!["/a/bwrap", "/b/bwrap", "bwrap"]);
    assert_eq!(
        find_shim("bux-shim", Some("/opt/bux/bin/bux"), Some("/usr/bin:/bin")),
        vec!["/opt/bux/bin/bux-shim", "/usr/bin/bux-shim", "/bin/bux-shim"]
    );
    assert_eq!(find_shim("bux-shim", None, Some("/bin")), vec!["/bin/bux-shim"]);
    assert!(find_shim("bux-shim", None, None).is_empty());
}

#[test]
fn watchdog_descriptor_travels_through_the_environment() {
    assert_eq!(ENV_WATCHDOG_FD, "BUX_WATCHDOG_FD");
    assert_eq!(watchdog_env_value(7), "7");
    assert_eq!(parse_watchdog_fd(&watchdog_env_value(2147483647)), Some(2147483647));
    assert_eq!(parse_watchdog_fd("12"), Some(12));
    assert_eq!(parse_watchdog_fd("x"), None);
    assert_eq!(parse_watchdog_fd(""), None);
}

#[test]
fn watchdog_exits_on_hangup() {
    const POLLHUP: i16 = 0x10;
    const POLLIN: i16 = 0x1;
    assert_eq!(after_poll(1, POLLHUP, false), WatchdogStep::ParentGone);
    assert_eq!(after_poll(1, POLLHUP | POLLIN, false), WatchdogStep::ParentGone);
    assert_eq!(after_poll(1, POLLIN, false), WatchdogStep::PollAgain);
    assert_eq!(after_poll(0, 0, false), WatchdogStep::PollAgain);
    assert_eq!(after_poll(0, POLLHUP, false), WatchdogStep::PollAgain);
    assert_eq!(after_poll(-1, 0, true), WatchdogStep::PollAgain);
    assert_eq!(after_poll(-1, 0, false), WatchdogStep::ParentGone);
}
