use bux::runtime::{format_id, reconcile, wait_ready, HostAction, ReadyEvent};
use bux::{Error, IoKind, Runtime, Status, Vm, VmHandle};

fn spawn_one(rt: &mut Runtime, name: Option<&str>, auto_remove: bool, seed: u64, pid: i32) -> VmHandle {
    let builder = Vm::builder().root("/rootfs").exec("/bin/sh", &["-c", "true"]);
    let plan = rt
        .spawn(&builder, Some("alpine:latest".into()), name.map(str::to_owned), auto_remove, seed)
        .unwrap();
    rt.register(plan, pid, seed).unwrap()
}

fn is(action: &HostAction, expected: &str) -> bool {
    format!("{action:?}") == expected
}

#[test]
fn ids_are_twelve_hex_digits_at_least() {
    assert_eq!(format_id(0), "000000000000");
    assert_eq!(format_id(0xabc), "000000000abc");
    assert_eq!(format_id(0x1234_5678_9abc), "123456789abc");
    assert_eq!(format_id(u64::MAX), "ffffffffffffffff");
}

#[test]
fn spawn_plans_socket_config_and_agent_port() {
    let rt = Runtime::new("/data");
    assert_eq!(rt.socks_dir, "/data/socks");
    assert_eq!(Runtime::db_path("/data"), "/data/bux.db");
    let builder = Vm::builder().vcpus(2).root("/rootfs").vsock_port(9, "/other.sock", false);
    let plan = rt.spawn(&builder, None, Some("web".into()), true, 0x2a).unwrap();
    assert_eq!(plan.id, "00000000002a");
    assert_eq!(plan.name.as_deref(), Some("web"));
    assert_eq!(plan.socket, "/data/socks/00000000002a.sock");
    assert_eq!(plan.config_path, "/data/socks/00000000002a.json");
    assert!(plan.config.auto_remove);
    assert_eq!(plan.config.vcpus, 2);
    assert_eq!(plan.config.rootfs.as_deref(), Some("/rootfs"));
    // The agent port comes last, the guest listening on it.
    assert_eq!(plan.config.vsock_ports.len(), 2);
    assert_eq!(plan.config.vsock_ports[0].port, 9);
    let agent = &plan.config.vsock_ports[1];
    assert_eq!(agent.port, 1024);
    assert_eq!(agent.path, "/data/socks/00000000002a.sock");
    assert!(agent.listen);
    assert!(plan.overlay_base().is_none());
}

#[test]
fn spawn_refuses_a_taken_name() {
    let mut rt = Runtime::new("/data");
    spawn_one(&mut rt, Some("web"), false, 1, 100);
    let builder = Vm::builder();
    match rt.spawn(&builder, None, Some("web".into()), false, 2) {
        Err(Error::Ambiguous(m)) => assert_eq!(m, "a VM named 'web' already exists"),
        other => panic!("expected Ambiguous, got {other:?}"),
    }
    assert!(rt.spawn(&builder, None, Some("other".into()), false, 2).is_ok());
    assert!(rt.spawn(&builder, None, None, false, 2).is_ok());
}

#[test]
fn overlay_takes_the_place_of_the_base_disk() {
    let rt = Runtime::new("/data");
    let builder = Vm::builder().base_disk("/data/disks/bases/d.raw").virtiofs("vol0", "/share");
    let mut plan = rt.spawn(&builder, None, None, false, 5).unwrap();
    assert_eq!(plan.overlay_base(), Some("/data/disks/bases/d.raw"));
    plan.use_overlay("/data/disks/vms/000000000005.qcow2");
    assert_eq!(plan.config.root_disk.as_deref(), Some("/data/disks/vms/000000000005.qcow2"));
    assert_eq!(plan.config.disk_format, "qcow2");
    assert!(plan.config.base_disk.is_none());
    let jail = plan.jail_config("/data/socks", Some(7));
    assert_eq!(jail.root_disk.as_deref(), Some("/data/disks/vms/000000000005.qcow2"));
    assert!(jail.rootfs.is_none());
    assert_eq!(jail.socks_dir, "/data/socks");
    assert_eq!(jail.virtiofs_paths, vec!["/share"]);
    assert_eq!(jail.watchdog_fd, Some(7));
}

#[test]
fn registered_vm_runs() {
    let mut rt = Runtime::new("/data");
    let handle = spawn_one(&mut rt, Some("web"), false, 1, 4242);
    assert_eq!(handle.state().status, Status::Running);
    assert_eq!(handle.state().pid, 4242);
    assert_eq!(handle.state().image.as_deref(), Some("alpine:latest"));
    let found = rt.lookup("web").unwrap();
    assert_eq!(found.id, "000000000001");
    assert_eq!(rt.lookup("0000").unwrap().id, "000000000001");
    assert!(matches!(rt.lookup("nope"), Err(Error::NotFound(_))));
}

#[test]
fn reconcile_demotes_only_the_dead() {
    assert_eq!(reconcile(Status::Running, true), Status::Running);
    assert_eq!(reconcile(Status::Running, false), Status::Stopped);
    assert_eq!(reconcile(Status::Paused, true), Status::Paused);
    assert_eq!(reconcile(Status::Paused, false), Status::Stopped);
    assert_eq!(reconcile(Status::Creating, false), Status::Creating);
    assert_eq!(reconcile(Status::Stopped, true), Status::Stopped);
    assert_eq!(reconcile(Status::Stopped, false), Status::Stopped);
}

#[test]
fn pause_and_resume_alternate() {
    let mut rt = Runtime::new("/data");
    let mut h = spawn_one(&mut rt, None, false, 1, 10);
    match h.resume(&mut rt.db) {
        Err(Error::Io(IoKind::InvalidInput, m)) => assert_eq!(m, "VM 000000000001 is not paused"),
        other => panic!("expected InvalidInput, got {other:?}"),
    }
    let actions = h.pause(&mut rt.db).unwrap();
    assert_eq!(actions.len(), 2);
    assert!(is(&actions[0], "Quiesce") && is(&actions[1], "Suspend"));
    assert_eq!(h.state().status, Status::Paused);
    assert_eq!(rt.lookup("000000000001").unwrap().status, Status::Paused);
    match h.pause(&mut rt.db) {
        Err(Error::Io(IoKind::InvalidInput, m)) => assert_eq!(m, "VM 000000000001 is not running"),
        other => panic!("expected InvalidInput, got {other:?}"),
    }
    let actions = h.resume(&mut rt.db).unwrap();
    assert!(is(&actions[0], "Continue") && is(&actions[1], "Thaw"));
    assert_eq!(h.state().status, Status::Running);
    assert_eq!(rt.lookup("000000000001").unwrap().status, Status::Running);
}

#[test]
fn stopped_vm_never_runs_again() {
    let mut rt = Runtime::new("/data");
    let mut h = spawn_one(&mut rt, None, false, 1, 10);
    assert!(is(&h.stop(), "Shutdown"));
    let actions = h.stop_timeout(&mut rt.db, true).unwrap();
    assert!(actions.is_empty());
    assert_eq!(h.state().status, Status::Stopped);
    assert_eq!(rt.lookup("000000000001").unwrap().status, Status::Stopped);
    assert!(h.pause(&mut rt.db).is_err());
    assert!(h.resume(&mut rt.db).is_err());
    assert_eq!(h.state().status, Status::Stopped);
    let after = rt.get("000000000001", true).unwrap();
    assert_eq!(after.state().status, Status::Stopped);
}

#[test]
fn stop_kills_what_does_not_exit_in_time() {
    let mut rt = Runtime::new("/data");
    let mut h = spawn_one(&mut rt, None, false, 1, 10);
    let actions = h.stop_timeout(&mut rt.db, false).unwrap();
    assert_eq!(actions.len(), 1);
    assert!(is(&actions[0], "Kill"));
    let mut paused = spawn_one(&mut rt, None, false, 2, 11);
    paused.pause(&mut rt.db).unwrap();
    let actions = paused.kill(&mut rt.db).unwrap();
    assert!(is(&actions[0], "Kill"));
    assert_eq!(paused.state().status, Status::Stopped);
    assert!(is(&paused.signal(15), "Signal(15)"));
}

#[test]
fn auto_remove_deletes_row_socket_and_overlay() {
    let mut rt = Runtime::new("/data");
    let mut h = spawn_one(&mut rt, Some("tmp"), true, 3, 10);
    let actions = h.wait(&mut rt.db).unwrap();
    assert_eq!(actions.len(), 2);
    assert!(is(&actions[0], "RemoveSocket(\"/data/socks/000000000003.sock\")"));
    assert!(is(&actions[1], "RemoveOverlay(\"000000000003\")"));
    assert_eq!(h.state().status, Status::Stopped);
    assert!(matches!(rt.lookup("tmp"), Err(Error::NotFound(_))));
    assert_eq!(rt.db.len(), 0);
}

#[test]
fn list_reconciles_and_drops_auto_removed() {
    let mut rt = Runtime::new("/data");
    spawn_one(&mut rt, Some("keeps"), false, 1, 101);
    spawn_one(&mut rt, Some("dies"), false, 2, 102);
    spawn_one(&mut rt, Some("vanishes"), true, 3, 103);
    spawn_one(&mut rt, Some("lives"), true, 4, 104);
    let (listed, actions) = rt.list(&[102, 103]).unwrap();
    let seen: Vec<(String, Status)> =
        listed.iter().map(|s| (s.name.clone().unwrap(), s.status)).collect();
    assert_eq!(
        seen,
        vec![
            ("lives".to_string(), Status::Running),
            ("dies".to_string(), Status::Stopped),
            ("keeps".to_string(), Status::Running),
        ]
    );
    assert_eq!(actions.len(), 2);
    assert!(is(&actions[0], "RemoveSocket(\"/data/socks/000000000003.sock\")"));
    assert!(is(&actions[1], "RemoveOverlay(\"000000000003\")"));
    assert_eq!(rt.db.len(), 3);
    assert_eq!(rt.lookup("dies").unwrap().status, Status::Stopped);
}

#[test]
fn rename_and_remove() {
    let mut rt = Runtime::new("/data");
    spawn_one(&mut rt, Some("a"), false, 1, 101);
    spawn_one(&mut rt, Some("b"), false, 2, 102);
    match rt.rename("a", "b", true) {
        Err(Error::Ambiguous(m)) => assert_eq!(m, "a VM named 'b' already exists"),
        other => panic!("expected Ambiguous, got {other:?}"),
    }
    rt.rename("a", "a", true).unwrap();
    rt.rename("a", "c", true).unwrap();
    assert_eq!(rt.lookup("c").unwrap().id, "000000000001");
    match rt.remove("c", true) {
        Err(Error::Io(IoKind::InvalidInput, m)) => {
            assert_eq!(m, "VM 000000000001 is still running; stop it first")
        }
        other => panic!("expected InvalidInput, got {other:?}"),
    }
    assert_eq!(rt.db.len(), 2);
    // Once its process is gone it is stopped, and can be removed.
    let actions = rt.remove("c", false).unwrap();
    assert!(is(&actions[0], "RemoveSocket(\"/data/socks/000000000001.sock\")"));
    assert!(is(&actions[1], "RemoveOverlay(\"000000000001\")"));
    assert_eq!(rt.db.len(), 1);
    assert!(matches!(rt.remove("zzz", false), Err(Error::NotFound(_))));
}

#[test]
fn readiness_outcomes() {
    assert!(wait_ready(ReadyEvent::AgentReady, 1, None).is_ok());
    match wait_ready(ReadyEvent::ProcessExited, 4242, Some("/var/log/vm.log")) {
        Err(Error::Io(IoKind::BrokenPipe, m)) => assert_eq!(
            m,
            "VM process (pid 4242) exited before guest agent became ready\n  console log: /var/log/vm.log"
        ),
        other => panic!("expected BrokenPipe, got {other:?}"),
    }
    match wait_ready(ReadyEvent::ProcessExited, -1, None) {
        Err(Error::Io(IoKind::BrokenPipe, m)) => {
            assert_eq!(m, "VM process (pid -1) exited before guest agent became ready")
        }
        other => panic!("expected BrokenPipe, got {other:?}"),
    }
    match wait_ready(ReadyEvent::TimedOut, 1, None) {
        Err(Error::Io(IoKind::TimedOut, m)) => assert_eq!(m, "guest agent did not become ready"),
        other => panic!("expected TimedOut, got {other:?}"),
    }
}
