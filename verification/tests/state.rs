use bux::state::{parse_status, status_str};
use bux::{Error, StateDb, Status, VmConfig, VmState};

/// Creates a test `VmState` with the given ID and name.
fn test_vm(id: &str, name: Option<&str>) -> VmState {
    let mut config = VmConfig::new(2, 512);
    config.exec_path = Some("/bin/sh".to_owned());
    VmState {
        id: id.to_owned(),
        name: name.map(ToOwned::to_owned),
        pid: 1234,
        image: Some("alpine:latest".to_owned()),
        socket: format!("/tmp/{id}.sock"),
        status: Status::Running,
        config,
        created_at: std::time::SystemTime::now()
            .duration_since(std::time::UNIX_EPOCH)
            .unwrap()
            .as_nanos() as u64,
    }
}

/// Opens an in-memory StateDb for testing.
fn open_test_db() -> StateDb {
    StateDb::new()
}

#[test]
fn insert_and_list() {
    let mut db = open_test_db();
    let vm = test_vm("aaa111bbb222", Some("myvm"));
    db.insert(&vm).unwrap();

    let all = db.list().unwrap();
    assert_eq!(all.len(), 1);
    assert_eq!(all[0].id, "aaa111bbb222");
    assert_eq!(all[0].name.as_deref(), Some("myvm"));
    assert_eq!(all[0].pid, 1234);
    assert_eq!(all[0].status, Status::Running);
}

#[test]
fn get_by_name() {
    let mut db = open_test_db();
    db.insert(&test_vm("aaa111", Some("alpha"))).unwrap();
    db.insert(&test_vm("bbb222", Some("beta"))).unwrap();

    let found = db.get_by_name("alpha").unwrap().unwrap();
    assert_eq!(found.id, "aaa111");

    assert!(db.get_by_name("nonexistent").unwrap().is_none());
}

#[test]
fn get_by_id_prefix() {
    let mut db = open_test_db();
    db.insert(&test_vm("abc123def456", None)).unwrap();
    db.insert(&test_vm("xyz789000111", None)).unwrap();

    // Exact match.
    let found = db.get_by_id_prefix("abc123def456").unwrap();
    assert_eq!(found.id, "abc123def456");

    // Unique prefix.
    let found = db.get_by_id_prefix("abc").unwrap();
    assert_eq!(found.id, "abc123def456");

    // No match → NotFound.
    assert!(db.get_by_id_prefix("zzz").is_err());
}

#[test]
fn ambiguous_prefix() {
    let mut db = open_test_db();
    db.insert(&test_vm("abc111", None)).unwrap();
    db.insert(&test_vm("abc222", None)).unwrap();

    let err = db.get_by_id_prefix("abc").unwrap_err();
    assert!(
        matches!(err, Error::Ambiguous(_)),
        "expected Ambiguous, got {err:?}"
    );
}

#[test]
fn update_status() {
    let mut db = open_test_db();
    db.insert(&test_vm("aaa111", None)).unwrap();

    db.update_status("aaa111", Status::Stopped).unwrap();
    let vm = db.get_by_id_prefix("aaa111").unwrap();
    assert_eq!(vm.status, Status::Stopped);
}

#[test]
fn update_name() {
    let mut db = open_test_db();
    db.insert(&test_vm("aaa111", Some("old"))).unwrap();

    db.update_name("aaa111", Some("new")).unwrap();
    assert!(db.get_by_name("old").unwrap().is_none());
    assert!(db.get_by_name("new").unwrap().is_some());
}

#[test]
fn delete() {
    let mut db = open_test_db();
    db.insert(&test_vm("aaa111", None)).unwrap();
    assert_eq!(db.list().unwrap().len(), 1);

    db.delete("aaa111").unwrap();
    assert_eq!(db.list().unwrap().len(), 0);
}

#[test]
fn duplicate_name_rejected() {
    let mut db = open_test_db();
    db.insert(&test_vm("aaa111", Some("dup"))).unwrap();

    let result = db.insert(&test_vm("bbb222", Some("dup")));
    assert!(result.is_err(), "duplicate name should be rejected");
}

#[test]
fn pid_stored_as_i32() {
    let mut db = open_test_db();
    let mut vm = test_vm("aaa111", None);
    vm.pid = -1; // Negative PID should survive round-trip.
    db.insert(&vm).unwrap();

    let loaded = db.get_by_id_prefix("aaa111").unwrap();
    assert_eq!(loaded.pid, -1);
}

#[test]
fn prefix_lookup_names_its_errors() {
    let mut db = open_test_db();
    db.insert(&test_vm("abc111", None)).unwrap();
    db.insert(&test_vm("abc222", None)).unwrap();
    db.insert(&test_vm("abd333", None)).unwrap();
    match db.get_by_id_prefix("abc") {
        Err(Error::Ambiguous(m)) => assert_eq!(m, "prefix 'abc' matches 2 VMs"),
        other => panic!("expected Ambiguous, got {other:?}"),
    }
    match db.get_by_id_prefix("ab") {
        Err(Error::Ambiguous(m)) => assert_eq!(m, "prefix 'ab' matches 3 VMs"),
        other => panic!("expected Ambiguous, got {other:?}"),
    }
    match db.get_by_id_prefix("zzz") {
        Err(Error::NotFound(m)) => assert_eq!(m, "no VM matching 'zzz'"),
        other => panic!("expected NotFound, got {other:?}"),
    }
    assert_eq!(db.get_by_id_prefix("abd").unwrap().id, "abd333");
    // The empty prefix matches every id.
    assert!(matches!(db.get_by_id_prefix(""), Err(Error::Ambiguous(_))));
}

#[test]
fn exact_id_wins_over_longer_ids() {
    let mut db = open_test_db();
    db.insert(&test_vm("abc", None)).unwrap();
    db.insert(&test_vm("abcdef", None)).unwrap();
    assert_eq!(db.get_by_id_prefix("abc").unwrap().id, "abc");
    assert_eq!(db.get_by_id_prefix("abcd").unwrap().id, "abcdef");
}

#[test]
fn duplicate_id_rejected_and_table_unchanged() {
    let mut db = open_test_db();
    db.insert(&test_vm("aaa111", Some("one"))).unwrap();
    match db.insert(&test_vm("aaa111", Some("two"))) {
        Err(Error::Db(m)) => assert_eq!(m, "UNIQUE constraint failed: vms.id"),
        other => panic!("expected Db, got {other:?}"),
    }
    match db.insert(&test_vm("bbb222", Some("one"))) {
        Err(Error::Db(m)) => assert_eq!(m, "UNIQUE constraint failed: vms.name"),
        other => panic!("expected Db, got {other:?}"),
    }
    assert_eq!(db.len(), 1);
    // Records without a name never collide on the name.
    db.insert(&test_vm("ccc333", None)).unwrap();
    db.insert(&test_vm("ddd444", None)).unwrap();
    assert_eq!(db.len(), 3);
}

#[test]
fn list_is_newest_first() {
    let mut db = open_test_db();
    let mut a = test_vm("aaa", None);
    a.created_at = 100;
    let mut b = test_vm("bbb", None);
    b.created_at = 300;
    let mut c = test_vm("ccc", None);
    c.created_at = 200;
    let mut d = test_vm("ddd", None);
    d.created_at = 300;
    db.insert(&a).unwrap();
    db.insert(&b).unwrap();
    db.insert(&c).unwrap();
    db.insert(&d).unwrap();
    let ids: Vec<String> = db.list().unwrap().into_iter().map(|s| s.id).collect();
    assert_eq!(ids, vec!["ddd", "bbb", "ccc", "aaa"]);
}

#[test]
fn rename_to_a_taken_name_is_refused() {
    let mut db = open_test_db();
    db.insert(&test_vm("aaa111", Some("alpha"))).unwrap();
    db.insert(&test_vm("bbb222", Some("beta"))).unwrap();
    assert!(matches!(db.update_name("bbb222", Some("alpha")), Err(Error::Db(_))));
    assert_eq!(db.get_by_name("beta").unwrap().unwrap().id, "bbb222");
    // Its own name is no conflict, and a name can be cleared.
    db.update_name("aaa111", Some("alpha")).unwrap();
    db.update_name("aaa111", None).unwrap();
    assert!(db.get_by_name("alpha").unwrap().is_none());
    // A record that is not there is no error.
    db.update_name("zzz", Some("alpha")).unwrap();
    db.update_status("zzz", Status::Paused).unwrap();
    db.delete("zzz").unwrap();
    assert_eq!(db.len(), 2);
}

#[test]
fn status_words() {
    assert_eq!(status_str(Status::Creating), "creating");
    assert_eq!(status_str(Status::Running), "running");
    assert_eq!(status_str(Status::Paused), "paused");
    assert_eq!(status_str(Status::Stopped), "stopped");
    for s in [Status::Creating, Status::Running, Status::Paused, Status::Stopped] {
        assert_eq!(parse_status(status_str(s)), s);
    }
    assert_eq!(parse_status("anything else"), Status::Stopped);
    assert_eq!(parse_status(""), Status::Stopped);
}

#[test]
fn copies_keep_every_field() {
    let mut vm = test_vm("aaa111", Some("n"));
    vm.config.env = Some(vec!["A=1".into()]);
    vm.config.ports = vec!["8080:80".into()];
    vm.config.virtiofs = vec![bux::VirtioFs { tag: "t".into(), path: "/p".into() }];
    vm.config.vsock_ports = vec![bux::VsockPort { port: 7, path: "/s".into(), listen: true }];
    let copy = vm.copy();
    assert_eq!(copy.id, vm.id);
    assert_eq!(copy.name, vm.name);
    assert_eq!(copy.socket, vm.socket);
    assert_eq!(copy.created_at, vm.created_at);
    assert_eq!(copy.config.env, vm.config.env);
    assert_eq!(copy.config.ports, vm.config.ports);
    assert_eq!(copy.config.exec_path, vm.config.exec_path);
    assert_eq!(copy.config.virtiofs[0].tag, "t");
    assert_eq!(copy.config.virtiofs[0].path, "/p");
    assert_eq!(copy.config.vsock_ports[0].port, 7);
    assert_eq!(copy.config.vsock_ports[0].path, "/s");
    assert!(copy.config.vsock_ports[0].listen);
}
