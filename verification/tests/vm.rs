use bux::sys::{check, check_count, check_fd, check_flag, KrunCall};
use bux::{DiskFormat, Error, Feature, KernelFormat, LogLevel, LogStyle, SyncMode, Vm, VmBuilder};

fn ops(calls: &[KrunCall]) -> Vec<&'static str> {
    calls.iter().map(|c| c.op()).collect()
}

#[test]
fn builder_records_every_setting() {
    let b = Vm::builder()
        .vcpus(4)
        .ram_mib(2048)
        .root("/rootfs")
        .exec("/bin/bash", &["--login"])
        .env(&["A=1", "B=2"])
        .workdir("/work")
        .port("8080:80")
        .port("2222:22")
        .virtiofs("vol0", "/share")
        .log_level(LogLevel::Debug)
        .uid(1000)
        .gid(1001)
        .rlimit("RLIMIT_NOFILE=1024:2048")
        .nested_virt(true)
        .snd_device(false)
        .console_output("/tmp/console.log")
        .vsock_port(1024, "/tmp/agent.sock", true);
    let c = b.to_config();
    assert_eq!((c.vcpus, c.ram_mib), (4, 2048));
    assert_eq!(c.rootfs.as_deref(), Some("/rootfs"));
    assert_eq!(c.exec_path.as_deref(), Some("/bin/bash"));
    assert_eq!(c.exec_args, vec!["--login"]);
    assert_eq!(c.env, Some(vec!["A=1".to_string(), "B=2".to_string()]));
    assert_eq!(c.workdir.as_deref(), Some("/work"));
    assert_eq!(c.ports, vec!["8080:80", "2222:22"]);
    assert_eq!((c.virtiofs[0].tag.as_str(), c.virtiofs[0].path.as_str()), ("vol0", "/share"));
    assert_eq!((c.uid, c.gid), (Some(1000), Some(1001)));
    assert_eq!(c.rlimits, vec!["RLIMIT_NOFILE=1024:2048"]);
    assert_eq!((c.nested_virt, c.snd_device), (Some(true), Some(false)));
    assert_eq!(c.console_output.as_deref(), Some("/tmp/console.log"));
    assert!(!c.auto_remove);
    assert_eq!(c.vsock_ports.len(), 1);

    let plan = b.build();
    assert!(plan.error.is_none());
    assert_eq!(
        ops(&plan.calls),
        vec![
            "set_log_level",
            "set_vm_config",
            "set_root",
            "add_virtiofs",
            "set_port_map",
            "set_workdir",
            "set_exec",
            "setuid",
            "setgid",
            "set_rlimits",
            "set_nested_virt",
            "set_snd_device",
            "set_console_output",
            "add_vsock_port2",
        ]
    );
    assert!(matches!(&plan.calls[0], KrunCall::SetLogLevel { level: 4 }));
    assert!(matches!(&plan.calls[1], KrunCall::SetVmConfig { vcpus: 4, ram_mib: 2048 }));
    assert!(matches!(&plan.calls[6], KrunCall::SetExec { path, args, env }
        if path == "/bin/bash" && args == &vec!["--login".to_string()]
            && env == &Some(vec!["A=1".to_string(), "B=2".to_string()])));
    assert!(matches!(&plan.calls[13], KrunCall::AddVsockPort2 { port: 1024, path, listen: true }
        if path == "/tmp/agent.sock"));

    // The shim gets the same settings back from the configuration.
    let again = VmBuilder::from_config(&c).build();
    assert_eq!(ops(&again.calls), ops(&plan.calls)[1..].to_vec());
}

#[test]
fn default_builder_sets_only_the_machine() {
    let plan = Vm::builder().build();
    assert!(plan.error.is_none());
    assert_eq!(plan.calls.len(), 1);
    assert!(matches!(&plan.calls[0], KrunCall::SetVmConfig { vcpus: 1, ram_mib: 512 }));
    let env_only = Vm::builder().env(&["A=1"]).build();
    assert_eq!(ops(&env_only.calls), vec!["set_vm_config", "set_env"]);
}

#[test]
fn build_stops_at_a_nul() {
    let plan = Vm::builder().root("/root\0fs").workdir("/w").build();
    assert!(matches!(plan.error, Some(Error::Nul)));
    assert_eq!(ops(&plan.calls), vec!["set_vm_config"]);
    let plan = Vm::builder().log_level(LogLevel::Warn).root("/r").exec("/bin/sh", &["a\0b"]).uid(1).build();
    assert!(matches!(plan.error, Some(Error::Nul)));
    assert_eq!(ops(&plan.calls), vec!["set_log_level", "set_vm_config", "set_root"]);
}

#[test]
fn log_levels() {
    assert_eq!(LogLevel::from_str("off"), Ok(LogLevel::Off));
    assert_eq!(LogLevel::from_str("ERROR"), Ok(LogLevel::Error));
    assert_eq!(LogLevel::from_str("Warn"), Ok(LogLevel::Warn));
    assert_eq!(LogLevel::from_str("info"), Ok(LogLevel::Info));
    assert_eq!(LogLevel::from_str("debug"), Ok(LogLevel::Debug));
    assert_eq!(LogLevel::from_str("tRaCe"), Ok(LogLevel::Trace));
    assert_eq!(LogLevel::from_str("loud"), Err("unknown log level: loud".to_string()));
    assert_eq!(LogLevel::default(), LogLevel::Info);
    let all = [LogLevel::Off, LogLevel::Error, LogLevel::Warn, LogLevel::Info, LogLevel::Debug, LogLevel::Trace];
    for (i, l) in all.iter().enumerate() {
        assert_eq!(l.code(), i as u32);
        assert_eq!(LogLevel::from_str(l.name()), Ok(*l));
    }
}

#[test]
fn codes_of_the_hypervisor() {
    assert_eq!((DiskFormat::Raw.code(), DiskFormat::Qcow2.code(), DiskFormat::Vmdk.code()), (0, 1, 2));
    assert_eq!((SyncMode::Unsynced.code(), SyncMode::Relaxed.code(), SyncMode::Full.code()), (0, 1, 2));
    assert_eq!((LogStyle::Auto.code(), LogStyle::Always.code(), LogStyle::Never.code()), (0, 1, 2));
    assert_eq!(KernelFormat::Raw.code(), 0);
    assert_eq!(KernelFormat::ImageZstd.code(), 5);
    assert_eq!(Feature::Net.code(), 0);
    assert_eq!(Feature::VirglResourceMap2.code(), 10);
}

#[test]
fn return_codes_are_read() {
    assert!(check("set_root", 0).is_ok());
    assert!(check("set_root", 7).is_ok());
    assert!(matches!(check("set_root", -22), Err(Error::Krun { op: "set_root", code: -22 })));
    assert_eq!(check_count("create_ctx", 3).unwrap(), 3);
    assert!(matches!(check_count("create_ctx", -1), Err(Error::Krun { op: "create_ctx", code: -1 })));
    assert_eq!(check_flag("has_feature", 1).unwrap(), true);
    assert_eq!(check_flag("has_feature", 0).unwrap(), false);
    assert_eq!(check_flag("has_feature", 2).unwrap(), false);
    assert!(check_flag("has_feature", -1).is_err());
    assert_eq!(check_fd("get_shutdown_eventfd", 5).unwrap(), 5);
    assert!(check_fd("get_shutdown_eventfd", -9).is_err());
}

#[test]
fn vm_calls_carry_their_arguments() {
    let vm = Vm::new(3);
    assert_eq!(vm.ctx(), 3);
    assert!(matches!(vm.free(), KrunCall::FreeCtx));
    assert!(matches!(vm.start(), KrunCall::StartEnter));
    assert!(matches!(Vm::max_vcpus(), KrunCall::GetMaxVcpus));
    assert!(matches!(Vm::has_feature(Feature::Gpu), KrunCall::HasFeature { feature: Feature::Gpu }));
    assert!(matches!(Vm::check_nested_virt(), KrunCall::CheckNestedVirt));
    assert!(matches!(
        vm.add_disk3("root", "/d.qcow2", DiskFormat::Qcow2, false, true, SyncMode::Full),
        Ok(KrunCall::AddDisk3 { block_id, disk_path, format: DiskFormat::Qcow2, read_only: false, direct_io: true, sync: SyncMode::Full })
            if block_id == "root" && disk_path == "/d.qcow2"
    ));
    assert!(matches!(vm.add_disk("a\0", "/d", true), Err(Error::Nul)));
    assert!(matches!(vm.add_disk2("a", "/d\0", DiskFormat::Raw, true), Err(Error::Nul)));
    assert!(matches!(
        vm.set_root_disk_remount("/dev/vda", Some("ext4"), None),
        Ok(KrunCall::SetRootDiskRemount { device, fstype: Some(f), options: None }) if device == "/dev/vda" && f == "ext4"
    ));
    assert!(matches!(vm.set_root_disk_remount("/dev/vda", Some("e\0"), None), Err(Error::Nul)));
    assert!(matches!(
        vm.add_net_unixstream(None, 5, &[1, 2, 3, 4, 5, 6], 7, 8),
        Ok(KrunCall::AddNetUnixstream { path: None, fd: 5, mac: [1, 2, 3, 4, 5, 6], features: 7, flags: 8 })
    ));
    assert!(matches!(vm.add_net_tap("tap\0", &[0; 6], 0, 0), Err(Error::Nul)));
    assert!(matches!(vm.add_display(640, 480), KrunCall::AddDisplay { width: 640, height: 480 }));
    assert!(matches!(vm.display_set_edid(1, &[9, 8]), KrunCall::DisplaySetEdid { display_id: 1, edid } if edid == vec![9, 8]));
    assert!(matches!(
        vm.set_kernel("/k", KernelFormat::Elf, None, Some("console=hvc0")),
        Ok(KrunCall::SetKernel { kernel_path, format: KernelFormat::Elf, initramfs: None, cmdline: Some(c) })
            if kernel_path == "/k" && c == "console=hvc0"
    ));
    let strings = vec!["a".to_string(), "b\0".to_string()];
    assert!(matches!(vm.set_smbios_oem_strings(&strings), Err(Error::Nul)));
    assert!(matches!(vm.set_smbios_oem_strings(&strings[..1]), Ok(KrunCall::SetSmbiosOemStrings { strings }) if strings == vec!["a".to_string()]));
    assert!(matches!(vm.init_log(-1, 3, LogStyle::Never, 1), KrunCall::InitLog { target_fd: -1, level: 3, style: LogStyle::Never, options: 1 }));
    assert!(matches!(vm.split_irqchip(true), KrunCall::SplitIrqchip { enable: true }));
    assert!(matches!(vm.get_shutdown_eventfd(), KrunCall::GetShutdownEventfd));
    assert_eq!(vm.add_vsock(1).op(), "add_vsock");
    assert!(vm.add_console_port_tty(1, "tty\0", 2).is_err());
    assert!(!vm.add_vsock_port(1, "/s").unwrap().has_nul());
}
