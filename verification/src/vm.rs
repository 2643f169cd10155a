//! Building a VM.
//!
//! A [`VmBuilder`] collects the settings of a VM. [`VmBuilder::build`] turns
//! them into the calls that set the VM up in a configuration context of the
//! hypervisor, in the order in which they are to be made; a [`Vm`] stands for
//! such a context and names the calls that can still be made on it.

use vstd::prelude::*;
use vstd::string::*;
use crate::error::{Error, ErrorView};
use crate::state::{
    clone_virtiofs, clone_vsock_ports, virtiofs_views, vsock_views, VirtioFs, VirtioFsView,
    VmConfig, VmConfigView, VsockPort, VsockPortView,
};
use crate::sys;
use crate::sys::{
    opt_list_view, opt_str_view, spec_any_nul, spec_has_nul, spec_opt_any_nul, spec_opt_has_nul,
    DiskFormat, Feature, KernelFormat, KrunCall, KrunCallView, LogStyle, SyncMode,
};
use crate::text::{
    clone_opt_string, clone_opt_strings, clone_strings, concat2, opt_string_view,
    opt_strings_view, spec_to_ascii_lowercase, str_eq, strings_view, to_ascii_lowercase,
};

verus! {

/// How much the hypervisor logs.
#[derive(Debug, Clone, Copy, PartialEq, Eq, Structural)]
pub enum LogLevel {
    /// Nothing.
    Off,
    /// Errors.
    Error,
    /// Errors and warnings.
    Warn,
    /// Errors, warnings and information.
    Info,
    /// All of these and debug output.
    Debug,
    /// Everything.
    Trace,
}

impl LogLevel {
    /// The number that the hypervisor knows the level by.
    pub open spec fn spec_code(self) -> u32 {
        match self {
            LogLevel::Off => 0,
            LogLevel::Error => 1,
            LogLevel::Warn => 2,
            LogLevel::Info => 3,
            LogLevel::Debug => 4,
            LogLevel::Trace => 5,
        }
    }

    /// The name of the level.
    pub open spec fn spec_name(self) -> Seq<char> {
        match self {
            LogLevel::Off => "off"@,
            LogLevel::Error => "error"@,
            LogLevel::Warn => "warn"@,
            LogLevel::Info => "info"@,
            LogLevel::Debug => "debug"@,
            LogLevel::Trace => "trace"@,
        }
    }

    /// The level that a name stands for, whatever the case of its letters.
    pub open spec fn spec_from_str(s: Seq<char>) -> Option<LogLevel> {
        let lower = spec_to_ascii_lowercase(s);
        if lower == "off"@ {
            Some(LogLevel::Off)
        } else if lower == "error"@ {
            Some(LogLevel::Error)
        } else if lower == "warn"@ {
            Some(LogLevel::Warn)
        } else if lower == "info"@ {
            Some(LogLevel::Info)
        } else if lower == "debug"@ {
            Some(LogLevel::Debug)
        } else if lower == "trace"@ {
            Some(LogLevel::Trace)
        } else {
            None
        }
    }

    /// The number that the hypervisor knows the level by.
    pub fn code(self) -> (r: u32)
        ensures
            r == self.spec_code(),
    {
        match self {
            LogLevel::Off => 0,
            LogLevel::Error => 1,
            LogLevel::Warn => 2,
            LogLevel::Info => 3,
            LogLevel::Debug => 4,
            LogLevel::Trace => 5,
        }
    }

    /// The name of the level.
    pub fn name(self) -> (r: &'static str)
        ensures
            r@ == self.spec_name(),
    {
        match self {
            LogLevel::Off => "off",
            LogLevel::Error => "error",
            LogLevel::Warn => "warn",
            LogLevel::Info => "info",
            LogLevel::Debug => "debug",
            LogLevel::Trace => "trace",
        }
    }

    /// Reads the name of a level, whatever the case of its letters. Another
    /// word is refused with a message that quotes it.
    pub fn from_str(s: &str) -> (r: Result<LogLevel, String>)
        ensures
            match Self::spec_from_str(s@) {
                Some(level) => r == Ok::<LogLevel, String>(level),
                None => r is Err && r->Err_0@ == "unknown log level: "@ + s@,
            },
    {
        let lower = to_ascii_lowercase(s);
        let l = lower.as_str();
        if str_eq(l, "off") {
            Ok(LogLevel::Off)
        } else if str_eq(l, "error") {
            Ok(LogLevel::Error)
        } else if str_eq(l, "warn") {
            Ok(LogLevel::Warn)
        } else if str_eq(l, "info") {
            Ok(LogLevel::Info)
        } else if str_eq(l, "debug") {
            Ok(LogLevel::Debug)
        } else if str_eq(l, "trace") {
            Ok(LogLevel::Trace)
        } else {
            Err(concat2("unknown log level: ", s))
        }
    }
}

impl Default for LogLevel {
    fn default() -> (r: Self)
        ensures
            r == LogLevel::Info,
    {
        LogLevel::Info
    }
}

/// The settings of a VM, collected one by one.
#[derive(Debug)]
#[must_use]
pub struct VmBuilder {
    vcpus: u8,
    ram_mib: u32,
    root: Option<String>,
    root_disk: Option<String>,
    base_disk: Option<String>,
    disk_format: String,
    exec_path: Option<String>,
    exec_args: Vec<String>,
    env: Option<Vec<String>>,
    workdir: Option<String>,
    ports: Vec<String>,
    virtiofs: Vec<VirtioFs>,
    log_level: Option<LogLevel>,
    uid: Option<u32>,
    gid: Option<u32>,
    rlimits: Vec<String>,
    nested_virt: Option<bool>,
    snd_device: Option<bool>,
    console_output: Option<String>,
    vsock_ports: Vec<VsockPort>,
}

/// The settings as plain data.
pub struct VmBuilderView {
    /// Number of virtual CPUs.
    pub vcpus: u8,
    /// Memory in MiB.
    pub ram_mib: u32,
    /// Directory that holds the root filesystem.
    pub root: Option<Seq<char>>,
    /// Disk image that holds the root filesystem.
    pub root_disk: Option<Seq<char>>,
    /// Base image over which the VM gets an overlay of its own.
    pub base_disk: Option<Seq<char>>,
    /// Format of the root disk.
    pub disk_format: Seq<char>,
    /// Executable inside the VM.
    pub exec_path: Option<Seq<char>>,
    /// Arguments of the executable.
    pub exec_args: Seq<Seq<char>>,
    /// Environment; without one the VM inherits that of the host.
    pub env: Option<Seq<Seq<char>>>,
    /// Working directory inside the VM.
    pub workdir: Option<Seq<char>>,
    /// TCP port mappings.
    pub ports: Seq<Seq<char>>,
    /// Shared directories.
    pub virtiofs: Seq<VirtioFsView>,
    /// Log level of the hypervisor.
    pub log_level: Option<LogLevel>,
    /// User id of the VM process.
    pub uid: Option<u32>,
    /// Group id of the VM process.
    pub gid: Option<u32>,
    /// Resource limits.
    pub rlimits: Seq<Seq<char>>,
    /// Whether nested virtualisation is switched on or off.
    pub nested_virt: Option<bool>,
    /// Whether the sound device is switched on or off.
    pub snd_device: Option<bool>,
    /// File that receives the console output.
    pub console_output: Option<Seq<char>>,
    /// Guest ports tied to host sockets.
    pub vsock_ports: Seq<VsockPortView>,
}

impl View for VmBuilder {
    type V = VmBuilderView;

    closed spec fn view(&self) -> VmBuilderView {
        VmBuilderView {
            vcpus: self.vcpus,
            ram_mib: self.ram_mib,
            root: opt_string_view(self.root),
            root_disk: opt_string_view(self.root_disk),
            base_disk: opt_string_view(self.base_disk),
            disk_format: self.disk_format@,
            exec_path: opt_string_view(self.exec_path),
            exec_args: strings_view(self.exec_args@),
            env: opt_strings_view(self.env),
            workdir: opt_string_view(self.workdir),
            ports: strings_view(self.ports@),
            virtiofs: virtiofs_views(self.virtiofs@),
            log_level: self.log_level,
            uid: self.uid,
            gid: self.gid,
            rlimits: strings_view(self.rlimits@),
            nested_virt: self.nested_virt,
            snd_device: self.snd_device,
            console_output: opt_string_view(self.console_output),
            vsock_ports: vsock_views(self.vsock_ports@),
        }
    }
}

/// The strings of a list of string slices.
pub open spec fn strs_view(v: Seq<&str>) -> Seq<Seq<char>> {
    Seq::new(v.len(), |i: int| v[i]@)
}

fn strs_to_vec(v: &[&str]) -> (r: Vec<String>)
    ensures
        strings_view(r@) == strs_view(v@),
{
    let mut out: Vec<String> = Vec::new();
    let mut i: usize = 0;
    while i < v.len()
        invariant
            i <= v@.len(),
            out@.len() == i,
            forall|k: int| 0 <= k < i ==> (#[trigger] out@[k])@ == v@[k]@,
        decreases v@.len() - i,
    {
        out.push(String::from_str(v[i]));
        i += 1;
    }
    assert(strings_view(out@) =~= strs_view(v@));
    out
}

impl VmBuilderView {
    /// The settings of a new builder: one CPU, 512 MiB of memory, nothing
    /// else.
    pub open spec fn initial() -> VmBuilderView {
        VmBuilderView {
            vcpus: 1,
            ram_mib: 512,
            root: None,
            root_disk: None,
            base_disk: None,
            disk_format: Seq::empty(),
            exec_path: None,
            exec_args: Seq::empty(),
            env: None,
            workdir: None,
            ports: Seq::empty(),
            virtiofs: Seq::empty(),
            log_level: None,
            uid: None,
            gid: None,
            rlimits: Seq::empty(),
            nested_virt: None,
            snd_device: None,
            console_output: None,
            vsock_ports: Seq::empty(),
        }
    }

    /// The configuration that records these settings. It is not removed
    /// automatically.
    pub open spec fn to_config(self) -> VmConfigView {
        VmConfigView {
            vcpus: self.vcpus,
            ram_mib: self.ram_mib,
            rootfs: self.root,
            root_disk: self.root_disk,
            base_disk: self.base_disk,
            disk_format: self.disk_format,
            exec_path: self.exec_path,
            exec_args: self.exec_args,
            env: self.env,
            workdir: self.workdir,
            ports: self.ports,
            virtiofs: self.virtiofs,
            uid: self.uid,
            gid: self.gid,
            rlimits: self.rlimits,
            nested_virt: self.nested_virt,
            snd_device: self.snd_device,
            console_output: self.console_output,
            auto_remove: false,
            vsock_ports: self.vsock_ports,
        }
    }

    /// The settings that a configuration records. The log level is not among
    /// them.
    pub open spec fn from_config(c: VmConfigView) -> VmBuilderView {
        VmBuilderView {
            vcpus: c.vcpus,
            ram_mib: c.ram_mib,
            root: c.rootfs,
            root_disk: c.root_disk,
            base_disk: c.base_disk,
            disk_format: c.disk_format,
            exec_path: c.exec_path,
            exec_args: c.exec_args,
            env: c.env,
            workdir: c.workdir,
            ports: c.ports,
            virtiofs: c.virtiofs,
            log_level: None,
            uid: c.uid,
            gid: c.gid,
            rlimits: c.rlimits,
            nested_virt: c.nested_virt,
            snd_device: c.snd_device,
            console_output: c.console_output,
            vsock_ports: c.vsock_ports,
        }
    }

    /// The call that sets the log level, if one is set.
    pub open spec fn calls_log(self) -> Seq<KrunCallView> {
        match self.log_level {
            Some(level) => seq![KrunCallView::SetLogLevel { level: level.spec_code() }],
            None => Seq::empty(),
        }
    }

    /// The call that sets CPUs and memory.
    pub open spec fn calls_machine(self) -> Seq<KrunCallView> {
        seq![KrunCallView::SetVmConfig { vcpus: self.vcpus, ram_mib: self.ram_mib }]
    }

    /// The call that sets the root directory, if one is set.
    pub open spec fn calls_root(self) -> Seq<KrunCallView> {
        match self.root {
            Some(path) => seq![KrunCallView::SetRoot { path }],
            None => Seq::empty(),
        }
    }

    /// One call for each shared directory.
    pub open spec fn calls_virtiofs(self) -> Seq<KrunCallView> {
        Seq::new(
            self.virtiofs.len(),
            |i: int|
                KrunCallView::AddVirtiofs {
                    tag: self.virtiofs[i].tag,
                    host_path: self.virtiofs[i].path,
                },
        )
    }

    /// The call that sets the port mappings, if there are any.
    pub open spec fn calls_ports(self) -> Seq<KrunCallView> {
        if self.ports.len() > 0 {
            seq![KrunCallView::SetPortMap { ports: self.ports }]
        } else {
            Seq::empty()
        }
    }

    /// The call that sets the working directory, if one is set.
    pub open spec fn calls_workdir(self) -> Seq<KrunCallView> {
        match self.workdir {
            Some(path) => seq![KrunCallView::SetWorkdir { path }],
            None => Seq::empty(),
        }
    }

    /// The call that sets the executable with its arguments and environment;
    /// without an executable, the call that sets the environment, if one is
    /// set.
    pub open spec fn calls_exec(self) -> Seq<KrunCallView> {
        match self.exec_path {
            Some(path) => seq![KrunCallView::SetExec { path, args: self.exec_args, env: self.env }],
            None => match self.env {
                Some(env) => seq![KrunCallView::SetEnv { env }],
                None => Seq::empty(),
            },
        }
    }

    /// The call that sets the user id, if one is set.
    pub open spec fn calls_uid(self) -> Seq<KrunCallView> {
        match self.uid {
            Some(uid) => seq![KrunCallView::Setuid { uid }],
            None => Seq::empty(),
        }
    }

    /// The call that sets the group id, if one is set.
    pub open spec fn calls_gid(self) -> Seq<KrunCallView> {
        match self.gid {
            Some(gid) => seq![KrunCallView::Setgid { gid }],
            None => Seq::empty(),
        }
    }

    /// The call that sets the resource limits, if there are any.
    pub open spec fn calls_rlimits(self) -> Seq<KrunCallView> {
        if self.rlimits.len() > 0 {
            seq![KrunCallView::SetRlimits { rlimits: self.rlimits }]
        } else {
            Seq::empty()
        }
    }

    /// The call that switches nested virtualisation, if that is set.
    pub open spec fn calls_nested(self) -> Seq<KrunCallView> {
        match self.nested_virt {
            Some(enable) => seq![KrunCallView::SetNestedVirt { enable }],
            None => Seq::empty(),
        }
    }

    /// The call that switches the sound device, if that is set.
    pub open spec fn calls_snd(self) -> Seq<KrunCallView> {
        match self.snd_device {
            Some(enable) => seq![KrunCallView::SetSndDevice { enable }],
            None => Seq::empty(),
        }
    }

    /// The call that redirects the console, if that is set.
    pub open spec fn calls_console(self) -> Seq<KrunCallView> {
        match self.console_output {
            Some(path) => seq![KrunCallView::SetConsoleOutput { path }],
            None => Seq::empty(),
        }
    }

    /// One call for each vsock port.
    pub open spec fn calls_vsock(self) -> Seq<KrunCallView> {
        Seq::new(
            self.vsock_ports.len(),
            |i: int|
                KrunCallView::AddVsockPort2 {
                    port: self.vsock_ports[i].port,
                    path: self.vsock_ports[i].path,
                    listen: self.vsock_ports[i].listen,
                },
        )
    }

    /// The calls that set user, group and resource limits.
    pub open spec fn calls_identity(self) -> Seq<KrunCallView> {
        self.calls_uid() + self.calls_gid() + self.calls_rlimits()
    }

    /// The calls that set nested virtualisation, sound and console.
    pub open spec fn calls_devices(self) -> Seq<KrunCallView> {
        self.calls_nested() + self.calls_snd() + self.calls_console()
    }

    /// What follows the port mappings.
    pub open spec fn calls_after_ports(self) -> Seq<KrunCallView> {
        self.calls_workdir() + self.calls_exec() + self.calls_identity() + self.calls_devices()
            + self.calls_vsock()
    }

    /// All calls that set the VM up, in the order in which they are made:
    /// log level, CPUs and memory, root directory, shared directories, port
    /// mappings, working directory, executable or environment, user, group,
    /// resource limits, nested virtualisation, sound, console, vsock ports.
    pub open spec fn build_calls(self) -> Seq<KrunCallView> {
        self.calls_log() + self.calls_machine() + self.calls_root() + self.calls_virtiofs()
            + self.calls_ports() + self.calls_after_ports()
    }
}

/// Index of the first call at or behind `from` that cannot be made; the
/// number of calls where all can.
pub open spec fn spec_first_refused(calls: Seq<KrunCallView>, from: int) -> int
    decreases calls.len() - from,
{
    if from >= calls.len() {
        calls.len() as int
    } else if from >= 0 && calls[from].has_nul() {
        from
    } else {
        spec_first_refused(calls, from + 1)
    }
}

/// The calls as plain data.
pub open spec fn calls_views(calls: Seq<KrunCall>) -> Seq<KrunCallView> {
    Seq::new(calls.len(), |i: int| calls[i]@)
}

/// What [`VmBuilder::build`] hands out: the calls to make, in order, and the
/// error to report once they are made, if the settings cannot all be
/// applied.
#[derive(Debug)]
pub struct BuildPlan {
    /// The calls to make, in order.
    pub calls: Vec<KrunCall>,
    /// The error that ends the set-up behind these calls.
    pub error: Option<Error>,
}

fn extend_calls(calls: &mut Vec<KrunCall>, piece: Vec<KrunCall>)
    ensures
        calls_views(final(calls)@) == calls_views(old(calls)@) + calls_views(piece@),
{
    let mut piece = piece;
    let ghost added = piece@;
    calls.append(&mut piece);
    assert(calls_views(calls@) =~= calls_views(old(calls)@) + calls_views(added));
}

impl VmBuilder {
    /// Sets the number of virtual CPUs.
    pub fn vcpus(self, n: u8) -> (r: Self)
        ensures
            r@ == (VmBuilderView { vcpus: n, ..self@ }),
    {
        let mut r = self;
        r.vcpus = n;
        r
    }

    /// Sets the memory in MiB.
    pub fn ram_mib(self, mib: u32) -> (r: Self)
        ensures
            r@ == (VmBuilderView { ram_mib: mib, ..self@ }),
    {
        let mut r = self;
        r.ram_mib = mib;
        r
    }

    /// Sets the directory that holds the root filesystem.
    pub fn root(self, path: &str) -> (r: Self)
        ensures
            r@ == (VmBuilderView { root: Some(path@), ..self@ }),
    {
        let mut r = self;
        r.root = Some(String::from_str(path));
        r
    }

    /// Sets the disk image that holds the root filesystem.
    pub fn root_disk(self, path: &str) -> (r: Self)
        ensures
            r@ == (VmBuilderView { root_disk: Some(path@), ..self@ }),
    {
        let mut r = self;
        r.root_disk = Some(String::from_str(path));
        r
    }

    /// Sets the base image over which the VM gets an overlay of its own.
    pub fn base_disk(self, path: &str) -> (r: Self)
        ensures
            r@ == (VmBuilderView { base_disk: Some(path@), ..self@ }),
    {
        let mut r = self;
        r.base_disk = Some(String::from_str(path));
        r
    }

    /// Sets the executable and its arguments, which do not hold the program
    /// name.
    pub fn exec(self, path: &str, args: &[&str]) -> (r: Self)
        ensures
            r@ == (VmBuilderView { exec_path: Some(path@), exec_args: strs_view(args@), ..self@ }),
    {
        let mut r = self;
        r.exec_path = Some(String::from_str(path));
        r.exec_args = strs_to_vec(args);
        r
    }

    /// Sets the environment, each entry `KEY=VALUE`. Without this the VM
    /// inherits the environment of the host.
    pub fn env(self, vars: &[&str]) -> (r: Self)
        ensures
            r@ == (VmBuilderView { env: Some(strs_view(vars@)), ..self@ }),
    {
        let mut r = self;
        r.env = Some(strs_to_vec(vars));
        r
    }

    /// Sets the working directory inside the VM.
    pub fn workdir(self, path: &str) -> (r: Self)
        ensures
            r@ == (VmBuilderView { workdir: Some(path@), ..self@ }),
    {
        let mut r = self;
        r.workdir = Some(String::from_str(path));
        r
    }

    /// Adds a TCP port mapping, `host:guest`.
    pub fn port(self, mapping: &str) -> (r: Self)
        ensures
            r@ == (VmBuilderView { ports: self@.ports.push(mapping@), ..self@ }),
    {
        let mut r = self;
        r.ports.push(String::from_str(mapping));
        assert(strings_view(r.ports@) =~= strings_view(self.ports@).push(mapping@));
        r
    }

    /// Adds a shared directory: the tag under which the guest mounts it, and
    /// its path on the host.
    pub fn virtiofs(self, tag: &str, host_path: &str) -> (r: Self)
        ensures
            r@ == (VmBuilderView {
                virtiofs: self@.virtiofs.push(VirtioFsView { tag: tag@, path: host_path@ }),
                ..self@
            }),
    {
        let mut r = self;
        r.virtiofs.push(
            VirtioFs { tag: String::from_str(tag), path: String::from_str(host_path) },
        );
        assert(virtiofs_views(r.virtiofs@) =~= virtiofs_views(self.virtiofs@).push(
            VirtioFsView { tag: tag@, path: host_path@ },
        ));
        r
    }

    /// Sets the log level of the hypervisor, which holds for the whole
    /// process.
    pub fn log_level(self, level: LogLevel) -> (r: Self)
        ensures
            r@ == (VmBuilderView { log_level: Some(level), ..self@ }),
    {
        let mut r = self;
        r.log_level = Some(level);
        r
    }

    /// Sets the user id of the VM process.
    pub fn uid(self, uid: u32) -> (r: Self)
        ensures
            r@ == (VmBuilderView { uid: Some(uid), ..self@ }),
    {
        let mut r = self;
        r.uid = Some(uid);
        r
    }

    /// Sets the group id of the VM process.
    pub fn gid(self, gid: u32) -> (r: Self)
        ensures
            r@ == (VmBuilderView { gid: Some(gid), ..self@ }),
    {
        let mut r = self;
        r.gid = Some(gid);
        r
    }

    /// Adds a resource limit, `RESOURCE=CUR:MAX`.
    pub fn rlimit(self, rlimit: &str) -> (r: Self)
        ensures
            r@ == (VmBuilderView { rlimits: self@.rlimits.push(rlimit@), ..self@ }),
    {
        let mut r = self;
        r.rlimits.push(String::from_str(rlimit));
        assert(strings_view(r.rlimits@) =~= strings_view(self.rlimits@).push(rlimit@));
        r
    }

    /// Switches nested virtualisation on or off.
    pub fn nested_virt(self, enable: bool) -> (r: Self)
        ensures
            r@ == (VmBuilderView { nested_virt: Some(enable), ..self@ }),
    {
        let mut r = self;
        r.nested_virt = Some(enable);
        r
    }

    /// Switches the sound device on or off.
    pub fn snd_device(self, enable: bool) -> (r: Self)
        ensures
            r@ == (VmBuilderView { snd_device: Some(enable), ..self@ }),
    {
        let mut r = self;
        r.snd_device = Some(enable);
        r
    }

    /// Sends the console output to a file.
    pub fn console_output(self, path: &str) -> (r: Self)
        ensures
            r@ == (VmBuilderView { console_output: Some(path@), ..self@ }),
    {
        let mut r = self;
        r.console_output = Some(String::from_str(path));
        r
    }

    /// Ties a vsock port of the guest to a Unix socket of the host. With
    /// `listen` the guest is the side that listens, and the host connects.
    pub fn vsock_port(self, port: u32, host_path: &str, listen: bool) -> (r: Self)
        ensures
            r@ == (VmBuilderView {
                vsock_ports: self@.vsock_ports.push(
                    VsockPortView { port, path: host_path@, listen },
                ),
                ..self@
            }),
    {
        let mut r = self;
        r.vsock_ports.push(VsockPort { port, path: String::from_str(host_path), listen });
        assert(vsock_views(r.vsock_ports@) =~= vsock_views(self.vsock_ports@).push(
            VsockPortView { port, path: host_path@, listen },
        ));
        r
    }

    /// The configuration that records the settings.
    pub fn to_config(&self) -> (r: VmConfig)
        ensures
            r@ == self@.to_config(),
    {
        VmConfig {
            vcpus: self.vcpus,
            ram_mib: self.ram_mib,
            rootfs: clone_opt_string(&self.root),
            root_disk: clone_opt_string(&self.root_disk),
            base_disk: clone_opt_string(&self.base_disk),
            disk_format: self.disk_format.clone(),
            exec_path: clone_opt_string(&self.exec_path),
            exec_args: clone_strings(&self.exec_args),
            env: clone_opt_strings(&self.env),
            workdir: clone_opt_string(&self.workdir),
            ports: clone_strings(&self.ports),
            virtiofs: clone_virtiofs(&self.virtiofs),
            uid: self.uid,
            gid: self.gid,
            rlimits: clone_strings(&self.rlimits),
            nested_virt: self.nested_virt,
            snd_device: self.snd_device,
            console_output: clone_opt_string(&self.console_output),
            auto_remove: false,
            vsock_ports: clone_vsock_ports(&self.vsock_ports),
        }
    }

    /// The builder with the settings that a configuration records.
    pub fn from_config(config: &VmConfig) -> (r: Self)
        ensures
            r@ == VmBuilderView::from_config(config@),
    {
        VmBuilder {
            vcpus: config.vcpus,
            ram_mib: config.ram_mib,
            root: clone_opt_string(&config.rootfs),
            root_disk: clone_opt_string(&config.root_disk),
            base_disk: clone_opt_string(&config.base_disk),
            disk_format: config.disk_format.clone(),
            exec_path: clone_opt_string(&config.exec_path),
            exec_args: clone_strings(&config.exec_args),
            env: clone_opt_strings(&config.env),
            workdir: clone_opt_string(&config.workdir),
            ports: clone_strings(&config.ports),
            virtiofs: clone_virtiofs(&config.virtiofs),
            log_level: None,
            uid: config.uid,
            gid: config.gid,
            rlimits: clone_strings(&config.rlimits),
            nested_virt: config.nested_virt,
            snd_device: config.snd_device,
            console_output: clone_opt_string(&config.console_output),
            vsock_ports: clone_vsock_ports(&config.vsock_ports),
        }
    }

    fn plan_log(&self) -> (r: Vec<KrunCall>)
        ensures
            calls_views(r@) == self@.calls_log(),
    {
        let mut calls: Vec<KrunCall> = Vec::new();
        if let Some(level) = self.log_level {
            calls.push(sys::set_log_level(level.code()));
        }
        assert(calls_views(calls@) =~= self@.calls_log());
        calls
    }

    fn plan_machine(&self) -> (r: Vec<KrunCall>)
        ensures
            calls_views(r@) == self@.calls_machine(),
    {
        let mut calls: Vec<KrunCall> = Vec::new();
        calls.push(sys::set_vm_config(self.vcpus, self.ram_mib));
        assert(calls_views(calls@) =~= self@.calls_machine());
        calls
    }

    fn plan_root(&self) -> (r: Vec<KrunCall>)
        ensures
            calls_views(r@) == self@.calls_root(),
    {
        let mut calls: Vec<KrunCall> = Vec::new();
        if let Some(root) = &self.root {
            calls.push(KrunCall::SetRoot { path: root.clone() });
        }
        assert(calls_views(calls@) =~= self@.calls_root());
        calls
    }

    fn plan_virtiofs(&self) -> (r: Vec<KrunCall>)
        ensures
            calls_views(r@) == self@.calls_virtiofs(),
    {
        let mut calls: Vec<KrunCall> = Vec::new();
        let mut i: usize = 0;
        while i < self.virtiofs.len()
            invariant
                i <= self.virtiofs@.len(),
                calls@.len() == i,
                forall|k: int| 0 <= k < i ==> (#[trigger] calls@[k])@ == self@.calls_virtiofs()[k],
            decreases self.virtiofs@.len() - i,
        {
            calls.push(
                KrunCall::AddVirtiofs {
                    tag: self.virtiofs[i].tag.clone(),
                    host_path: self.virtiofs[i].path.clone(),
                },
            );
            i += 1;
        }
        assert(calls_views(calls@) =~= self@.calls_virtiofs());
        calls
    }

    fn plan_ports(&self) -> (r: Vec<KrunCall>)
        ensures
            calls_views(r@) == self@.calls_ports(),
    {
        let mut calls: Vec<KrunCall> = Vec::new();
        if self.ports.len() > 0 {
            calls.push(KrunCall::SetPortMap { ports: clone_strings(&self.ports) });
        }
        assert(calls_views(calls@) =~= self@.calls_ports());
        calls
    }

    fn plan_workdir(&self) -> (r: Vec<KrunCall>)
        ensures
            calls_views(r@) == self@.calls_workdir(),
    {
        let mut calls: Vec<KrunCall> = Vec::new();
        if let Some(workdir) = &self.workdir {
            calls.push(KrunCall::SetWorkdir { path: workdir.clone() });
        }
        assert(calls_views(calls@) =~= self@.calls_workdir());
        calls
    }

    fn plan_exec(&self) -> (r: Vec<KrunCall>)
        ensures
            calls_views(r@) == self@.calls_exec(),
    {
        let mut calls: Vec<KrunCall> = Vec::new();
        match &self.exec_path {
            Some(path) => {
                calls.push(
                    KrunCall::SetExec {
                        path: path.clone(),
                        args: clone_strings(&self.exec_args),
                        env: clone_opt_strings(&self.env),
                    },
                );
            },
            None => match &self.env {
                Some(env) => {
                    calls.push(KrunCall::SetEnv { env: clone_strings(env) });
                },
                None => {},
            },
        }
        assert(calls_views(calls@) =~= self@.calls_exec());
        calls
    }

    fn plan_identity(&self) -> (r: Vec<KrunCall>)
        ensures
            calls_views(r@) == self@.calls_identity(),
    {
        let mut calls: Vec<KrunCall> = Vec::new();
        if let Some(uid) = self.uid {
            calls.push(sys::setuid(uid));
        }
        if let Some(gid) = self.gid {
            calls.push(sys::setgid(gid));
        }
        if self.rlimits.len() > 0 {
            calls.push(KrunCall::SetRlimits { rlimits: clone_strings(&self.rlimits) });
        }
        assert(calls_views(calls@) =~= self@.calls_uid() + self@.calls_gid()
            + self@.calls_rlimits());
        calls
    }

    fn plan_devices(&self) -> (r: Vec<KrunCall>)
        ensures
            calls_views(r@) == self@.calls_devices(),
    {
        let mut calls: Vec<KrunCall> = Vec::new();
        if let Some(enable) = self.nested_virt {
            calls.push(sys::set_nested_virt(enable));
        }
        if let Some(enable) = self.snd_device {
            calls.push(sys::set_snd_device(enable));
        }
        if let Some(path) = &self.console_output {
            calls.push(KrunCall::SetConsoleOutput { path: path.clone() });
        }
        assert(calls_views(calls@) =~= self@.calls_nested() + self@.calls_snd()
            + self@.calls_console());
        calls
    }

    fn plan_vsock(&self) -> (r: Vec<KrunCall>)
        ensures
            calls_views(r@) == self@.calls_vsock(),
    {
        let mut calls: Vec<KrunCall> = Vec::new();
        let mut i: usize = 0;
        while i < self.vsock_ports.len()
            invariant
                i <= self.vsock_ports@.len(),
                calls@.len() == i,
                forall|k: int| 0 <= k < i ==> (#[trigger] calls@[k])@ == self@.calls_vsock()[k],
            decreases self.vsock_ports@.len() - i,
        {
            calls.push(
                KrunCall::AddVsockPort2 {
                    port: self.vsock_ports[i].port,
                    path: self.vsock_ports[i].path.clone(),
                    listen: self.vsock_ports[i].listen,
                },
            );
            i += 1;
        }
        assert(calls_views(calls@) =~= self@.calls_vsock());
        calls
    }

    #[verifier::rlimit(40)]
    fn plan_all(&self) -> (r: Vec<KrunCall>)
        ensures
            calls_views(r@) == self@.build_calls(),
    {
        let mut calls = self.plan_log();
        extend_calls(&mut calls, self.plan_machine());
        extend_calls(&mut calls, self.plan_root());
        extend_calls(&mut calls, self.plan_virtiofs());
        extend_calls(&mut calls, self.plan_ports());
        let mut tail = self.plan_workdir();
        extend_calls(&mut tail, self.plan_exec());
        extend_calls(&mut tail, self.plan_identity());
        extend_calls(&mut tail, self.plan_devices());
        extend_calls(&mut tail, self.plan_vsock());
        extend_calls(&mut calls, tail);
        calls
    }

    /// Turns the settings into the calls that set the VM up, in the order of
    /// [`VmBuilderView::build_calls`]. A call that cannot be made, because one
    /// of its strings holds a NUL character, ends the plan: the calls before
    /// it are handed out together with the error.
    #[verifier::rlimit(40)]
    pub fn build(&self) -> (r: BuildPlan)
        ensures
            ({
                let all = self@.build_calls();
                let stop = spec_first_refused(all, 0);
                &&& calls_views(r.calls@) == all.take(stop)
                &&& stop < all.len() ==> r.error is Some && r.error->Some_0@ == ErrorView::Nul
                &&& stop == all.len() ==> r.error is None
            }),
    {
        let mut calls = self.plan_all();
        let ghost all = calls_views(calls@);
        let mut stop: usize = 0;
        while stop < calls.len() && !calls[stop].has_nul()
            invariant
                stop <= calls@.len(),
                all == calls_views(calls@),
                spec_first_refused(all, stop as int) == spec_first_refused(all, 0),
            decreases calls@.len() - stop,
        {
            stop += 1;
        }
        if stop < calls.len() {
            calls.truncate(stop);
            assert(calls_views(calls@) =~= all.take(stop as int));
            BuildPlan { calls, error: Some(Error::Nul) }
        } else {
            assert(all.take(stop as int) =~= all);
            BuildPlan { calls, error: None }
        }
    }
}

/// A configuration that was made from settings gives these settings back,
/// but for the log level.
pub proof fn lemma_config_roundtrip(b: VmBuilderView)
    ensures
        VmBuilderView::from_config(b.to_config()) == (VmBuilderView { log_level: None, ..b }),
{
}

/// A configuration context of the hypervisor, set up and ready to start.
#[derive(Debug)]
pub struct Vm {
    ctx: u32,
}

impl Vm {
    /// The id of the context.
    pub closed spec fn spec_ctx(&self) -> u32 {
        self.ctx
    }

    /// The VM in the context `ctx`.
    pub fn new(ctx: u32) -> (r: Self)
        ensures
            r.spec_ctx() == ctx,
    {
        Vm { ctx }
    }

    /// The id of the context.
    pub fn ctx(&self) -> (r: u32)
        ensures
            r == self.spec_ctx(),
    {
        self.ctx
    }

    /// A builder with one CPU and 512 MiB of memory.
    pub fn builder() -> (r: VmBuilder)
        ensures
            r@ == VmBuilderView::initial(),
    {
        let r = VmBuilder {
            vcpus: 1,
            ram_mib: 512,
            root: None,
            root_disk: None,
            base_disk: None,
            disk_format: String::new(),
            exec_path: None,
            exec_args: Vec::new(),
            env: None,
            workdir: None,
            ports: Vec::new(),
            virtiofs: Vec::new(),
            log_level: None,
            uid: None,
            gid: None,
            rlimits: Vec::new(),
            nested_virt: None,
            snd_device: None,
            console_output: None,
            vsock_ports: Vec::new(),
        };
        assert(r@.exec_args =~= Seq::empty());
        assert(r@.ports =~= Seq::empty());
        assert(r@.rlimits =~= Seq::empty());
        assert(r@.virtiofs =~= Seq::empty());
        assert(r@.vsock_ports =~= Seq::empty());
        r
    }

    /// The call that frees the context.
    pub fn free(&self) -> (r: KrunCall)
        ensures
            r@ == KrunCallView::FreeCtx,
    {
        sys::free_ctx()
    }

    /// Asks for the largest number of virtual CPUs.
    pub fn max_vcpus() -> (r: KrunCall)
        ensures
            r@ == (KrunCallView::GetMaxVcpus),
    {
        sys::get_max_vcpus()
    }

    /// Asks whether the hypervisor was built with a feature.
    pub fn has_feature(feature: Feature) -> (r: KrunCall)
        ensures
            r@ == (KrunCallView::HasFeature { feature: feature }),
    {
        sys::has_feature(feature)
    }

    /// Asks whether nested virtualisation is supported.
    pub fn check_nested_virt() -> (r: KrunCall)
        ensures
            r@ == (KrunCallView::CheckNestedVirt),
    {
        sys::check_nested_virt()
    }

    /// Adds a raw disk image. A string with a NUL character in it is refused.
    pub fn add_disk(&self, block_id: &str, disk_path: &str, read_only: bool) -> (r: Result<KrunCall, Error>)
        ensures
            (spec_has_nul(block_id@) || spec_has_nul(disk_path@)) ==> r is Err && r->Err_0@ == ErrorView::Nul,
            !(spec_has_nul(block_id@) || spec_has_nul(disk_path@)) ==> r is Ok && r->Ok_0@ == (KrunCallView::AddDisk { block_id: block_id@, disk_path: disk_path@, read_only: read_only }),
    {
        sys::add_disk(block_id, disk_path, read_only)
    }

    /// Adds a disk image of the given format. A string with a NUL character
    /// in it is refused.
    pub fn add_disk2(&self, block_id: &str, disk_path: &str, format: DiskFormat, read_only: bool) -> (r: Result<KrunCall, Error>)
        ensures
            (spec_has_nul(block_id@) || spec_has_nul(disk_path@)) ==> r is Err && r->Err_0@ == ErrorView::Nul,
            !(spec_has_nul(block_id@) || spec_has_nul(disk_path@)) ==> r is Ok && r->Ok_0@ == (KrunCallView::AddDisk2 { block_id: block_id@, disk_path: disk_path@, format: format, read_only: read_only }),
    {
        sys::add_disk2(block_id, disk_path, format, read_only)
    }

    /// Adds a disk image of the given format, with or without direct I/O, in
    /// the given sync mode. A string with a NUL character in it is refused.
    pub fn add_disk3(&self, block_id: &str, disk_path: &str, format: DiskFormat, read_only: bool, direct_io: bool, sync: SyncMode) -> (r: Result<KrunCall, Error>)
        ensures
            (spec_has_nul(block_id@) || spec_has_nul(disk_path@)) ==> r is Err && r->Err_0@ == ErrorView::Nul,
            !(spec_has_nul(block_id@) || spec_has_nul(disk_path@)) ==> r is Ok && r->Ok_0@ == (KrunCallView::AddDisk3 { block_id: block_id@, disk_path: disk_path@, format: format, read_only: read_only, direct_io: direct_io, sync: sync }),
    {
        sys::add_disk3(block_id, disk_path, format, read_only, direct_io, sync)
    }

    /// Makes a block device the root filesystem, mounted once the VM is up. A
    /// string with a NUL character in it is refused.
    pub fn set_root_disk_remount(&self, device: &str, fstype: Option<&str>, options: Option<&str>) -> (r: Result<KrunCall, Error>)
        ensures
            (spec_has_nul(device@) || spec_opt_has_nul(opt_str_view(fstype)) || spec_opt_has_nul(opt_str_view(options))) ==> r is Err && r->Err_0@ == ErrorView::Nul,
            !(spec_has_nul(device@) || spec_opt_has_nul(opt_str_view(fstype)) || spec_opt_has_nul(opt_str_view(options))) ==> r is Ok && r->Ok_0@ == (KrunCallView::SetRootDiskRemount { device: device@, fstype: opt_str_view(fstype), options: opt_str_view(options) }),
    {
        sys::set_root_disk_remount(device, fstype, options)
    }

    /// Adds a network device behind a Unix stream socket, given by path or by
    /// descriptor. A string with a NUL character in it is refused.
    pub fn add_net_unixstream(&self, path: Option<&str>, fd: i32, mac: &[u8; 6], features: u32, flags: u32) -> (r: Result<KrunCall, Error>)
        ensures
            (spec_opt_has_nul(opt_str_view(path))) ==> r is Err && r->Err_0@ == ErrorView::Nul,
            !(spec_opt_has_nul(opt_str_view(path))) ==> r is Ok && r->Ok_0@ == (KrunCallView::AddNetUnixstream { path: opt_str_view(path), fd: fd, mac: mac@, features: features, flags: flags }),
    {
        sys::add_net_unixstream(path, fd, mac, features, flags)
    }

    /// Adds a network device behind a Unix datagram socket, given by path or
    /// by descriptor. A string with a NUL character in it is refused.
    pub fn add_net_unixgram(&self, path: Option<&str>, fd: i32, mac: &[u8; 6], features: u32, flags: u32) -> (r: Result<KrunCall, Error>)
        ensures
            (spec_opt_has_nul(opt_str_view(path))) ==> r is Err && r->Err_0@ == ErrorView::Nul,
            !(spec_opt_has_nul(opt_str_view(path))) ==> r is Ok && r->Ok_0@ == (KrunCallView::AddNetUnixgram { path: opt_str_view(path), fd: fd, mac: mac@, features: features, flags: flags }),
    {
        sys::add_net_unixgram(path, fd, mac, features, flags)
    }

    /// Adds a network device behind a TAP device. A string with a NUL
    /// character in it is refused.
    pub fn add_net_tap(&self, tap_name: &str, mac: &[u8; 6], features: u32, flags: u32) -> (r: Result<KrunCall, Error>)
        ensures
            (spec_has_nul(tap_name@)) ==> r is Err && r->Err_0@ == ErrorView::Nul,
            !(spec_has_nul(tap_name@)) ==> r is Ok && r->Ok_0@ == (KrunCallView::AddNetTap { tap_name: tap_name@, mac: mac@, features: features, flags: flags }),
    {
        sys::add_net_tap(tap_name, mac, features, flags)
    }

    /// Sets the MAC address of the network device.
    pub fn set_net_mac(&self, mac: &[u8; 6]) -> (r: KrunCall)
        ensures
            r@ == (KrunCallView::SetNetMac { mac: mac@ }),
    {
        sys::set_net_mac(mac)
    }

    /// Ties a vsock port to a Unix socket of the host. A string with a NUL
    /// character in it is refused.
    pub fn add_vsock_port(&self, port: u32, path: &str) -> (r: Result<KrunCall, Error>)
        ensures
            (spec_has_nul(path@)) ==> r is Err && r->Err_0@ == ErrorView::Nul,
            !(spec_has_nul(path@)) ==> r is Ok && r->Ok_0@ == (KrunCallView::AddVsockPort { port: port, path: path@ }),
    {
        sys::add_vsock_port(port, path)
    }

    /// Ties a vsock port to a Unix socket of the host, and says whether the
    /// guest is the side that listens. A string with a NUL character in it is
    /// refused.
    pub fn add_vsock_port2(&self, port: u32, path: &str, listen: bool) -> (r: Result<KrunCall, Error>)
        ensures
            (spec_has_nul(path@)) ==> r is Err && r->Err_0@ == ErrorView::Nul,
            !(spec_has_nul(path@)) ==> r is Ok && r->Ok_0@ == (KrunCallView::AddVsockPort2 { port: port, path: path@, listen: listen }),
    {
        sys::add_vsock_port2(port, path, listen)
    }

    /// Adds a vsock device with the given TSI features.
    pub fn add_vsock(&self, tsi_features: u32) -> (r: KrunCall)
        ensures
            r@ == (KrunCallView::AddVsock { tsi_features: tsi_features }),
    {
        sys::add_vsock(tsi_features)
    }

    /// Switches the implicit vsock device off.
    pub fn disable_implicit_vsock(&self) -> (r: KrunCall)
        ensures
            r@ == (KrunCallView::DisableImplicitVsock),
    {
        sys::disable_implicit_vsock()
    }

    /// Switches the GPU on.
    pub fn set_gpu_options(&self, virgl_flags: u32) -> (r: KrunCall)
        ensures
            r@ == (KrunCallView::SetGpuOptions { virgl_flags: virgl_flags }),
    {
        sys::set_gpu_options(virgl_flags)
    }

    /// Switches the GPU on, with a shared memory window of the given size.
    pub fn set_gpu_options2(&self, virgl_flags: u32, shm_size: u64) -> (r: KrunCall)
        ensures
            r@ == (KrunCallView::SetGpuOptions2 { virgl_flags: virgl_flags, shm_size: shm_size }),
    {
        sys::set_gpu_options2(virgl_flags, shm_size)
    }

    /// Adds a display; the hypervisor answers with its id.
    pub fn add_display(&self, width: u32, height: u32) -> (r: KrunCall)
        ensures
            r@ == (KrunCallView::AddDisplay { width: width, height: height }),
    {
        sys::add_display(width, height)
    }

    /// Sets the EDID blob of a display.
    pub fn display_set_edid(&self, display_id: u32, edid: &[u8]) -> (r: KrunCall)
        ensures
            r@ == (KrunCallView::DisplaySetEdid { display_id: display_id, edid: edid@ }),
    {
        sys::display_set_edid(display_id, edid)
    }

    /// Sets the DPI of a display.
    pub fn display_set_dpi(&self, display_id: u32, dpi: u32) -> (r: KrunCall)
        ensures
            r@ == (KrunCallView::DisplaySetDpi { display_id: display_id, dpi: dpi }),
    {
        sys::display_set_dpi(display_id, dpi)
    }

    /// Sets the physical size of a display in millimetres.
    pub fn display_set_physical_size(&self, display_id: u32, w_mm: u16, h_mm: u16) -> (r: KrunCall)
        ensures
            r@ == (KrunCallView::DisplaySetPhysicalSize { display_id: display_id, w_mm: w_mm, h_mm: h_mm }),
    {
        sys::display_set_physical_size(display_id, w_mm, h_mm)
    }

    /// Sets the refresh rate of a display in Hz.
    pub fn display_set_refresh_rate(&self, display_id: u32, hz: u32) -> (r: KrunCall)
        ensures
            r@ == (KrunCallView::DisplaySetRefreshRate { display_id: display_id, hz: hz }),
    {
        sys::display_set_refresh_rate(display_id, hz)
    }

    /// Adds an input device of the host by its descriptor.
    pub fn add_input_device_fd(&self, fd: i32) -> (r: KrunCall)
        ensures
            r@ == (KrunCallView::AddInputDeviceFd { fd: fd }),
    {
        sys::add_input_device_fd(fd)
    }

    /// Sets the firmware. A string with a NUL character in it is refused.
    pub fn set_firmware(&self, path: &str) -> (r: Result<KrunCall, Error>)
        ensures
            (spec_has_nul(path@)) ==> r is Err && r->Err_0@ == ErrorView::Nul,
            !(spec_has_nul(path@)) ==> r is Ok && r->Ok_0@ == (KrunCallView::SetFirmware { path: path@ }),
    {
        sys::set_firmware(path)
    }

    /// Sets the kernel, and where given the initramfs and the command line. A
    /// string with a NUL character in it is refused.
    pub fn set_kernel(&self, kernel_path: &str, format: KernelFormat, initramfs: Option<&str>, cmdline: Option<&str>) -> (r: Result<KrunCall, Error>)
        ensures
            (spec_has_nul(kernel_path@) || spec_opt_has_nul(opt_str_view(initramfs)) || spec_opt_has_nul(opt_str_view(cmdline))) ==> r is Err && r->Err_0@ == ErrorView::Nul,
            !(spec_has_nul(kernel_path@) || spec_opt_has_nul(opt_str_view(initramfs)) || spec_opt_has_nul(opt_str_view(cmdline))) ==> r is Ok && r->Ok_0@ == (KrunCallView::SetKernel { kernel_path: kernel_path@, format: format, initramfs: opt_str_view(initramfs), cmdline: opt_str_view(cmdline) }),
    {
        sys::set_kernel(kernel_path, format, initramfs, cmdline)
    }

    /// Sets the TEE configuration file. A string with a NUL character in it
    /// is refused.
    pub fn set_tee_config_file(&self, path: &str) -> (r: Result<KrunCall, Error>)
        ensures
            (spec_has_nul(path@)) ==> r is Err && r->Err_0@ == ErrorView::Nul,
            !(spec_has_nul(path@)) ==> r is Ok && r->Ok_0@ == (KrunCallView::SetTeeConfigFile { path: path@ }),
    {
        sys::set_tee_config_file(path)
    }

    /// Sets the SMBIOS OEM strings. A string with a NUL character in it is
    /// refused.
    pub fn set_smbios_oem_strings(&self, strings: &[String]) -> (r: Result<KrunCall, Error>)
        ensures
            (spec_any_nul(strings_view(strings@))) ==> r is Err && r->Err_0@ == ErrorView::Nul,
            !(spec_any_nul(strings_view(strings@))) ==> r is Ok && r->Ok_0@ == (KrunCallView::SetSmbiosOemStrings { strings: strings_view(strings@) }),
    {
        sys::set_smbios_oem_strings(strings)
    }

    /// Sets up logging: the descriptor to write to (`-1` for standard error),
    /// the level, the use of colour, and option bits.
    pub fn init_log(&self, target_fd: i32, level: u32, style: LogStyle, options: u32) -> (r: KrunCall)
        ensures
            r@ == (KrunCallView::InitLog { target_fd: target_fd, level: level, style: style, options: options }),
    {
        sys::init_log(target_fd, level, style, options)
    }

    /// Switches the implicit console off.
    pub fn disable_implicit_console(&self) -> (r: KrunCall)
        ensures
            r@ == (KrunCallView::DisableImplicitConsole),
    {
        sys::disable_implicit_console()
    }

    /// Adds a virtio console on the given descriptors.
    pub fn add_virtio_console_default(&self, input_fd: i32, output_fd: i32, err_fd: i32) -> (r: KrunCall)
        ensures
            r@ == (KrunCallView::AddVirtioConsoleDefault { input_fd: input_fd, output_fd: output_fd, err_fd: err_fd }),
    {
        sys::add_virtio_console_default(input_fd, output_fd, err_fd)
    }

    /// Adds a serial console on the given descriptors.
    pub fn add_serial_console_default(&self, input_fd: i32, output_fd: i32) -> (r: KrunCall)
        ensures
            r@ == (KrunCallView::AddSerialConsoleDefault { input_fd: input_fd, output_fd: output_fd }),
    {
        sys::add_serial_console_default(input_fd, output_fd)
    }

    /// Adds a virtio console with several ports; the hypervisor answers with
    /// its id.
    pub fn add_virtio_console_multiport(&self) -> (r: KrunCall)
        ensures
            r@ == (KrunCallView::AddVirtioConsoleMultiport),
    {
        sys::add_virtio_console_multiport()
    }

    /// Adds a terminal port to a console with several ports. A string with a
    /// NUL character in it is refused.
    pub fn add_console_port_tty(&self, console_id: u32, name: &str, tty_fd: i32) -> (r: Result<KrunCall, Error>)
        ensures
            (spec_has_nul(name@)) ==> r is Err && r->Err_0@ == ErrorView::Nul,
            !(spec_has_nul(name@)) ==> r is Ok && r->Ok_0@ == (KrunCallView::AddConsolePortTty { console_id: console_id, name: name@, tty_fd: tty_fd }),
    {
        sys::add_console_port_tty(console_id, name, tty_fd)
    }

    /// Adds a port with an input and an output descriptor to a console with
    /// several ports. A string with a NUL character in it is refused.
    pub fn add_console_port_inout(&self, console_id: u32, name: &str, input_fd: i32, output_fd: i32) -> (r: Result<KrunCall, Error>)
        ensures
            (spec_has_nul(name@)) ==> r is Err && r->Err_0@ == ErrorView::Nul,
            !(spec_has_nul(name@)) ==> r is Ok && r->Ok_0@ == (KrunCallView::AddConsolePortInout { console_id: console_id, name: name@, input_fd: input_fd, output_fd: output_fd }),
    {
        sys::add_console_port_inout(console_id, name, input_fd, output_fd)
    }

    /// Names the console of the kernel. A string with a NUL character in it
    /// is refused.
    pub fn set_kernel_console(&self, console_id: &str) -> (r: Result<KrunCall, Error>)
        ensures
            (spec_has_nul(console_id@)) ==> r is Err && r->Err_0@ == ErrorView::Nul,
            !(spec_has_nul(console_id@)) ==> r is Ok && r->Ok_0@ == (KrunCallView::SetKernelConsole { console_id: console_id@ }),
    {
        sys::set_kernel_console(console_id)
    }

    /// Asks for the descriptor that signals a shutdown to the guest.
    pub fn get_shutdown_eventfd(&self) -> (r: KrunCall)
        ensures
            r@ == (KrunCallView::GetShutdownEventfd),
    {
        sys::get_shutdown_eventfd()
    }

    /// Splits the interrupt controller between host and guest, or not.
    pub fn split_irqchip(&self, enable: bool) -> (r: KrunCall)
        ensures
            r@ == (KrunCallView::SplitIrqchip { enable: enable }),
    {
        sys::split_irqchip(enable)
    }

    /// Starts the VM, which takes over the process; it answers only when the
    /// start fails.
    pub fn start(&self) -> (r: KrunCall)
        ensures
            r@ == (KrunCallView::StartEnter),
    {
        sys::start_enter()
    }
}

} // verus!
