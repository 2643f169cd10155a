//! The sandbox around the VM process.
//!
//! The VM process is started through a wrapper that shuts it in: on Linux a
//! namespace wrapper that shows it a read-only root and binds in only what the
//! VM needs, on macOS a sandbox profile that denies everything else. Here the
//! command line of the wrapper and the profile are made; starting the process
//! is left to the caller.

use vstd::prelude::*;
use vstd::string::*;
use crate::text::{clone_strings, concat3, opt_string_view, strings_view};

verus! {

/// Program that applies a sandbox profile on macOS.
pub const SANDBOX_EXEC: &'static str = "/usr/bin/sandbox-exec";

/// Device of the hypervisor on Linux.
pub const KVM_DEVICE: &'static str = "/dev/kvm";

/// Descriptor limit that is assumed where the system names none.
pub const DEFAULT_OPEN_MAX: i32 = 1024;

/// First descriptor that the VM process does not inherit.
pub const FIRST_CLOSED_FD: i32 = 3;

/// What the sandbox lets the VM process reach.
#[derive(Debug, Clone)]
pub struct JailConfig {
    /// Directory that holds the root filesystem.
    pub rootfs: Option<String>,
    /// Disk image that holds the root filesystem.
    pub root_disk: Option<String>,
    /// Directory of the Unix sockets.
    pub socks_dir: String,
    /// Directories of the host that the guest sees.
    pub virtiofs_paths: Vec<String>,
    /// Read end of the watchdog pipe.
    pub watchdog_fd: Option<i32>,
}

/// A sandbox configuration as plain data.
pub struct JailConfigView {
    /// Directory that holds the root filesystem.
    pub rootfs: Option<Seq<char>>,
    /// Disk image that holds the root filesystem.
    pub root_disk: Option<Seq<char>>,
    /// Directory of the Unix sockets.
    pub socks_dir: Seq<char>,
    /// Directories of the host that the guest sees.
    pub virtiofs_paths: Seq<Seq<char>>,
    /// Read end of the watchdog pipe.
    pub watchdog_fd: Option<i32>,
}

impl View for JailConfig {
    type V = JailConfigView;

    open spec fn view(&self) -> JailConfigView {
        JailConfigView {
            rootfs: opt_string_view(self.rootfs),
            root_disk: opt_string_view(self.root_disk),
            socks_dir: self.socks_dir@,
            virtiofs_paths: strings_view(self.virtiofs_paths@),
            watchdog_fd: self.watchdog_fd,
        }
    }
}

/// The arguments that bind `path` into the sandbox for reading and writing.
pub open spec fn spec_bind(path: Seq<char>) -> Seq<Seq<char>> {
    seq!["--bind"@, path, path]
}

/// The arguments that bind the path into the sandbox, if there is one.
pub open spec fn spec_bind_opt(path: Option<Seq<char>>) -> Seq<Seq<char>> {
    match path {
        Some(p) => spec_bind(p),
        None => Seq::empty(),
    }
}

/// The arguments that bind each of `paths` into the sandbox.
pub open spec fn spec_bind_all(paths: Seq<Seq<char>>) -> Seq<Seq<char>>
    decreases paths.len(),
{
    if paths.len() == 0 {
        Seq::empty()
    } else {
        spec_bind_all(paths.drop_last()) + spec_bind(paths.last())
    }
}

/// The arguments that every sandbox starts with: new PID, IPC and UTS
/// namespaces, death with the parent, the root read-only, and fresh `/tmp` and
/// `/dev/shm`.
pub open spec fn spec_bwrap_base() -> Seq<Seq<char>> {
    seq![
        "--unshare-pid"@,
        "--unshare-ipc"@,
        "--unshare-uts"@,
        "--die-with-parent"@,
        "--ro-bind"@,
        "/"@,
        "/"@,
        "--tmpfs"@,
        "/tmp"@,
        "--tmpfs"@,
        "/dev/shm"@,
    ]
}

/// The arguments that bind the device of the hypervisor, where the host has
/// it.
pub open spec fn spec_bwrap_kvm(has_kvm: bool) -> Seq<Seq<char>> {
    if has_kvm {
        seq!["--dev-bind"@, KVM_DEVICE@, KVM_DEVICE@]
    } else {
        Seq::empty()
    }
}

/// The end of the command line: the configuration file read-only, and behind
/// `--` the shim with the configuration file as its argument.
pub open spec fn spec_bwrap_tail(shim: Seq<char>, config_path: Seq<char>) -> Seq<Seq<char>> {
    seq!["--ro-bind"@, config_path, config_path, "--"@, shim, config_path]
}

/// The command line of the namespace wrapper: what every sandbox starts with,
/// then the device of the hypervisor, the root directory, the root disk, the
/// sockets directory and the shared directories, each writable, then the
/// configuration file and the shim.
pub open spec fn spec_bwrap_args(
    shim: Seq<char>,
    config_path: Seq<char>,
    config: JailConfigView,
    has_kvm: bool,
) -> Seq<Seq<char>> {
    spec_bwrap_base() + spec_bwrap_kvm(has_kvm) + spec_bind_opt(config.rootfs) + spec_bind_opt(
        config.root_disk,
    ) + spec_bind(config.socks_dir) + spec_bind_all(config.virtiofs_paths) + spec_bwrap_tail(
        shim,
        config_path,
    )
}

fn push_str(args: &mut Vec<String>, s: &str)
    ensures
        strings_view(final(args)@) == strings_view(old(args)@).push(s@),
{
    args.push(String::from_str(s));
    assert(strings_view(args@) =~= strings_view(old(args)@).push(s@));
}

fn push_bind(args: &mut Vec<String>, path: &str)
    ensures
        strings_view(final(args)@) == strings_view(old(args)@) + spec_bind(path@),
{
    push_str(args, "--bind");
    push_str(args, path);
    push_str(args, path);
    assert(strings_view(args@) =~= strings_view(old(args)@) + spec_bind(path@));
}

fn push_bind_opt(args: &mut Vec<String>, path: &Option<String>)
    ensures
        strings_view(final(args)@) == strings_view(old(args)@) + spec_bind_opt(
            opt_string_view(*path),
        ),
{
    match path {
        Some(p) => push_bind(args, p.as_str()),
        None => {
            assert(strings_view(args@) =~= strings_view(old(args)@) + Seq::<Seq<char>>::empty());
        },
    }
}

fn push_bind_all(args: &mut Vec<String>, paths: &Vec<String>)
    ensures
        strings_view(final(args)@) == strings_view(old(args)@) + spec_bind_all(
            strings_view(paths@),
        ),
{
    let ghost start = strings_view(args@);
    let ghost views = strings_view(paths@);
    let mut i: usize = 0;
    assert(views.take(0) =~= Seq::<Seq<char>>::empty());
    assert(strings_view(args@) =~= start + spec_bind_all(views.take(0)));
    while i < paths.len()
        invariant
            i <= paths@.len(),
            views == strings_view(paths@),
            strings_view(args@) == start + spec_bind_all(views.take(i as int)),
        decreases paths@.len() - i,
    {
        assert(views.take(i + 1).drop_last() =~= views.take(i as int));
        assert(views.take(i + 1).last() == paths@[i as int]@);
        push_bind(args, paths[i].as_str());
        assert(strings_view(args@) =~= start + spec_bind_all(views.take(i + 1)));
        i += 1;
    }
    assert(views.take(views.len() as int) =~= views);
}

fn bwrap_base() -> (r: Vec<String>)
    ensures
        strings_view(r@) == spec_bwrap_base(),
{
    let mut args: Vec<String> = Vec::new();
    assert(strings_view(args@) =~= Seq::<Seq<char>>::empty());
    push_str(&mut args, "--unshare-pid");
    push_str(&mut args, "--unshare-ipc");
    push_str(&mut args, "--unshare-uts");
    push_str(&mut args, "--die-with-parent");
    push_str(&mut args, "--ro-bind");
    push_str(&mut args, "/");
    push_str(&mut args, "/");
    push_str(&mut args, "--tmpfs");
    push_str(&mut args, "/tmp");
    push_str(&mut args, "--tmpfs");
    push_str(&mut args, "/dev/shm");
    assert(strings_view(args@) =~= spec_bwrap_base());
    args
}

fn push_kvm(args: &mut Vec<String>, has_kvm: bool)
    ensures
        strings_view(final(args)@) == strings_view(old(args)@) + spec_bwrap_kvm(has_kvm),
{
    if has_kvm {
        push_str(args, "--dev-bind");
        push_str(args, KVM_DEVICE);
        push_str(args, KVM_DEVICE);
    }
    assert(strings_view(args@) =~= strings_view(old(args)@) + spec_bwrap_kvm(has_kvm));
}

fn push_tail(args: &mut Vec<String>, shim: &str, config_path: &str)
    ensures
        strings_view(final(args)@) == strings_view(old(args)@) + spec_bwrap_tail(
            shim@,
            config_path@,
        ),
{
    push_str(args, "--ro-bind");
    push_str(args, config_path);
    push_str(args, config_path);
    push_str(args, "--");
    push_str(args, shim);
    push_str(args, config_path);
    assert(strings_view(args@) =~= strings_view(old(args)@) + spec_bwrap_tail(
        shim@,
        config_path@,
    ));
}

/// Makes the command line of the namespace wrapper around the shim.
/// `has_kvm` says whether the host has the device of the hypervisor.
pub fn bwrap_args(shim: &str, config_path: &str, config: &JailConfig, has_kvm: bool) -> (r: Vec<
    String,
>)
    ensures
        strings_view(r@) == spec_bwrap_args(shim@, config_path@, config@, has_kvm),
{
    let mut args = bwrap_base();
    push_kvm(&mut args, has_kvm);
    push_bind_opt(&mut args, &config.rootfs);
    push_bind_opt(&mut args, &config.root_disk);
    push_bind(&mut args, config.socks_dir.as_str());
    push_bind_all(&mut args, &config.virtiofs_paths);
    push_tail(&mut args, shim, config_path);
    args
}

/// The rule that lets the sandbox read `path` and what lies in it.
pub open spec fn spec_allow_read(path: Seq<char>) -> Seq<char> {
    "(allow file-read* (subpath \""@ + path + "\"))\n"@
}

/// The rule that lets the sandbox read and write `path` and what lies in it.
pub open spec fn spec_allow_readwrite(path: Seq<char>) -> Seq<char> {
    "(allow file-read* file-write* (subpath \""@ + path + "\"))\n"@
}

/// The read-write rule for the path, if there is one.
pub open spec fn spec_allow_readwrite_opt(path: Option<Seq<char>>) -> Seq<char> {
    match path {
        Some(p) => spec_allow_readwrite(p),
        None => Seq::empty(),
    }
}

/// The read-write rules for each of `paths`.
pub open spec fn spec_allow_readwrite_all(paths: Seq<Seq<char>>) -> Seq<char>
    decreases paths.len(),
{
    if paths.len() == 0 {
        Seq::empty()
    } else {
        spec_allow_readwrite_all(paths.drop_last()) + spec_allow_readwrite(paths.last())
    }
}

/// What every profile starts with: everything denied; then processes, signals
/// to itself and reading of system settings allowed, and reading of the
/// system's libraries.
pub open spec fn spec_profile_head() -> Seq<char> {
    "(version 1)\n(deny default)\n\n"@ + "(allow process-exec process-fork)\n"@
        + "(allow signal (target self))\n"@ + "(allow sysctl-read)\n\n"@ + "(allow file-read*\n"@
        + "  (subpath \"/usr/lib\")\n"@ + "  (subpath \"/System\")\n"@
        + "  (subpath \"/Library/Frameworks\")\n"@ + "  (subpath \"/dev\")\n"@ + ")\n\n"@
}

/// What every profile ends with: the hypervisor and the lookups it needs.
pub open spec fn spec_profile_tail() -> Seq<char> {
    "(allow hv-all)\n"@ + "(allow mach-lookup)\n"@
}

/// The sandbox profile: what every profile starts with, the shim and the
/// configuration file readable, the sockets directory, the root directory,
/// the root disk and the shared directories writable, then what every profile
/// ends with.
pub open spec fn spec_profile(shim: Seq<char>, config_path: Seq<char>, config: JailConfigView) -> Seq<
    char,
> {
    spec_profile_head() + spec_allow_read(shim) + spec_allow_read(config_path)
        + spec_allow_readwrite(config.socks_dir) + spec_allow_readwrite_opt(config.rootfs)
        + spec_allow_readwrite_opt(config.root_disk) + spec_allow_readwrite_all(
        config.virtiofs_paths,
    ) + spec_profile_tail()
}

/// Appends the rule that lets the sandbox read `path`.
pub fn allow_read(profile: &mut String, path: &str)
    ensures
        final(profile)@ == old(profile)@ + spec_allow_read(path@),
{
    let rule = concat3("(allow file-read* (subpath \"", path, "\"))\n");
    profile.append(rule.as_str());
}

/// Appends the rule that lets the sandbox read and write `path`.
pub fn allow_readwrite(profile: &mut String, path: &str)
    ensures
        final(profile)@ == old(profile)@ + spec_allow_readwrite(path@),
{
    let rule = concat3("(allow file-read* file-write* (subpath \"", path, "\"))\n");
    profile.append(rule.as_str());
}

fn allow_readwrite_opt(profile: &mut String, path: &Option<String>)
    ensures
        final(profile)@ == old(profile)@ + spec_allow_readwrite_opt(opt_string_view(*path)),
{
    match path {
        Some(p) => allow_readwrite(profile, p.as_str()),
        None => {
            assert(profile@ =~= old(profile)@ + Seq::<char>::empty());
        },
    }
}

fn allow_readwrite_all(profile: &mut String, paths: &Vec<String>)
    ensures
        final(profile)@ == old(profile)@ + spec_allow_readwrite_all(strings_view(paths@)),
{
    let ghost start = profile@;
    let ghost views = strings_view(paths@);
    let mut i: usize = 0;
    assert(views.take(0) =~= Seq::<Seq<char>>::empty());
    assert(profile@ =~= start + spec_allow_readwrite_all(views.take(0)));
    while i < paths.len()
        invariant
            i <= paths@.len(),
            views == strings_view(paths@),
            profile@ == start + spec_allow_readwrite_all(views.take(i as int)),
        decreases paths@.len() - i,
    {
        assert(views.take(i + 1).drop_last() =~= views.take(i as int));
        assert(views.take(i + 1).last() == paths@[i as int]@);
        allow_readwrite(profile, paths[i].as_str());
        assert(profile@ =~= start + spec_allow_readwrite_all(views.take(i + 1)));
        i += 1;
    }
    assert(views.take(views.len() as int) =~= views);
}

fn profile_head() -> (r: String)
    ensures
        r@ == spec_profile_head(),
{
    let mut p = String::from_str("(version 1)\n(deny default)\n\n");
    p.append("(allow process-exec process-fork)\n");
    p.append("(allow signal (target self))\n");
    p.append("(allow sysctl-read)\n\n");
    p.append("(allow file-read*\n");
    p.append("  (subpath \"/usr/lib\")\n");
    p.append("  (subpath \"/System\")\n");
    p.append("  (subpath \"/Library/Frameworks\")\n");
    p.append("  (subpath \"/dev\")\n");
    p.append(")\n\n");
    p
}

/// Makes the sandbox profile for the shim.
pub fn generate_profile(shim: &str, config_path: &str, config: &JailConfig) -> (r: String)
    ensures
        r@ == spec_profile(shim@, config_path@, config@),
{
    let mut p = profile_head();
    allow_read(&mut p, shim);
    allow_read(&mut p, config_path);
    allow_readwrite(&mut p, config.socks_dir.as_str());
    allow_readwrite_opt(&mut p, &config.rootfs);
    allow_readwrite_opt(&mut p, &config.root_disk);
    allow_readwrite_all(&mut p, &config.virtiofs_paths);
    p.append("(allow hv-all)\n");
    p.append("(allow mach-lookup)\n");
    assert(p@ =~= spec_profile(shim@, config_path@, config@));
    p
}

/// The sandbox that the host offers.
#[derive(Debug, Clone)]
pub enum Sandbox {
    /// The namespace wrapper at `path`; `has_kvm` says whether the host has the
    /// device of the hypervisor.
    Bwrap {
        /// Path of the wrapper.
        path: String,
        /// Whether `/dev/kvm` exists.
        has_kvm: bool,
    },
    /// The profile sandbox of macOS.
    Seatbelt,
    /// No sandbox: the shim is started as it is.
    Bare,
}

/// A command: the program and its arguments.
#[derive(Debug, Clone)]
pub struct SpawnCommand {
    /// The program.
    pub program: String,
    /// Its arguments.
    pub args: Vec<String>,
}

/// The command that starts the shim in the sandbox: the program, and its
/// arguments.
pub open spec fn spec_build_command(
    sandbox: Sandbox,
    shim: Seq<char>,
    config_path: Seq<char>,
    config: JailConfigView,
) -> (Seq<char>, Seq<Seq<char>>) {
    match sandbox {
        Sandbox::Bwrap { path, has_kvm } => (
            path@,
            spec_bwrap_args(shim, config_path, config, has_kvm),
        ),
        Sandbox::Seatbelt => (
            SANDBOX_EXEC@,
            seq!["-p"@, spec_profile(shim, config_path, config), "--"@, shim, config_path],
        ),
        Sandbox::Bare => (shim, seq![config_path]),
    }
}

/// Makes the command that starts the shim in the sandbox `sandbox`.
pub fn build_command(sandbox: &Sandbox, shim: &str, config_path: &str, config: &JailConfig) -> (r:
    SpawnCommand)
    ensures
        (r.program@, strings_view(r.args@)) == spec_build_command(
            *sandbox,
            shim@,
            config_path@,
            config@,
        ),
{
    match sandbox {
        Sandbox::Bwrap { path, has_kvm } => SpawnCommand {
            program: path.clone(),
            args: bwrap_args(shim, config_path, config, *has_kvm),
        },
        Sandbox::Seatbelt => {
            let mut args: Vec<String> = Vec::new();
            assert(strings_view(args@) =~= Seq::<Seq<char>>::empty());
            push_str(&mut args, "-p");
            let profile = generate_profile(shim, config_path, config);
            push_str(&mut args, profile.as_str());
            push_str(&mut args, "--");
            push_str(&mut args, shim);
            push_str(&mut args, config_path);
            assert(strings_view(args@) =~= seq![
                "-p"@,
                spec_profile(shim@, config_path@, config@),
                "--"@,
                shim@,
                config_path@,
            ]);
            SpawnCommand { program: String::from_str(SANDBOX_EXEC), args }
        },
        Sandbox::Bare => {
            let mut args: Vec<String> = Vec::new();
            assert(strings_view(args@) =~= Seq::<Seq<char>>::empty());
            push_str(&mut args, config_path);
            assert(strings_view(args@) =~= seq![config_path@]);
            SpawnCommand { program: String::from_str(shim), args }
        },
    }
}

/// The descriptor up to which inherited descriptors are closed one by one,
/// where the system cannot close them as a range: the descriptor limit of the
/// process, or [`DEFAULT_OPEN_MAX`] where the system names none.
pub fn close_limit(open_max: i64) -> (r: i32)
    ensures
        open_max <= 0 ==> r == DEFAULT_OPEN_MAX,
        0 < open_max <= i32::MAX ==> r == open_max,
        open_max > i32::MAX ==> r == i32::MAX,
        r >= 1,
{
    if open_max <= 0 {
        DEFAULT_OPEN_MAX
    } else if open_max > i32::MAX as i64 {
        i32::MAX
    } else {
        open_max as i32
    }
}

/// The path of `name` beside the file `exe`: the directory of `exe`, and
/// `name` in it.
pub open spec fn spec_sibling_path(exe: Seq<char>, name: Seq<char>) -> Seq<char> {
    match crate::text::spec_rfind(exe, '/') {
        Some(i) => exe.take(i + 1) + name,
        None => name,
    }
}

/// The path of `name` beside the file `exe`.
pub fn sibling_path(exe: &str, name: &str) -> (r: String)
    ensures
        r@ == spec_sibling_path(exe@, name@),
{
    let n = exe.unicode_len();
    match crate::text::rfind_char(exe, '/') {
        Some(i) => {
            proof {
                crate::text::lemma_rfind_before(exe@, '/', exe@.len() as int);
            }
            crate::text::concat2(exe.substring_char(0, i + 1), name)
        },
        None => String::from_str(name),
    }
}

/// Where `name` is looked for in the directories of a search path, which are
/// separated by colons: in each, in order. An empty directory is the working
/// directory.
pub open spec fn spec_search_path(path_var: Seq<char>, name: Seq<char>) -> Seq<Seq<char>> {
    let dirs = spec_search_dirs(path_var);
    Seq::new(dirs.len(), |i: int| crate::text::spec_path_join(dirs[i], name))
}

/// The directories of a search path.
pub open spec fn spec_search_dirs(path_var: Seq<char>) -> Seq<Seq<char>>
    decreases path_var.len(),
{
    match crate::text::spec_rfind(path_var, ':') {
        Some(i) => if 0 <= i < path_var.len() {
            spec_search_dirs(path_var.take(i)).push(path_var.skip(i + 1))
        } else {
            seq![path_var]
        },
        None => seq![path_var],
    }
}

fn search_dirs(path_var: &str) -> (r: Vec<String>)
    ensures
        strings_view(r@) == spec_search_dirs(path_var@),
    decreases path_var@.len(),
{
    let n = path_var.unicode_len();
    match crate::text::rfind_char(path_var, ':') {
        Some(i) => {
            proof {
                crate::text::lemma_rfind_before(path_var@, ':', path_var@.len() as int);
            }
            let head = path_var.substring_char(0, i);
            let mut dirs = search_dirs(head);
            let ghost before = strings_view(dirs@);
            dirs.push(String::from_str(path_var.substring_char(i + 1, n)));
            assert(strings_view(dirs@) =~= before.push(path_var@.skip(i + 1)));
            assert(head@ =~= path_var@.take(i as int));
            dirs
        },
        None => {
            let mut dirs: Vec<String> = Vec::new();
            dirs.push(String::from_str(path_var));
            assert(strings_view(dirs@) =~= seq![path_var@]);
            dirs
        },
    }
}

/// Says where `name` is looked for in the directories of the search path
/// `path_var`.
pub fn search_path(path_var: &str, name: &str) -> (r: Vec<String>)
    ensures
        strings_view(r@) == spec_search_path(path_var@, name@),
{
    let dirs = search_dirs(path_var);
    let mut out: Vec<String> = Vec::new();
    let mut i: usize = 0;
    while i < dirs.len()
        invariant
            i <= dirs@.len(),
            out@.len() == i,
            strings_view(dirs@) == spec_search_dirs(path_var@),
            forall|k: int|
                0 <= k < i ==> (#[trigger] out@[k])@ == crate::text::spec_path_join(
                    dirs@[k]@,
                    name@,
                ),
        decreases dirs@.len() - i,
    {
        out.push(crate::text::path_join(dirs[i].as_str(), name));
        i += 1;
    }
    assert(strings_view(out@) =~= spec_search_path(path_var@, name@));
    out
}

/// Name of the program that boots a VM.
pub const SHIM_NAME: &'static str = "bux-shim";

/// Name of the namespace wrapper.
pub const BWRAP_NAME: &'static str = "bwrap";

/// Where a helper program is looked for, in order: beside the running
/// program, if that is known, then in the directories of the search path, if
/// there is one.
pub open spec fn spec_candidates(
    name: Seq<char>,
    current_exe: Option<Seq<char>>,
    path_var: Option<Seq<char>>,
) -> Seq<Seq<char>> {
    (match current_exe {
        Some(exe) => seq![spec_sibling_path(exe, name)],
        None => Seq::empty(),
    }) + (match path_var {
        Some(p) => spec_search_path(p, name),
        None => Seq::empty(),
    })
}

/// Says where the helper program `name` is looked for. The first of these
/// that is a file is the one.
pub fn find_shim(name: &str, current_exe: Option<&str>, path_var: Option<&str>) -> (r: Vec<String>)
    ensures
        strings_view(r@) == spec_candidates(
            name@,
            crate::sys::opt_str_view(current_exe),
            crate::sys::opt_str_view(path_var),
        ),
{
    let mut out: Vec<String> = Vec::new();
    assert(strings_view(out@) =~= Seq::<Seq<char>>::empty());
    if let Some(exe) = current_exe {
        out.push(sibling_path(exe, name));
        assert(strings_view(out@) =~= seq![spec_sibling_path(exe@, name@)]);
    }
    let ghost first = strings_view(out@);
    if let Some(p) = path_var {
        let mut more = search_path(p, name);
        let ghost added = strings_view(more@);
        out.append(&mut more);
        assert(strings_view(out@) =~= first + added);
    } else {
        assert(strings_view(out@) =~= first + Seq::<Seq<char>>::empty());
    }
    out
}

} // verus!
