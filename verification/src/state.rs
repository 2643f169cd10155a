//! The records of the VMs, and the registry that holds them.
//!
//! The registry is a table keyed by id. No two records have one id, no two
//! have one name, and the records are kept newest first. Making it durable is
//! left to the caller, who stores [`StateDb::list`] and brings it back with
//! [`StateDb::from_rows`].

use vstd::prelude::*;
use vstd::string::*;
use crate::error::{Error, ErrorView};
use crate::text::{
    clone_opt_string, clone_opt_strings, clone_strings, concat3, decimal, opt_string_view,
    opt_strings_view, spec_decimal, spec_starts_with, starts_with, str_eq, strings_view,
};

verus! {

/// Where a VM is in its life.
#[derive(Debug, Clone, Copy, PartialEq, Eq, Structural)]
pub enum Status {
    /// The VM is being prepared.
    Creating,
    /// The VM process runs.
    Running,
    /// The VM process is suspended.
    Paused,
    /// The VM process is gone.
    Stopped,
}

/// The word that the registry stores for a status.
pub open spec fn spec_status_str(s: Status) -> Seq<char> {
    match s {
        Status::Creating => "creating"@,
        Status::Running => "running"@,
        Status::Paused => "paused"@,
        Status::Stopped => "stopped"@,
    }
}

/// The status that a stored word stands for. A word that stands for none is
/// read as stopped.
pub open spec fn spec_parse_status(s: Seq<char>) -> Status {
    if s == "creating"@ {
        Status::Creating
    } else if s == "running"@ {
        Status::Running
    } else if s == "paused"@ {
        Status::Paused
    } else {
        Status::Stopped
    }
}

/// The word that the registry stores for `s`.
pub fn status_str(s: Status) -> (r: &'static str)
    ensures
        r@ == spec_status_str(s),
{
    match s {
        Status::Creating => "creating",
        Status::Running => "running",
        Status::Paused => "paused",
        Status::Stopped => "stopped",
    }
}

/// Reads a stored word as a status.
pub fn parse_status(s: &str) -> (r: Status)
    ensures
        r == spec_parse_status(s@),
{
    if str_eq(s, "creating") {
        Status::Creating
    } else if str_eq(s, "running") {
        Status::Running
    } else if str_eq(s, "paused") {
        Status::Paused
    } else {
        Status::Stopped
    }
}

/// Every status is read back from the word that is stored for it.
pub proof fn lemma_status_roundtrip(s: Status)
    ensures
        spec_parse_status(spec_status_str(s)) == s,
{
    reveal_strlit("creating");
    reveal_strlit("running");
    reveal_strlit("paused");
    reveal_strlit("stopped");
    match s {
        Status::Creating => {},
        Status::Running => {
            assert("running"@.len() != "creating"@.len());
        },
        Status::Paused => {
            assert("paused"@.len() != "creating"@.len());
            assert("paused"@.len() != "running"@.len());
        },
        Status::Stopped => {
            assert("stopped"@[0] != "creating"@[0]);
            assert("stopped"@[0] != "running"@[0]);
            assert("stopped"@.len() != "paused"@.len());
        },
    }
}

/// A directory of the host that the guest sees.
#[derive(Debug, Clone)]
pub struct VirtioFs {
    /// Name under which the guest mounts it.
    pub tag: String,
    /// Path on the host.
    pub path: String,
}

/// A guest port tied to a socket of the host.
#[derive(Debug, Clone)]
pub struct VsockPort {
    /// Port inside the guest.
    pub port: u32,
    /// Path of the Unix socket on the host.
    pub path: String,
    /// Whether the guest is the side that listens.
    pub listen: bool,
}

/// How a VM is configured.
#[derive(Debug, Clone)]
pub struct VmConfig {
    /// Number of virtual CPUs.
    pub vcpus: u8,
    /// Memory in MiB.
    pub ram_mib: u32,
    /// Directory that holds the root filesystem.
    pub rootfs: Option<String>,
    /// Disk image that holds the root filesystem.
    pub root_disk: Option<String>,
    /// Base image over which the VM gets an overlay of its own.
    pub base_disk: Option<String>,
    /// Format of the root disk.
    pub disk_format: String,
    /// Executable inside the VM.
    pub exec_path: Option<String>,
    /// Arguments of the executable.
    pub exec_args: Vec<String>,
    /// Environment, each entry `KEY=VALUE`.
    pub env: Option<Vec<String>>,
    /// Working directory inside the VM.
    pub workdir: Option<String>,
    /// TCP port mappings, each `host:guest`.
    pub ports: Vec<String>,
    /// Shared directories.
    pub virtiofs: Vec<VirtioFs>,
    /// User id of the VM process.
    pub uid: Option<u32>,
    /// Group id of the VM process.
    pub gid: Option<u32>,
    /// Resource limits, each `RESOURCE=CUR:MAX`.
    pub rlimits: Vec<String>,
    /// Whether nested virtualisation is switched on or off.
    pub nested_virt: Option<bool>,
    /// Whether the sound device is switched on or off.
    pub snd_device: Option<bool>,
    /// File that receives the console output.
    pub console_output: Option<String>,
    /// Whether the record goes away when the VM stops.
    pub auto_remove: bool,
    /// Guest ports tied to host sockets.
    pub vsock_ports: Vec<VsockPort>,
}

/// A shared directory as plain data.
pub struct VirtioFsView {
    /// Name under which the guest mounts it.
    pub tag: Seq<char>,
    /// Path on the host.
    pub path: Seq<char>,
}

/// A port mapping as plain data.
pub struct VsockPortView {
    /// Port inside the guest.
    pub port: u32,
    /// Path of the Unix socket on the host.
    pub path: Seq<char>,
    /// Whether the guest is the side that listens.
    pub listen: bool,
}

/// A configuration as plain data.
pub struct VmConfigView {
    /// Number of virtual CPUs.
    pub vcpus: u8,
    /// Memory in MiB.
    pub ram_mib: u32,
    /// Directory that holds the root filesystem.
    pub rootfs: Option<Seq<char>>,
    /// Disk image that holds the root filesystem.
    pub root_disk: Option<Seq<char>>,
    /// Base image over which the VM gets an overlay of its own.
    pub base_disk: Option<Seq<char>>,
    /// Format of the root disk.
    pub disk_format: Seq<char>,
    /// Executable inside the VM.
    pub exec_path: Option<Seq<char>>,
    /// Arguments of the executable.
    pub exec_args: Seq<Seq<char>>,
    /// Environment.
    pub env: Option<Seq<Seq<char>>>,
    /// Working directory inside the VM.
    pub workdir: Option<Seq<char>>,
    /// TCP port mappings.
    pub ports: Seq<Seq<char>>,
    /// Shared directories.
    pub virtiofs: Seq<VirtioFsView>,
    /// User id of the VM process.
    pub uid: Option<u32>,
    /// Group id of the VM process.
    pub gid: Option<u32>,
    /// Resource limits.
    pub rlimits: Seq<Seq<char>>,
    /// Whether nested virtualisation is switched on or off.
    pub nested_virt: Option<bool>,
    /// Whether the sound device is switched on or off.
    pub snd_device: Option<bool>,
    /// File that receives the console output.
    pub console_output: Option<Seq<char>>,
    /// Whether the record goes away when the VM stops.
    pub auto_remove: bool,
    /// Guest ports tied to host sockets.
    pub vsock_ports: Seq<VsockPortView>,
}

impl View for VirtioFs {
    type V = VirtioFsView;

    open spec fn view(&self) -> VirtioFsView {
        VirtioFsView { tag: self.tag@, path: self.path@ }
    }
}

impl View for VsockPort {
    type V = VsockPortView;

    open spec fn view(&self) -> VsockPortView {
        VsockPortView { port: self.port, path: self.path@, listen: self.listen }
    }
}

/// The shared directories as plain data.
pub open spec fn virtiofs_views(v: Seq<VirtioFs>) -> Seq<VirtioFsView> {
    Seq::new(v.len(), |i: int| v[i]@)
}

/// The port mappings as plain data.
pub open spec fn vsock_views(v: Seq<VsockPort>) -> Seq<VsockPortView> {
    Seq::new(v.len(), |i: int| v[i]@)
}

impl View for VmConfig {
    type V = VmConfigView;

    open spec fn view(&self) -> VmConfigView {
        VmConfigView {
            vcpus: self.vcpus,
            ram_mib: self.ram_mib,
            rootfs: opt_string_view(self.rootfs),
            root_disk: opt_string_view(self.root_disk),
            base_disk: opt_string_view(self.base_disk),
            disk_format: self.disk_format@,
            exec_path: opt_string_view(self.exec_path),
            exec_args: strings_view(self.exec_args@),
            env: opt_strings_view(self.env),
            workdir: opt_string_view(self.workdir),
            ports: strings_view(self.ports@),
            virtiofs: virtiofs_views(self.virtiofs@),
            uid: self.uid,
            gid: self.gid,
            rlimits: strings_view(self.rlimits@),
            nested_virt: self.nested_virt,
            snd_device: self.snd_device,
            console_output: opt_string_view(self.console_output),
            auto_remove: self.auto_remove,
            vsock_ports: vsock_views(self.vsock_ports@),
        }
    }
}

/// A copy of the shared directories.
pub fn clone_virtiofs(v: &Vec<VirtioFs>) -> (r: Vec<VirtioFs>)
    ensures
        virtiofs_views(r@) == virtiofs_views(v@),
{
    let mut out: Vec<VirtioFs> = Vec::new();
    let mut i: usize = 0;
    while i < v.len()
        invariant
            i <= v@.len(),
            out@.len() == i,
            forall|k: int| 0 <= k < i ==> (#[trigger] out@[k])@ == v@[k]@,
        decreases v@.len() - i,
    {
        out.push(VirtioFs { tag: v[i].tag.clone(), path: v[i].path.clone() });
        i += 1;
    }
    assert(virtiofs_views(out@) =~= virtiofs_views(v@));
    out
}

/// A copy of the port mappings.
pub fn clone_vsock_ports(v: &Vec<VsockPort>) -> (r: Vec<VsockPort>)
    ensures
        vsock_views(r@) == vsock_views(v@),
{
    let mut out: Vec<VsockPort> = Vec::new();
    let mut i: usize = 0;
    while i < v.len()
        invariant
            i <= v@.len(),
            out@.len() == i,
            forall|k: int| 0 <= k < i ==> (#[trigger] out@[k])@ == v@[k]@,
        decreases v@.len() - i,
    {
        out.push(VsockPort { port: v[i].port, path: v[i].path.clone(), listen: v[i].listen });
        i += 1;
    }
    assert(vsock_views(out@) =~= vsock_views(v@));
    out
}

impl VmConfig {
    /// A configuration with `vcpus` CPUs and `ram_mib` MiB of memory, and
    /// nothing else set.
    pub fn new(vcpus: u8, ram_mib: u32) -> (r: Self)
        ensures
            r@ == (VmConfigView {
                vcpus,
                ram_mib,
                rootfs: None,
                root_disk: None,
                base_disk: None,
                disk_format: Seq::empty(),
                exec_path: None,
                exec_args: Seq::empty(),
                env: None,
                workdir: None,
                ports: Seq::empty(),
                virtiofs: Seq::empty(),
                uid: None,
                gid: None,
                rlimits: Seq::empty(),
                nested_virt: None,
                snd_device: None,
                console_output: None,
                auto_remove: false,
                vsock_ports: Seq::empty(),
            }),
    {
        let r = VmConfig {
            vcpus,
            ram_mib,
            rootfs: None,
            root_disk: None,
            base_disk: None,
            disk_format: String::new(),
            exec_path: None,
            exec_args: Vec::new(),
            env: None,
            workdir: None,
            ports: Vec::new(),
            virtiofs: Vec::new(),
            uid: None,
            gid: None,
            rlimits: Vec::new(),
            nested_virt: None,
            snd_device: None,
            console_output: None,
            auto_remove: false,
            vsock_ports: Vec::new(),
        };
        assert(r@.exec_args =~= Seq::empty());
        assert(r@.ports =~= Seq::empty());
        assert(r@.rlimits =~= Seq::empty());
        assert(r@.virtiofs =~= Seq::empty());
        assert(r@.vsock_ports =~= Seq::empty());
        r
    }

    /// A copy of the configuration.
    pub fn copy(&self) -> (r: Self)
        ensures
            r@ == self@,
    {
        VmConfig {
            vcpus: self.vcpus,
            ram_mib: self.ram_mib,
            rootfs: clone_opt_string(&self.rootfs),
            root_disk: clone_opt_string(&self.root_disk),
            base_disk: clone_opt_string(&self.base_disk),
            disk_format: self.disk_format.clone(),
            exec_path: clone_opt_string(&self.exec_path),
            exec_args: clone_strings(&self.exec_args),
            env: clone_opt_strings(&self.env),
            workdir: clone_opt_string(&self.workdir),
            ports: clone_strings(&self.ports),
            virtiofs: clone_virtiofs(&self.virtiofs),
            uid: self.uid,
            gid: self.gid,
            rlimits: clone_strings(&self.rlimits),
            nested_virt: self.nested_virt,
            snd_device: self.snd_device,
            console_output: clone_opt_string(&self.console_output),
            auto_remove: self.auto_remove,
            vsock_ports: clone_vsock_ports(&self.vsock_ports),
        }
    }
}

/// What is recorded of one VM.
#[derive(Debug, Clone)]
pub struct VmState {
    /// Short hexadecimal identifier.
    pub id: String,
    /// Name, which no other VM has.
    pub name: Option<String>,
    /// Process id of the VM process on the host.
    pub pid: i32,
    /// Image that the VM was made from.
    pub image: Option<String>,
    /// Unix socket that leads to the guest agent.
    pub socket: String,
    /// Where the VM is in its life.
    pub status: Status,
    /// How the VM is configured.
    pub config: VmConfig,
    /// When the VM was made, in nanoseconds since the Unix epoch.
    pub created_at: u64,
}

/// A record as plain data.
pub struct VmStateView {
    /// Short hexadecimal identifier.
    pub id: Seq<char>,
    /// Name, which no other VM has.
    pub name: Option<Seq<char>>,
    /// Process id of the VM process on the host.
    pub pid: i32,
    /// Image that the VM was made from.
    pub image: Option<Seq<char>>,
    /// Unix socket that leads to the guest agent.
    pub socket: Seq<char>,
    /// Where the VM is in its life.
    pub status: Status,
    /// How the VM is configured.
    pub config: VmConfigView,
    /// When the VM was made.
    pub created_at: u64,
}

impl View for VmState {
    type V = VmStateView;

    open spec fn view(&self) -> VmStateView {
        VmStateView {
            id: self.id@,
            name: opt_string_view(self.name),
            pid: self.pid,
            image: opt_string_view(self.image),
            socket: self.socket@,
            status: self.status,
            config: self.config@,
            created_at: self.created_at,
        }
    }
}

impl VmState {
    /// A copy of the record.
    pub fn copy(&self) -> (r: Self)
        ensures
            r@ == self@,
    {
        VmState {
            id: self.id.clone(),
            name: clone_opt_string(&self.name),
            pid: self.pid,
            image: clone_opt_string(&self.image),
            socket: self.socket.clone(),
            status: self.status,
            config: self.config.copy(),
            created_at: self.created_at,
        }
    }
}

/// The records as plain data.
pub open spec fn rows_views(rows: Seq<VmState>) -> Seq<VmStateView> {
    Seq::new(rows.len(), |i: int| rows[i]@)
}

/// What holds of the table at all times: no two records have one id, no two
/// have one name, and a newer record stands before an older one.
pub open spec fn spec_wf_rows(rows: Seq<VmStateView>) -> bool {
    &&& forall|i: int, j: int|
        0 <= i < j < rows.len() ==> (#[trigger] rows[i]).id != (#[trigger] rows[j]).id
    &&& forall|i: int, j: int|
        0 <= i < j < rows.len() && (#[trigger] rows[i]).name is Some ==> rows[i].name != (
        #[trigger] rows[j]).name
    &&& forall|i: int, j: int|
        0 <= i < j < rows.len() ==> (#[trigger] rows[i]).created_at >= (
        #[trigger] rows[j]).created_at
}

/// Index of the record with the id `id` at or behind `from`; the number of
/// records where there is none.
pub open spec fn spec_find_id(rows: Seq<VmStateView>, id: Seq<char>, from: int) -> int
    decreases rows.len() - from,
{
    if from >= rows.len() {
        rows.len() as int
    } else if from >= 0 && rows[from].id == id {
        from
    } else {
        spec_find_id(rows, id, from + 1)
    }
}

/// Index of the record with the name `name` at or behind `from`; the number
/// of records where there is none.
pub open spec fn spec_find_name(rows: Seq<VmStateView>, name: Seq<char>, from: int) -> int
    decreases rows.len() - from,
{
    if from >= rows.len() {
        rows.len() as int
    } else if from >= 0 && rows[from].name == Some(name) {
        from
    } else {
        spec_find_name(rows, name, from + 1)
    }
}

/// Index of the first record at or behind `from` whose id begins with
/// `prefix`; the number of records where there is none.
pub open spec fn spec_find_prefix(rows: Seq<VmStateView>, prefix: Seq<char>, from: int) -> int
    decreases rows.len() - from,
{
    if from >= rows.len() {
        rows.len() as int
    } else if from >= 0 && spec_starts_with(rows[from].id, prefix) {
        from
    } else {
        spec_find_prefix(rows, prefix, from + 1)
    }
}

/// Number of records at or behind `from` whose id begins with `prefix`.
pub open spec fn spec_count_prefix(rows: Seq<VmStateView>, prefix: Seq<char>, from: int) -> nat
    decreases rows.len() - from,
{
    if from >= rows.len() || from < 0 {
        0
    } else if spec_starts_with(rows[from].id, prefix) {
        1 + spec_count_prefix(rows, prefix, from + 1)
    } else {
        spec_count_prefix(rows, prefix, from + 1)
    }
}

/// Where a record made at `created_at` goes: before the first record that is
/// not newer than it.
pub open spec fn spec_insert_pos(rows: Seq<VmStateView>, created_at: u64, from: int) -> int
    decreases rows.len() - from,
{
    if from >= rows.len() {
        rows.len() as int
    } else if from >= 0 && rows[from].created_at <= created_at {
        from
    } else {
        spec_insert_pos(rows, created_at, from + 1)
    }
}

/// Why the table refuses a new record, if it does: its id is taken, or else
/// its name is.
pub open spec fn spec_insert_conflict(rows: Seq<VmStateView>, s: VmStateView) -> Option<ErrorView> {
    if spec_find_id(rows, s.id, 0) < rows.len() {
        Some(ErrorView::Db("UNIQUE constraint failed: vms.id"@))
    } else if s.name is Some && spec_find_name(rows, s.name->Some_0, 0) < rows.len() {
        Some(ErrorView::Db("UNIQUE constraint failed: vms.name"@))
    } else {
        None
    }
}

/// Whether the record `id` exists and `name` belongs to another record.
pub open spec fn spec_rename_conflict(
    rows: Seq<VmStateView>,
    id: Seq<char>,
    name: Option<Seq<char>>,
) -> bool {
    &&& name is Some
    &&& spec_find_id(rows, id, 0) < rows.len()
    &&& spec_find_name(rows, name->Some_0, 0) < rows.len()
    &&& spec_find_name(rows, name->Some_0, 0) != spec_find_id(rows, id, 0)
}

/// The record that an id or the beginning of an id stands for. A record with
/// exactly this id wins. Otherwise it is the one record whose id begins so;
/// none is not found, several are ambiguous.
pub open spec fn spec_resolve_prefix(rows: Seq<VmStateView>, prefix: Seq<char>) -> Result<
    int,
    ErrorView,
> {
    if spec_find_id(rows, prefix, 0) < rows.len() {
        Ok(spec_find_id(rows, prefix, 0))
    } else {
        let n = spec_count_prefix(rows, prefix, 0);
        if n == 0 {
            Err(ErrorView::NotFound("no VM matching '"@ + prefix + "'"@))
        } else if n == 1 {
            Ok(spec_find_prefix(rows, prefix, 0))
        } else {
            Err(ErrorView::Ambiguous("prefix '"@ + prefix + "' matches "@ + spec_decimal(n) + " VMs"@))
        }
    }
}

/// The search for an id ends at a record with that id, and passes none.
pub proof fn lemma_find_id(rows: Seq<VmStateView>, id: Seq<char>, from: int)
    requires
        0 <= from <= rows.len(),
    ensures
        from <= spec_find_id(rows, id, from) <= rows.len(),
        spec_find_id(rows, id, from) < rows.len() ==> rows[spec_find_id(rows, id, from)].id == id,
        forall|k: int| from <= k < spec_find_id(rows, id, from) ==> (#[trigger] rows[k]).id != id,
    decreases rows.len() - from,
{
    if from < rows.len() && rows[from].id != id {
        lemma_find_id(rows, id, from + 1);
    }
}

/// The search for a name ends at a record with that name, and passes none.
pub proof fn lemma_find_name(rows: Seq<VmStateView>, name: Seq<char>, from: int)
    requires
        0 <= from <= rows.len(),
    ensures
        from <= spec_find_name(rows, name, from) <= rows.len(),
        spec_find_name(rows, name, from) < rows.len() ==> rows[spec_find_name(
            rows,
            name,
            from,
        )].name == Some(name),
        forall|k: int|
            from <= k < spec_find_name(rows, name, from) ==> (#[trigger] rows[k]).name != Some(
                name,
            ),
    decreases rows.len() - from,
{
    if from < rows.len() && rows[from].name != Some(name) {
        lemma_find_name(rows, name, from + 1);
    }
}

/// The search for the beginning of an id ends at a record whose id begins so,
/// and passes none; where nothing is counted, nothing is found.
pub proof fn lemma_find_prefix(rows: Seq<VmStateView>, prefix: Seq<char>, from: int)
    requires
        0 <= from <= rows.len(),
    ensures
        from <= spec_find_prefix(rows, prefix, from) <= rows.len(),
        spec_find_prefix(rows, prefix, from) < rows.len() ==> spec_starts_with(
            rows[spec_find_prefix(rows, prefix, from)].id,
            prefix,
        ),
        forall|k: int|
            from <= k < spec_find_prefix(rows, prefix, from) ==> !spec_starts_with(
                (#[trigger] rows[k]).id,
                prefix,
            ),
        spec_count_prefix(rows, prefix, from) == 0 <==> spec_find_prefix(rows, prefix, from)
            == rows.len(),
        spec_find_prefix(rows, prefix, from) < rows.len() ==> spec_count_prefix(rows, prefix, from)
            == 1 + spec_count_prefix(rows, prefix, spec_find_prefix(rows, prefix, from) + 1),
    decreases rows.len() - from,
{
    if from < rows.len() && !spec_starts_with(rows[from].id, prefix) {
        lemma_find_prefix(rows, prefix, from + 1);
    }
}

/// The place of a new record lies behind every newer record.
pub proof fn lemma_insert_pos(rows: Seq<VmStateView>, created_at: u64, from: int)
    requires
        0 <= from <= rows.len(),
    ensures
        from <= spec_insert_pos(rows, created_at, from) <= rows.len(),
        spec_insert_pos(rows, created_at, from) < rows.len() ==> rows[spec_insert_pos(
            rows,
            created_at,
            from,
        )].created_at <= created_at,
        forall|k: int|
            from <= k < spec_insert_pos(rows, created_at, from) ==> (#[trigger] rows[k]).created_at
                > created_at,
    decreases rows.len() - from,
{
    if from < rows.len() && rows[from].created_at > created_at {
        lemma_insert_pos(rows, created_at, from + 1);
    }
}

/// The registry of the VMs.
#[derive(Debug)]
pub struct StateDb {
    rows: Vec<VmState>,
}

impl View for StateDb {
    type V = Seq<VmStateView>;

    closed spec fn view(&self) -> Seq<VmStateView> {
        rows_views(self.rows@)
    }
}

impl StateDb {
    /// What holds of the registry at all times.
    pub open spec fn wf(&self) -> bool {
        spec_wf_rows(self@)
    }

    /// A registry without records.
    pub fn new() -> (r: Self)
        ensures
            r.wf(),
            r@ == Seq::<VmStateView>::empty(),
    {
        let r = StateDb { rows: Vec::new() };
        assert(r@ =~= Seq::<VmStateView>::empty());
        r
    }

    /// Number of records.
    pub fn len(&self) -> (r: usize)
        ensures
            r == self@.len(),
    {
        self.rows.len()
    }

    fn position_of_id(&self, id: &str) -> (r: usize)
        ensures
            r == spec_find_id(self@, id@, 0),
            r <= self@.len(),
            r < self@.len() ==> self.rows@[r as int].id@ == id@,
    {
        let mut i: usize = 0;
        while i < self.rows.len()
            invariant
                i <= self.rows@.len(),
                self@ == rows_views(self.rows@),
                spec_find_id(self@, id@, i as int) == spec_find_id(self@, id@, 0),
            decreases self.rows@.len() - i,
        {
            if str_eq(self.rows[i].id.as_str(), id) {
                return i;
            }
            i += 1;
        }
        i
    }

    fn position_of_name(&self, name: &str) -> (r: usize)
        ensures
            r == spec_find_name(self@, name@, 0),
            r <= self@.len(),
    {
        let mut i: usize = 0;
        while i < self.rows.len()
            invariant
                i <= self.rows@.len(),
                self@ == rows_views(self.rows@),
                spec_find_name(self@, name@, i as int) == spec_find_name(self@, name@, 0),
            decreases self.rows@.len() - i,
        {
            let hit = match &self.rows[i].name {
                Some(n) => str_eq(n.as_str(), name),
                None => false,
            };
            if hit {
                return i;
            }
            i += 1;
        }
        i
    }

    /// Adds a record. A record whose id or whose name is taken is refused,
    /// and the registry stays as it was.
    #[verifier::rlimit(40)]
    pub fn insert(&mut self, s: &VmState) -> (r: Result<(), Error>)
        requires
            old(self).wf(),
        ensures
            final(self).wf(),
            match spec_insert_conflict(old(self)@, s@) {
                Some(e) => r is Err && r->Err_0@ == e && final(self)@ == old(self)@,
                None => r is Ok && final(self)@ == old(self)@.insert(
                    spec_insert_pos(old(self)@, s.created_at, 0),
                    s@,
                ),
            },
    {
        if self.position_of_id(s.id.as_str()) < self.rows.len() {
            return Err(Error::Db(String::from_str("UNIQUE constraint failed: vms.id")));
        }
        let name_taken = match &s.name {
            Some(n) => self.position_of_name(n.as_str()) < self.rows.len(),
            None => false,
        };
        if name_taken {
            return Err(Error::Db(String::from_str("UNIQUE constraint failed: vms.name")));
        }
        let mut pos: usize = 0;
        while pos < self.rows.len() && self.rows[pos].created_at > s.created_at
            invariant
                pos <= self.rows@.len(),
                self@ == rows_views(self.rows@),
                self@ == old(self)@,
                spec_insert_pos(self@, s.created_at, pos as int) == spec_insert_pos(
                    self@,
                    s.created_at,
                    0,
                ),
            decreases self.rows@.len() - pos,
        {
            pos += 1;
        }
        proof {
            let rows = old(self)@;
            lemma_find_id(rows, s@.id, 0);
            if s.name is Some {
                lemma_find_name(rows, s@.name->Some_0, 0);
            }
            lemma_insert_pos(rows, s.created_at, 0);
        }
        self.rows.insert(pos, s.copy());
        proof {
            let rows = old(self)@;
            let next = rows.insert(pos as int, s@);
            assert(self@ =~= next);
            assert forall|i: int, j: int| 0 <= i < j < next.len() implies (#[trigger] next[i]).id
                != (#[trigger] next[j]).id by {
                let a = if i < pos { i } else { i - 1 };
                let b = if j < pos { j } else { j - 1 };
                if i != pos && j != pos {
                    assert(next[i] == rows[a] && next[j] == rows[b]);
                } else if i == pos {
                    assert(next[j] == rows[b]);
                } else {
                    assert(next[i] == rows[a]);
                }
            }
            assert forall|i: int, j: int|
                0 <= i < j < next.len() && (#[trigger] next[i]).name is Some implies next[i].name
                != (#[trigger] next[j]).name by {
                let a = if i < pos { i } else { i - 1 };
                let b = if j < pos { j } else { j - 1 };
                if i != pos && j != pos {
                    assert(next[i] == rows[a] && next[j] == rows[b]);
                } else if i == pos {
                    assert(next[j] == rows[b]);
                } else {
                    assert(next[i] == rows[a]);
                }
            }
            assert forall|i: int, j: int| 0 <= i < j < next.len() implies (
            #[trigger] next[i]).created_at >= (#[trigger] next[j]).created_at by {
                let a = if i < pos { i } else { i - 1 };
                let b = if j < pos { j } else { j - 1 };
                if i != pos && j != pos {
                    assert(next[i] == rows[a] && next[j] == rows[b]);
                } else if i == pos {
                    assert(next[j] == rows[b]);
                    if pos < rows.len() {
                        assert(rows[pos as int].created_at <= s.created_at);
                    }
                } else {
                    assert(next[i] == rows[a]);
                }
            }
        }
        Ok(())
    }

    /// The table after the status of the record `id` was set to `status`.
    pub open spec fn spec_with_status(rows: Seq<VmStateView>, id: Seq<char>, status: Status) -> Seq<
        VmStateView,
    > {
        Seq::new(
            rows.len(),
            |i: int|
                if rows[i].id == id {
                    VmStateView { status, ..rows[i] }
                } else {
                    rows[i]
                },
        )
    }

    /// The table after the name of the record `id` was set to `name`.
    pub open spec fn spec_with_name(
        rows: Seq<VmStateView>,
        id: Seq<char>,
        name: Option<Seq<char>>,
    ) -> Seq<VmStateView> {
        Seq::new(
            rows.len(),
            |i: int|
                if rows[i].id == id {
                    VmStateView { name, ..rows[i] }
                } else {
                    rows[i]
                },
        )
    }

    /// Sets the status of the record `id`. Where there is no such record,
    /// nothing changes.
    #[verifier::rlimit(40)]
    pub fn update_status(&mut self, id: &str, status: Status) -> (r: Result<(), Error>)
        requires
            old(self).wf(),
        ensures
            final(self).wf(),
            r is Ok,
            final(self)@ == Self::spec_with_status(old(self)@, id@, status),
    {
        let pos = self.position_of_id(id);
        proof {
            lemma_find_id(self@, id@, 0);
        }
        if pos < self.rows.len() {
            let mut row = self.rows[pos].copy();
            row.status = status;
            self.rows.set(pos, row);
        }
        proof {
            let rows = old(self)@;
            let next = Self::spec_with_status(rows, id@, status);
            assert forall|i: int| 0 <= i < rows.len() implies self@[i] == next[i] by {
                if i != pos {
                    assert(rows[i].id != id@) by {
                        if i < pos {
                        } else {
                            assert(rows[pos as int].id == id@);
                        }
                    }
                }
            }
            assert(self@ =~= next);
        }
        Ok(())
    }

    /// Sets or clears the name of the record `id`. Where there is no such
    /// record, nothing changes. A name that another record has is refused.
    #[verifier::rlimit(40)]
    pub fn update_name(&mut self, id: &str, name: Option<&str>) -> (r: Result<(), Error>)
        requires
            old(self).wf(),
        ensures
            final(self).wf(),
            spec_rename_conflict(
                old(self)@,
                id@,
                match name {
                    Some(n) => Some(n@),
                    None => None,
                },
            ) ==> r is Err && r->Err_0@ == ErrorView::Db("UNIQUE constraint failed: vms.name"@)
                && final(self)@ == old(self)@,
            !spec_rename_conflict(
                old(self)@,
                id@,
                match name {
                    Some(n) => Some(n@),
                    None => None,
                },
            ) ==> r is Ok && final(self)@ == Self::spec_with_name(
                old(self)@,
                id@,
                match name {
                    Some(n) => Some(n@),
                    None => None,
                },
            ),
    {
        let ghost name_view: Option<Seq<char>> = match name {
            Some(n) => Some(n@),
            None => None,
        };
        let pos = self.position_of_id(id);
        proof {
            lemma_find_id(self@, id@, 0);
        }
        if pos >= self.rows.len() {
            proof {
                let rows = old(self)@;
                assert(self@ =~= Self::spec_with_name(rows, id@, name_view));
            }
            return Ok(());
        }
        let new_name: Option<String> = match name {
            Some(n) => {
                let holder = self.position_of_name(n);
                proof {
                    lemma_find_name(self@, n@, 0);
                }
                if holder < self.rows.len() && holder != pos {
                    return Err(Error::Db(String::from_str("UNIQUE constraint failed: vms.name")));
                }
                Some(String::from_str(n))
            },
            None => None,
        };
        let mut row = self.rows[pos].copy();
        row.name = new_name;
        self.rows.set(pos, row);
        proof {
            let rows = old(self)@;
            let next = Self::spec_with_name(rows, id@, name_view);
            assert forall|i: int| 0 <= i < rows.len() implies self@[i] == next[i] by {
                if i != pos {
                    assert(rows[i].id != id@) by {
                        if i < pos {
                        } else {
                            assert(rows[pos as int].id == id@);
                        }
                    }
                }
            }
            assert(self@ =~= next);
            assert forall|i: int, j: int|
                0 <= i < j < next.len() && (#[trigger] next[i]).name is Some implies next[i].name
                != (#[trigger] next[j]).name by {
                assert(next[i].id == rows[i].id && next[j].id == rows[j].id);
                if i == pos || j == pos {
                    let other = if i == pos { j } else { i };
                    assert(next[other] == rows[other]);
                    if name_view is Some && rows[other].name == name_view {
                        lemma_find_name(rows, name_view->Some_0, 0);
                        let holder = spec_find_name(rows, name_view->Some_0, 0);
                        assert(holder <= other);
                        if holder < other {
                            assert(rows[holder].name == rows[other].name);
                        }
                    }
                } else {
                    assert(next[i] == rows[i] && next[j] == rows[j]);
                }
            }
        }
        Ok(())
    }

    /// Removes the record `id`. Where there is no such record, nothing
    /// changes.
    #[verifier::rlimit(40)]
    pub fn delete(&mut self, id: &str) -> (r: Result<(), Error>)
        requires
            old(self).wf(),
        ensures
            final(self).wf(),
            r is Ok,
            spec_find_id(old(self)@, id@, 0) < old(self)@.len() ==> final(self)@ == old(
                self,
            )@.remove(spec_find_id(old(self)@, id@, 0)),
            spec_find_id(old(self)@, id@, 0) >= old(self)@.len() ==> final(self)@ == old(self)@,
            forall|k: int| 0 <= k < final(self)@.len() ==> (#[trigger] final(self)@[k]).id != id@,
    {
        let pos = self.position_of_id(id);
        proof {
            lemma_find_id(self@, id@, 0);
        }
        if pos < self.rows.len() {
            self.rows.remove(pos);
            proof {
                let rows = old(self)@;
                let next = rows.remove(pos as int);
                assert(self@ =~= next);
                assert forall|k: int| 0 <= k < next.len() implies (#[trigger] next[k]).id != id@ by {
                    if k >= pos {
                        assert(next[k] == rows[k + 1]);
                        assert(rows[pos as int].id != rows[k + 1].id);
                    }
                }
                assert forall|i: int, j: int| 0 <= i < j < next.len() implies (
                #[trigger] next[i]).id != (#[trigger] next[j]).id && next[i].created_at
                    >= next[j].created_at && (next[i].name is Some ==> next[i].name
                    != next[j].name) by {
                    let a = if i < pos { i } else { i + 1 };
                    let b = if j < pos { j } else { j + 1 };
                    assert(next[i] == rows[a] && next[j] == rows[b]);
                }
            }
        }
        Ok(())
    }

    /// The record with the name `name`.
    pub fn get_by_name(&self, name: &str) -> (r: Result<Option<VmState>, Error>)
        requires
            self.wf(),
        ensures
            r is Ok,
            spec_find_name(self@, name@, 0) < self@.len() ==> r->Ok_0 is Some && r->Ok_0->Some_0@
                == self@[spec_find_name(self@, name@, 0)],
            spec_find_name(self@, name@, 0) >= self@.len() ==> r->Ok_0 is None,
    {
        let pos = self.position_of_name(name);
        if pos < self.rows.len() {
            Ok(Some(self.rows[pos].copy()))
        } else {
            Ok(None)
        }
    }

    /// The record that `prefix` stands for: the record with this id, or else
    /// the one record whose id begins with it.
    #[verifier::rlimit(40)]
    pub fn get_by_id_prefix(&self, prefix: &str) -> (r: Result<VmState, Error>)
        requires
            self.wf(),
        ensures
            match spec_resolve_prefix(self@, prefix@) {
                Ok(i) => 0 <= i < self@.len() && r is Ok && r->Ok_0@ == self@[i],
                Err(e) => r is Err && r->Err_0@ == e,
            },
    {
        let exact = self.position_of_id(prefix);
        if exact < self.rows.len() {
            return Ok(self.rows[exact].copy());
        }
        let n = self.rows.len();
        let mut count: usize = 0;
        let mut first: usize = n;
        let mut i: usize = n;
        while i > 0
            invariant
                n == self.rows@.len(),
                i <= n,
                self@ == rows_views(self.rows@),
                count == spec_count_prefix(self@, prefix@, i as int),
                count <= n - i,
                first == spec_find_prefix(self@, prefix@, i as int),
            decreases i,
        {
            i -= 1;
            if starts_with(self.rows[i].id.as_str(), prefix) {
                count += 1;
                first = i;
            }
        }
        proof {
            lemma_find_prefix(self@, prefix@, 0);
        }
        if count == 0 {
            Err(Error::NotFound(concat3("no VM matching '", prefix, "'")))
        } else if count == 1 {
            Ok(self.rows[first].copy())
        } else {
            let mut msg = concat3("prefix '", prefix, "' matches ");
            let digits = decimal(count as u64);
            msg.append(digits.as_str());
            msg.append(" VMs");
            Err(Error::Ambiguous(msg))
        }
    }

    /// All records, newest first.
    pub fn list(&self) -> (r: Result<Vec<VmState>, Error>)
        requires
            self.wf(),
        ensures
            r is Ok,
            rows_views(r->Ok_0@) == self@,
    {
        let mut out: Vec<VmState> = Vec::new();
        let mut i: usize = 0;
        while i < self.rows.len()
            invariant
                i <= self.rows@.len(),
                out@.len() == i,
                forall|k: int| 0 <= k < i ==> (#[trigger] out@[k])@ == self.rows@[k]@,
            decreases self.rows@.len() - i,
        {
            out.push(self.rows[i].copy());
            i += 1;
        }
        assert(rows_views(out@) =~= self@);
        Ok(out)
    }
}

/// Looking a record up by the beginning of its id. Where exactly one id
/// begins with `prefix`, that record is found. Where none does, the answer is
/// "not found". Where several do and none is `prefix` itself, the answer is
/// "ambiguous".
#[verifier::rlimit(40)]
pub proof fn lemma_resolve_prefix(rows: Seq<VmStateView>, prefix: Seq<char>)
    requires
        spec_wf_rows(rows),
    ensures
        forall|i: int|
            0 <= i < rows.len() && spec_starts_with(#[trigger] rows[i].id, prefix) && (forall|
                j: int,
            |
                0 <= j < rows.len() && j != i ==> !spec_starts_with(#[trigger] rows[j].id, prefix))
                ==> spec_resolve_prefix(rows, prefix) == Ok::<int, ErrorView>(i),
        (forall|j: int| 0 <= j < rows.len() ==> !spec_starts_with(#[trigger] rows[j].id, prefix))
            ==> spec_resolve_prefix(rows, prefix) is Err && spec_resolve_prefix(
            rows,
            prefix,
        )->Err_0 is NotFound,
        forall|i: int, j: int|
            0 <= i < j < rows.len() && spec_starts_with(#[trigger] rows[i].id, prefix)
                && spec_starts_with(#[trigger] rows[j].id, prefix) && (forall|k: int|
                0 <= k < rows.len() ==> (#[trigger] rows[k]).id != prefix)
                ==> spec_resolve_prefix(rows, prefix) is Err && spec_resolve_prefix(
                rows,
                prefix,
            )->Err_0 is Ambiguous,
{
    lemma_find_id(rows, prefix, 0);
    lemma_find_prefix(rows, prefix, 0);
    let first = spec_find_prefix(rows, prefix, 0);
    if first < rows.len() {
        lemma_find_prefix(rows, prefix, first + 1);
    }
    let exact = spec_find_id(rows, prefix, 0);
    if exact < rows.len() {
        assert(spec_starts_with(rows[exact].id, prefix)) by {
            assert(rows[exact].id.take(prefix.len() as int) =~= prefix);
        }
    }
    if forall|j: int| 0 <= j < rows.len() ==> !spec_starts_with(#[trigger] rows[j].id, prefix) {
        assert(exact == rows.len());
        assert(first == rows.len());
    }
    assert forall|i: int|
        0 <= i < rows.len() && spec_starts_with(#[trigger] rows[i].id, prefix) && (forall|j: int|
            0 <= j < rows.len() && j != i ==> !spec_starts_with(
                #[trigger] rows[j].id,
                prefix,
            )) implies spec_resolve_prefix(rows, prefix) == Ok::<int, ErrorView>(i) by {
        assert(first == i);
        let second = spec_find_prefix(rows, prefix, first + 1);
        assert(second == rows.len());
        let exact = spec_find_id(rows, prefix, 0);
        if exact < rows.len() {
            assert(spec_starts_with(rows[exact].id, prefix)) by {
                assert(rows[exact].id.take(prefix.len() as int) =~= prefix);
            }
        }
    }
    assert forall|i: int, j: int|
        0 <= i < j < rows.len() && spec_starts_with(#[trigger] rows[i].id, prefix)
            && spec_starts_with(#[trigger] rows[j].id, prefix) && (forall|k: int|
            0 <= k < rows.len() ==> (#[trigger] rows[k]).id != prefix) implies spec_resolve_prefix(
        rows,
        prefix,
    ) is Err && spec_resolve_prefix(rows, prefix)->Err_0 is Ambiguous by {
        assert(first <= i);
        let second = spec_find_prefix(rows, prefix, first + 1);
        assert(second <= j);
    }
}

} // verus!
