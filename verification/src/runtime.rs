//! The life of the VMs: spawning, reconciling, renaming, removing, and the
//! verbs of a handle.
//!
//! The runtime decides; it starts no process and sends no signal. What is to
//! be done to the world it hands out as [`HostAction`]s, and what the world
//! did it is told: whether a process is alive, which process id a child got.

use vstd::prelude::*;
use vstd::string::*;
use crate::disk::DiskManager;
use crate::error::{Error, ErrorView, IoKind};
use crate::jail::{JailConfig, JailConfigView};
use crate::proto::message::AGENT_PORT;
use crate::state::{
    lemma_find_id, lemma_find_name, rows_views, spec_find_id, spec_find_name, spec_resolve_prefix,
    spec_wf_rows, vsock_views, StateDb, Status, VirtioFsView, VmConfig, VmConfigView, VmState,
    VmStateView, VsockPort, VsockPortView,
};
use crate::text::{
    clone_opt_string, concat2, concat3, decimal_signed, hex_padded, opt_string_view, path_join,
    spec_decimal_signed, spec_hex_padded, spec_path_join, strings_view,
};
use crate::vm::{VmBuilder, VmBuilderView};

verus! {

/// Digits of the identifier of a VM.
pub const ID_WIDTH: usize = 12;

/// Seconds that a stop waits for the VM before it kills it.
pub const STOP_TIMEOUT_SECS: u64 = 10;

/// Seconds that a spawn waits for the guest agent.
pub const READY_TIMEOUT_SECS: u64 = 5;

/// Something to be done to the world.
#[derive(Debug, Clone)]
pub enum HostAction {
    /// Ask the guest agent to shut down; a failure is ignored.
    Shutdown,
    /// Ask the guest agent to freeze its filesystems; a failure is ignored.
    Quiesce,
    /// Ask the guest agent to thaw its filesystems; a failure is ignored.
    Thaw,
    /// Kill the VM process.
    Kill,
    /// Suspend the VM process.
    Suspend,
    /// Let the VM process continue.
    Continue,
    /// Send a signal to the VM process.
    Signal(i32),
    /// Remove the Unix socket at this path.
    RemoveSocket(String),
    /// Remove the overlay of the VM with this id.
    RemoveOverlay(String),
}

/// An action as plain data.
pub enum HostActionView {
    /// Ask the guest agent to shut down.
    Shutdown,
    /// Ask the guest agent to freeze its filesystems.
    Quiesce,
    /// Ask the guest agent to thaw its filesystems.
    Thaw,
    /// Kill the VM process.
    Kill,
    /// Suspend the VM process.
    Suspend,
    /// Let the VM process continue.
    Continue,
    /// Send a signal to the VM process.
    Signal(i32),
    /// Remove the Unix socket at this path.
    RemoveSocket(Seq<char>),
    /// Remove the overlay of the VM with this id.
    RemoveOverlay(Seq<char>),
}

impl View for HostAction {
    type V = HostActionView;

    open spec fn view(&self) -> HostActionView {
        match self {
            HostAction::Shutdown => HostActionView::Shutdown,
            HostAction::Quiesce => HostActionView::Quiesce,
            HostAction::Thaw => HostActionView::Thaw,
            HostAction::Kill => HostActionView::Kill,
            HostAction::Suspend => HostActionView::Suspend,
            HostAction::Continue => HostActionView::Continue,
            HostAction::Signal(s) => HostActionView::Signal(*s),
            HostAction::RemoveSocket(p) => HostActionView::RemoveSocket(p@),
            HostAction::RemoveOverlay(id) => HostActionView::RemoveOverlay(id@),
        }
    }
}

/// The actions as plain data.
pub open spec fn action_views(actions: Seq<HostAction>) -> Seq<HostActionView> {
    Seq::new(actions.len(), |i: int| actions[i]@)
}

/// What a caller asks of a VM.
#[derive(Debug, Clone, Copy, PartialEq, Eq, Structural)]
pub enum Verb {
    /// Freeze the filesystems and suspend the process.
    Pause,
    /// Let the process continue and thaw the filesystems.
    Resume,
    /// Shut the VM down, and kill it if that takes too long.
    Stop,
    /// Kill the VM.
    Kill,
    /// Wait until the VM is gone.
    Wait,
}

/// The status that a verb leads to, or nothing where the verb is refused:
/// only a running VM is paused, only a paused one is resumed, and stopping,
/// killing and waiting end in the stopped state.
pub open spec fn spec_next_status(status: Status, verb: Verb) -> Option<Status> {
    match verb {
        Verb::Pause => if status == Status::Running {
            Some(Status::Paused)
        } else {
            None
        },
        Verb::Resume => if status == Status::Paused {
            Some(Status::Running)
        } else {
            None
        },
        _ => Some(Status::Stopped),
    }
}

/// The status of a VM once it is known whether its process is alive: a VM
/// that runs or is paused, and whose process is gone, is stopped.
pub open spec fn spec_reconcile(status: Status, alive: bool) -> Status {
    if (status == Status::Running || status == Status::Paused) && !alive {
        Status::Stopped
    } else {
        status
    }
}

/// The ways through the life of a VM. From the running state a VM gets to the
/// paused and to the stopped state and nowhere else, from the paused state to
/// the running and to the stopped state and nowhere else, and from the
/// stopped state nowhere: neither a verb nor a look at its process brings a
/// stopped VM back.
pub proof fn lemma_lifecycle(status: Status, verb: Verb, alive: bool)
    ensures
        status == Status::Running ==> (spec_next_status(status, verb) matches Some(next) ==> next
            == Status::Paused || next == Status::Stopped),
        status == Status::Paused ==> (spec_next_status(status, verb) matches Some(next) ==> next
            == Status::Running || next == Status::Stopped),
        status == Status::Stopped ==> (spec_next_status(status, verb) matches Some(next) ==> next
            == Status::Stopped),
        spec_next_status(Status::Running, Verb::Pause) == Some(Status::Paused),
        spec_next_status(Status::Paused, Verb::Resume) == Some(Status::Running),
        spec_next_status(Status::Running, Verb::Stop) == Some(Status::Stopped),
        spec_next_status(Status::Paused, Verb::Stop) == Some(Status::Stopped),
        spec_reconcile(Status::Stopped, alive) == Status::Stopped,
        spec_reconcile(status, alive) == status || (spec_reconcile(status, alive)
            == Status::Stopped && (status == Status::Running || status == Status::Paused)),
{
}

/// Says what the status of a VM is, once it is known whether its process is
/// alive.
pub fn reconcile(status: Status, alive: bool) -> (r: Status)
    ensures
        r == spec_reconcile(status, alive),
{
    match status {
        Status::Running | Status::Paused => if alive {
            status
        } else {
            Status::Stopped
        },
        _ => status,
    }
}

/// The identifier of a VM, made from a number that the caller drew: the number
/// in hexadecimal, at least [`ID_WIDTH`] digits long.
pub fn format_id(seed: u64) -> (r: String)
    ensures
        r@ == spec_hex_padded(seed as nat, ID_WIDTH as nat),
{
    hex_padded(seed, ID_WIDTH)
}

/// The configuration with which a VM is spawned: the settings of the
/// builder, the flag for automatic removal, and one more vsock port, which
/// ties the port of the guest agent to the socket of the VM, the guest
/// listening.
pub open spec fn spec_finalize(b: VmBuilderView, auto_remove: bool, socket: Seq<char>) -> VmConfigView {
    VmConfigView {
        auto_remove,
        vsock_ports: b.vsock_ports.push(
            VsockPortView { port: AGENT_PORT, path: socket, listen: true },
        ),
        ..b.to_config()
    }
}

/// The configuration once the VM has an overlay of its own: the overlay is
/// the root disk, in the format `qcow2`, and the base disk is named no more.
pub open spec fn spec_with_overlay(c: VmConfigView, overlay: Seq<char>) -> VmConfigView {
    VmConfigView { root_disk: Some(overlay), disk_format: "qcow2"@, base_disk: None, ..c }
}

/// What the sandbox lets the VM process reach: the root of the VM, the
/// sockets directory, and the shared directories.
pub open spec fn spec_jail_config(
    c: VmConfigView,
    socks_dir: Seq<char>,
    watchdog_fd: Option<i32>,
) -> JailConfigView {
    JailConfigView {
        rootfs: c.rootfs,
        root_disk: c.root_disk,
        socks_dir,
        virtiofs_paths: Seq::new(c.virtiofs.len(), |i: int| c.virtiofs[i].path),
        watchdog_fd,
    }
}

/// What is settled before the VM process is started.
#[derive(Debug)]
pub struct SpawnPlan {
    /// Identifier of the VM.
    pub id: String,
    /// Name of the VM.
    pub name: Option<String>,
    /// Image that the VM is made from.
    pub image: Option<String>,
    /// Unix socket that will lead to the guest agent.
    pub socket: String,
    /// File through which the shim gets the configuration.
    pub config_path: String,
    /// The configuration.
    pub config: VmConfig,
}

/// How the wait for the guest agent ended.
#[derive(Debug, Clone, Copy, PartialEq, Eq, Structural)]
pub enum ReadyEvent {
    /// The agent answered the handshake.
    AgentReady,
    /// The VM process exited first.
    ProcessExited,
    /// Neither happened in time.
    TimedOut,
}

/// What a spawn reports of the wait for the guest agent. Where the process
/// exited, the message names the console log, if one is configured.
pub open spec fn spec_ready_outcome(event: ReadyEvent, pid: i32, console_output: Option<Seq<char>>) -> Result<
    (),
    ErrorView,
> {
    match event {
        ReadyEvent::AgentReady => Ok(()),
        ReadyEvent::ProcessExited => Err(
            ErrorView::Io(
                IoKind::BrokenPipe,
                "VM process (pid "@ + spec_decimal_signed(pid as int)
                    + ") exited before guest agent became ready"@ + (match console_output {
                    Some(path) => "\n  console log: "@ + path,
                    None => Seq::empty(),
                }),
            ),
        ),
        ReadyEvent::TimedOut => Err(
            ErrorView::Io(IoKind::TimedOut, "guest agent did not become ready"@),
        ),
    }
}

/// Says what a spawn reports of the wait for the guest agent.
pub fn wait_ready(event: ReadyEvent, pid: i32, console_output: Option<&str>) -> (r: Result<
    (),
    Error,
>)
    ensures
        match spec_ready_outcome(event, pid, crate::sys::opt_str_view(console_output)) {
            Ok(()) => r is Ok,
            Err(e) => r is Err && r->Err_0@ == e,
        },
{
    match event {
        ReadyEvent::AgentReady => Ok(()),
        ReadyEvent::ProcessExited => {
            let mut msg = concat3(
                "VM process (pid ",
                decimal_signed(pid as i64).as_str(),
                ") exited before guest agent became ready",
            );
            match console_output {
                Some(path) => {
                    let hint = concat2("\n  console log: ", path);
                    msg.append(hint.as_str());
                },
                None => {
                    assert(msg@ + Seq::<char>::empty() =~= msg@);
                },
            }
            Err(Error::Io(IoKind::BrokenPipe, msg))
        },
        ReadyEvent::TimedOut => Err(
            Error::Io(IoKind::TimedOut, String::from_str("guest agent did not become ready")),
        ),
    }
}

impl SpawnPlan {
    /// The base image over which the VM gets an overlay of its own, if the
    /// configuration asks for one.
    pub fn overlay_base(&self) -> (r: Option<&str>)
        ensures
            crate::sys::opt_str_view(r) == self.config@.base_disk,
    {
        match &self.config.base_disk {
            Some(b) => Some(b.as_str()),
            None => None,
        }
    }

    /// Puts the overlay at `overlay` in the place of the base disk.
    pub fn use_overlay(&mut self, overlay: &str)
        ensures
            final(self).config@ == spec_with_overlay(old(self).config@, overlay@),
            final(self).id == old(self).id,
            final(self).name == old(self).name,
            final(self).image == old(self).image,
            final(self).socket == old(self).socket,
            final(self).config_path == old(self).config_path,
    {
        self.config.root_disk = Some(String::from_str(overlay));
        self.config.disk_format = String::from_str("qcow2");
        self.config.base_disk = None;
    }

    /// What the sandbox lets the VM process reach.
    pub fn jail_config(&self, socks_dir: &str, watchdog_fd: Option<i32>) -> (r: JailConfig)
        ensures
            r@ == spec_jail_config(self.config@, socks_dir@, watchdog_fd),
    {
        let mut paths: Vec<String> = Vec::new();
        let mut i: usize = 0;
        while i < self.config.virtiofs.len()
            invariant
                i <= self.config.virtiofs@.len(),
                paths@.len() == i,
                forall|k: int| 0 <= k < i ==> (#[trigger] paths@[k])@ == self.config.virtiofs@[k].path@,
            decreases self.config.virtiofs@.len() - i,
        {
            paths.push(self.config.virtiofs[i].path.clone());
            i += 1;
        }
        let r = JailConfig {
            rootfs: clone_opt_string(&self.config.rootfs),
            root_disk: clone_opt_string(&self.config.root_disk),
            socks_dir: String::from_str(socks_dir),
            virtiofs_paths: paths,
            watchdog_fd,
        };
        assert(r@.virtiofs_paths =~= spec_jail_config(
            self.config@,
            socks_dir@,
            watchdog_fd,
        ).virtiofs_paths);
        r
    }
}

/// What a caller holds of one VM: a snapshot of its record.
#[derive(Debug)]
pub struct VmHandle {
    state: VmState,
}

/// The error for a verb that the status of the VM does not allow.
pub open spec fn spec_refused(id: Seq<char>, what: Seq<char>) -> ErrorView {
    ErrorView::Io(IoKind::InvalidInput, "VM "@ + id + what)
}

fn refused(id: &str, what: &str) -> (r: Error)
    ensures
        r@ == spec_refused(id@, what@),
{
    Error::Io(IoKind::InvalidInput, concat3("VM ", id, what))
}

/// The table after the record `id` left it.
pub open spec fn spec_without_id(rows: Seq<VmStateView>, id: Seq<char>) -> Seq<VmStateView> {
    if spec_find_id(rows, id, 0) < rows.len() {
        rows.remove(spec_find_id(rows, id, 0))
    } else {
        rows
    }
}

/// What is to go from the disk with the VM: its socket and its overlay.
pub open spec fn spec_cleanup(state: VmStateView) -> Seq<HostActionView> {
    seq![HostActionView::RemoveSocket(state.socket), HostActionView::RemoveOverlay(state.id)]
}

fn cleanup(state: &VmState) -> (r: Vec<HostAction>)
    ensures
        action_views(r@) == spec_cleanup(state@),
{
    let mut actions: Vec<HostAction> = Vec::new();
    actions.push(HostAction::RemoveSocket(state.socket.clone()));
    actions.push(HostAction::RemoveOverlay(state.id.clone()));
    assert(action_views(actions@) =~= spec_cleanup(state@));
    actions
}

impl VmHandle {
    /// The snapshot of the record.
    pub closed spec fn spec_state(&self) -> VmStateView {
        self.state@
    }

    /// The handle for the record `state`.
    pub fn new(state: VmState) -> (r: Self)
        ensures
            r.spec_state() == state@,
    {
        VmHandle { state }
    }

    /// The snapshot of the record.
    pub fn state(&self) -> (r: &VmState)
        ensures
            r@ == self.spec_state(),
    {
        &self.state
    }

    /// Records that the VM is gone. A VM that is removed automatically leaves
    /// the registry at once, and its socket and overlay are to go with it; any
    /// other VM is recorded as stopped.
    #[verifier::rlimit(40)]
    pub fn mark_stopped(&mut self, db: &mut StateDb) -> (r: Result<Vec<HostAction>, Error>)
        requires
            old(db).wf(),
        ensures
            final(db).wf(),
            r is Ok,
            final(self).spec_state() == (VmStateView {
                status: Status::Stopped,
                ..old(self).spec_state()
            }),
            old(self).spec_state().config.auto_remove ==> action_views(r->Ok_0@) == spec_cleanup(
                old(self).spec_state(),
            ) && final(db)@ == spec_without_id(old(db)@, old(self).spec_state().id) && spec_find_id(
                final(db)@,
                old(self).spec_state().id,
                0,
            ) == final(db)@.len(),
            !old(self).spec_state().config.auto_remove ==> r->Ok_0@.len() == 0 && final(db)@
                == StateDb::spec_with_status(
                old(db)@,
                old(self).spec_state().id,
                Status::Stopped,
            ),
    {
        self.state.status = Status::Stopped;
        if self.state.config.auto_remove {
            let actions = cleanup(&self.state);
            let _ = db.delete(self.state.id.as_str());
            proof {
                lemma_find_id(db@, self.state.id@, 0);
            }
            Ok(actions)
        } else {
            let _ = db.update_status(self.state.id.as_str(), Status::Stopped);
            Ok(Vec::new())
        }
    }

    /// Pauses the VM, which must run: its filesystems are to be frozen and
    /// its process suspended, in this order, and it is recorded as paused.
    pub fn pause(&mut self, db: &mut StateDb) -> (r: Result<Vec<HostAction>, Error>)
        requires
            old(db).wf(),
        ensures
            final(db).wf(),
            match spec_next_status(old(self).spec_state().status, Verb::Pause) {
                Some(next) => {
                    &&& r is Ok
                    &&& action_views(r->Ok_0@) == seq![
                        HostActionView::Quiesce,
                        HostActionView::Suspend,
                    ]
                    &&& final(self).spec_state() == (VmStateView {
                        status: next,
                        ..old(self).spec_state()
                    })
                    &&& final(db)@ == StateDb::spec_with_status(
                        old(db)@,
                        old(self).spec_state().id,
                        next,
                    )
                },
                None => {
                    &&& r is Err
                    &&& r->Err_0@ == spec_refused(old(self).spec_state().id, " is not running"@)
                    &&& final(self).spec_state() == old(self).spec_state()
                    &&& final(db)@ == old(db)@
                },
            },
    {
        match self.state.status {
            Status::Running => {},
            _ => {
                return Err(refused(self.state.id.as_str(), " is not running"));
            },
        }
        let mut actions: Vec<HostAction> = Vec::new();
        actions.push(HostAction::Quiesce);
        actions.push(HostAction::Suspend);
        assert(action_views(actions@) =~= seq![HostActionView::Quiesce, HostActionView::Suspend]);
        self.state.status = Status::Paused;
        let _ = db.update_status(self.state.id.as_str(), Status::Paused);
        Ok(actions)
    }

    /// Resumes the VM, which must be paused: its process is to continue and
    /// its filesystems are to be thawed, in this order, and it is recorded as
    /// running.
    pub fn resume(&mut self, db: &mut StateDb) -> (r: Result<Vec<HostAction>, Error>)
        requires
            old(db).wf(),
        ensures
            final(db).wf(),
            match spec_next_status(old(self).spec_state().status, Verb::Resume) {
                Some(next) => {
                    &&& r is Ok
                    &&& action_views(r->Ok_0@) == seq![
                        HostActionView::Continue,
                        HostActionView::Thaw,
                    ]
                    &&& final(self).spec_state() == (VmStateView {
                        status: next,
                        ..old(self).spec_state()
                    })
                    &&& final(db)@ == StateDb::spec_with_status(
                        old(db)@,
                        old(self).spec_state().id,
                        next,
                    )
                },
                None => {
                    &&& r is Err
                    &&& r->Err_0@ == spec_refused(old(self).spec_state().id, " is not paused"@)
                    &&& final(self).spec_state() == old(self).spec_state()
                    &&& final(db)@ == old(db)@
                },
            },
    {
        match self.state.status {
            Status::Paused => {},
            _ => {
                return Err(refused(self.state.id.as_str(), " is not paused"));
            },
        }
        let mut actions: Vec<HostAction> = Vec::new();
        actions.push(HostAction::Continue);
        actions.push(HostAction::Thaw);
        assert(action_views(actions@) =~= seq![HostActionView::Continue, HostActionView::Thaw]);
        self.state.status = Status::Running;
        let _ = db.update_status(self.state.id.as_str(), Status::Running);
        Ok(actions)
    }

    /// The action that begins a stop: the guest agent is asked to shut down.
    /// The caller then waits for the process, for [`STOP_TIMEOUT_SECS`]
    /// seconds unless told otherwise, and reports to [`VmHandle::stop_timeout`].
    pub fn stop(&self) -> (r: HostAction)
        ensures
            r@ == HostActionView::Shutdown,
    {
        HostAction::Shutdown
    }

    /// Ends a stop. `exited` says whether the process was gone in time. If it
    /// was not, it is to be killed. Either way the VM is recorded as gone.
    #[verifier::rlimit(40)]
    pub fn stop_timeout(&mut self, db: &mut StateDb, exited: bool) -> (r: Result<
        Vec<HostAction>,
        Error,
    >)
        requires
            old(db).wf(),
        ensures
            final(db).wf(),
            r is Ok,
            final(self).spec_state() == (VmStateView {
                status: Status::Stopped,
                ..old(self).spec_state()
            }),
            action_views(r->Ok_0@) == (if exited {
                Seq::<HostActionView>::empty()
            } else {
                seq![HostActionView::Kill]
            }) + (if old(self).spec_state().config.auto_remove {
                spec_cleanup(old(self).spec_state())
            } else {
                Seq::empty()
            }),
            old(self).spec_state().config.auto_remove ==> final(db)@ == spec_without_id(
                old(db)@,
                old(self).spec_state().id,
            ),
            !old(self).spec_state().config.auto_remove ==> final(db)@
                == StateDb::spec_with_status(
                old(db)@,
                old(self).spec_state().id,
                Status::Stopped,
            ),
    {
        let mut actions: Vec<HostAction> = Vec::new();
        if !exited {
            actions.push(HostAction::Kill);
        }
        let ghost first = action_views(actions@);
        match self.mark_stopped(db) {
            Ok(rest) => {
                let mut rest = rest;
                let ghost tail = action_views(rest@);
                actions.append(&mut rest);
                assert(action_views(actions@) =~= first + tail);
                assert(first =~= (if exited {
                    Seq::<HostActionView>::empty()
                } else {
                    seq![HostActionView::Kill]
                }));
                assert(!old(self).spec_state().config.auto_remove ==> tail =~= Seq::empty());
                Ok(actions)
            },
            Err(e) => Err(e),
        }
    }

    /// Kills the VM: its process is to be killed, and it is recorded as gone.
    pub fn kill(&mut self, db: &mut StateDb) -> (r: Result<Vec<HostAction>, Error>)
        requires
            old(db).wf(),
        ensures
            final(db).wf(),
            r is Ok,
            final(self).spec_state() == (VmStateView {
                status: Status::Stopped,
                ..old(self).spec_state()
            }),
            action_views(r->Ok_0@) == seq![HostActionView::Kill] + (if old(
                self,
            ).spec_state().config.auto_remove {
                spec_cleanup(old(self).spec_state())
            } else {
                Seq::empty()
            }),
            old(self).spec_state().config.auto_remove ==> final(db)@ == spec_without_id(
                old(db)@,
                old(self).spec_state().id,
            ),
            !old(self).spec_state().config.auto_remove ==> final(db)@
                == StateDb::spec_with_status(
                old(db)@,
                old(self).spec_state().id,
                Status::Stopped,
            ),
    {
        self.stop_timeout(db, false)
    }

    /// Ends a wait: the process is gone, and the VM is recorded as gone.
    pub fn wait(&mut self, db: &mut StateDb) -> (r: Result<Vec<HostAction>, Error>)
        requires
            old(db).wf(),
        ensures
            final(db).wf(),
            r is Ok,
            final(self).spec_state() == (VmStateView {
                status: Status::Stopped,
                ..old(self).spec_state()
            }),
            action_views(r->Ok_0@) == (if old(self).spec_state().config.auto_remove {
                spec_cleanup(old(self).spec_state())
            } else {
                Seq::empty()
            }),
            old(self).spec_state().config.auto_remove ==> final(db)@ == spec_without_id(
                old(db)@,
                old(self).spec_state().id,
            ),
            !old(self).spec_state().config.auto_remove ==> final(db)@
                == StateDb::spec_with_status(
                old(db)@,
                old(self).spec_state().id,
                Status::Stopped,
            ),
    {
        match self.mark_stopped(db) {
            Ok(actions) => {
                assert(!old(self).spec_state().config.auto_remove ==> action_views(actions@)
                    =~= Seq::empty());
                Ok(actions)
            },
            Err(e) => Err(e),
        }
    }

    /// The action that sends the signal `sig` to the VM process.
    pub fn signal(&self, sig: i32) -> (r: HostAction)
        ensures
            r@ == HostActionView::Signal(sig),
    {
        HostAction::Signal(sig)
    }
}

/// The record that a name or an id stands for: the record with this name,
/// or else the record that [`spec_resolve_prefix`] finds for it as an id.
pub open spec fn spec_lookup(rows: Seq<VmStateView>, id_or_name: Seq<char>) -> Result<
    int,
    ErrorView,
> {
    if spec_find_name(rows, id_or_name, 0) < rows.len() {
        Ok(spec_find_name(rows, id_or_name, 0))
    } else {
        spec_resolve_prefix(rows, id_or_name)
    }
}

/// The error for a name that another VM has.
pub open spec fn spec_name_taken(name: Seq<char>) -> ErrorView {
    ErrorView::Ambiguous("a VM named '"@ + name + "' already exists"@)
}

fn name_taken(name: &str) -> (r: Error)
    ensures
        r@ == spec_name_taken(name@),
{
    Error::Ambiguous(concat3("a VM named '", name, "' already exists"))
}

/// The records that a listing keeps, and the actions for those that it drops.
/// Each record is reconciled with the life of its process: `dead` holds the
/// process ids that are gone. A record that is stopped and is removed
/// automatically is dropped, and its socket and overlay are to go.
pub open spec fn spec_list(rows: Seq<VmStateView>, dead: Seq<i32>) -> (
    Seq<VmStateView>,
    Seq<HostActionView>,
)
    decreases rows.len(),
{
    if rows.len() == 0 {
        (Seq::empty(), Seq::empty())
    } else {
        let (kept, actions) = spec_list(rows.drop_last(), dead);
        let row = rows.last();
        let status = spec_reconcile(row.status, !dead.contains(row.pid));
        if status == Status::Stopped && row.config.auto_remove {
            (kept, actions + spec_cleanup(row))
        } else {
            (kept.push(VmStateView { status, ..row }), actions)
        }
    }
}

/// The runtime: the registry, the directory of the sockets, and the disks.
#[derive(Debug)]
pub struct Runtime {
    /// The registry of the VMs.
    pub db: StateDb,
    /// Directory of the Unix sockets and of the configuration files.
    pub socks_dir: String,
    /// The disks.
    pub disk: DiskManager,
}

fn is_dead(dead: &[i32], pid: i32) -> (r: bool)
    ensures
        r == dead@.contains(pid),
{
    let mut i: usize = 0;
    while i < dead.len()
        invariant
            i <= dead@.len(),
            forall|k: int| 0 <= k < i ==> dead@[k] != pid,
        decreases dead@.len() - i,
    {
        if dead[i] == pid {
            return true;
        }
        i += 1;
    }
    false
}

impl Runtime {
    /// What holds of the runtime at all times.
    pub open spec fn wf(&self) -> bool {
        self.db.wf()
    }

    /// The runtime under `data_dir`, with an empty registry. It touches no
    /// file: the caller creates the directories and brings the records in.
    pub fn new(data_dir: &str) -> (r: Self)
        ensures
            r.wf(),
            r.db@ == Seq::<VmStateView>::empty(),
            r.socks_dir@ == spec_path_join(data_dir@, "socks"@),
            r.disk.spec_bases_dir() == spec_path_join(
                spec_path_join(data_dir@, "disks"@),
                "bases"@,
            ),
            r.disk.spec_vms_dir() == spec_path_join(spec_path_join(data_dir@, "disks"@), "vms"@),
    {
        Runtime {
            db: StateDb::new(),
            socks_dir: path_join(data_dir, "socks"),
            disk: DiskManager::new(data_dir),
        }
    }

    /// File of the registry under `data_dir`.
    pub fn db_path(data_dir: &str) -> (r: String)
        ensures
            r@ == spec_path_join(data_dir@, "bux.db"@),
    {
        path_join(data_dir, "bux.db")
    }

    /// The disks.
    pub fn disk(&self) -> (r: &DiskManager)
        ensures
            *r == self.disk,
    {
        &self.disk
    }

    /// Settles what a new VM is to be, before its process is started: its id,
    /// made from `seed`, its socket and configuration file in the sockets
    /// directory, and its configuration. A name that another VM has is
    /// refused.
    #[verifier::rlimit(40)]
    pub fn spawn(
        &self,
        builder: &VmBuilder,
        image: Option<String>,
        name: Option<String>,
        auto_remove: bool,
        seed: u64,
    ) -> (r: Result<SpawnPlan, Error>)
        requires
            self.wf(),
        ensures
            if name is Some && spec_find_name(self.db@, name->Some_0@, 0) < self.db@.len() {
                r is Err && r->Err_0@ == spec_name_taken(name->Some_0@)
            } else {
                let id = spec_hex_padded(seed as nat, ID_WIDTH as nat);
                &&& r is Ok
                &&& r->Ok_0.id@ == id
                &&& r->Ok_0.name == name
                &&& r->Ok_0.image == image
                &&& r->Ok_0.socket@ == spec_path_join(self.socks_dir@, id + ".sock"@)
                &&& r->Ok_0.config_path@ == spec_path_join(self.socks_dir@, id + ".json"@)
                &&& r->Ok_0.config@ == spec_finalize(builder@, auto_remove, r->Ok_0.socket@)
            },
    {
        if let Some(n) = &name {
            match self.db.get_by_name(n.as_str()) {
                Ok(Some(_)) => {
                    return Err(name_taken(n.as_str()));
                },
                _ => {},
            }
        }
        let id = format_id(seed);
        let socket = path_join(self.socks_dir.as_str(), concat2(id.as_str(), ".sock").as_str());
        let config_path = path_join(
            self.socks_dir.as_str(),
            concat2(id.as_str(), ".json").as_str(),
        );
        let mut config = builder.to_config();
        let ghost before = config@;
        config.auto_remove = auto_remove;
        config.vsock_ports.push(VsockPort { port: AGENT_PORT, path: socket.clone(), listen: true });
        proof {
            assert(config@.vsock_ports =~= before.vsock_ports.push(
                VsockPortView { port: AGENT_PORT, path: socket@, listen: true },
            ));
        }
        Ok(SpawnPlan { id, name, image, socket, config_path, config })
    }

    /// Records the VM of `plan`, whose process is `pid`, as running since
    /// `now`, and hands out its handle.
    pub fn register(&mut self, plan: SpawnPlan, pid: i32, now: u64) -> (r: Result<VmHandle, Error>)
        requires
            old(self).wf(),
        ensures
            final(self).wf(),
            final(self).socks_dir == old(self).socks_dir,
            final(self).disk == old(self).disk,
            ({
                let state = VmStateView {
                    id: plan.id@,
                    name: opt_string_view(plan.name),
                    pid,
                    image: opt_string_view(plan.image),
                    socket: plan.socket@,
                    status: Status::Running,
                    config: plan.config@,
                    created_at: now,
                };
                match crate::state::spec_insert_conflict(old(self).db@, state) {
                    Some(e) => r is Err && r->Err_0@ == e && final(self).db@ == old(self).db@,
                    None => r is Ok && r->Ok_0.spec_state() == state && final(self).db@ == old(
                        self,
                    ).db@.insert(crate::state::spec_insert_pos(old(self).db@, now, 0), state),
                }
            }),
    {
        let state = VmState {
            id: plan.id,
            name: plan.name,
            pid,
            image: plan.image,
            socket: plan.socket,
            status: Status::Running,
            config: plan.config,
            created_at: now,
        };
        match self.db.insert(&state) {
            Ok(()) => Ok(VmHandle::new(state)),
            Err(e) => Err(e),
        }
    }

    /// The record that a name, an id or the beginning of an id stands for.
    pub fn lookup(&self, id_or_name: &str) -> (r: Result<VmState, Error>)
        requires
            self.wf(),
        ensures
            match spec_lookup(self.db@, id_or_name@) {
                Ok(i) => 0 <= i < self.db@.len() && r is Ok && r->Ok_0@ == self.db@[i],
                Err(e) => r is Err && r->Err_0@ == e,
            },
    {
        proof {
            lemma_find_name(self.db@, id_or_name@, 0);
        }
        match self.db.get_by_name(id_or_name) {
            Ok(Some(state)) => Ok(state),
            _ => self.db.get_by_id_prefix(id_or_name),
        }
    }

    /// The handle of the VM that `id_or_name` stands for. `alive` says
    /// whether the process of that VM is alive; a VM whose process is gone is
    /// recorded as stopped.
    pub fn get(&mut self, id_or_name: &str, alive: bool) -> (r: Result<VmHandle, Error>)
        requires
            old(self).wf(),
        ensures
            final(self).wf(),
            final(self).socks_dir == old(self).socks_dir,
            final(self).disk == old(self).disk,
            match spec_lookup(old(self).db@, id_or_name@) {
                Ok(i) => {
                    let row = old(self).db@[i];
                    let status = spec_reconcile(row.status, alive);
                    &&& r is Ok
                    &&& r->Ok_0.spec_state() == (VmStateView { status, ..row })
                    &&& final(self).db@ == StateDb::spec_with_status(old(self).db@, row.id, status)
                },
                Err(e) => r is Err && r->Err_0@ == e && final(self).db@ == old(self).db@,
            },
    {
        let mut state = match self.lookup(id_or_name) {
            Ok(s) => s,
            Err(e) => {
                return Err(e);
            },
        };
        let ghost row = state@;
        let status = reconcile(state.status, alive);
        state.status = status;
        let _ = self.db.update_status(state.id.as_str(), status);
        Ok(VmHandle::new(state))
    }

    /// Gives the VM that `id_or_name` stands for the name `new_name`, unless
    /// another VM has it. `alive` says whether the process of the VM is alive.
    #[verifier::rlimit(40)]
    pub fn rename(&mut self, id_or_name: &str, new_name: &str, alive: bool) -> (r: Result<
        (),
        Error,
    >)
        requires
            old(self).wf(),
        ensures
            final(self).wf(),
            final(self).socks_dir == old(self).socks_dir,
            final(self).disk == old(self).disk,
            match spec_lookup(old(self).db@, id_or_name@) {
                Ok(i) => {
                    let row = old(self).db@[i];
                    let rows = StateDb::spec_with_status(
                        old(self).db@,
                        row.id,
                        spec_reconcile(row.status, alive),
                    );
                    let holder = spec_find_name(rows, new_name@, 0);
                    if holder < rows.len() && rows[holder].id != row.id {
                        r is Err && r->Err_0@ == spec_name_taken(new_name@) && final(self).db@
                            == rows
                    } else {
                        r is Ok && final(self).db@ == StateDb::spec_with_name(
                            rows,
                            row.id,
                            Some(new_name@),
                        )
                    }
                },
                Err(e) => r is Err && r->Err_0@ == e && final(self).db@ == old(self).db@,
            },
    {
        let handle = match self.get(id_or_name, alive) {
            Ok(h) => h,
            Err(e) => {
                return Err(e);
            },
        };
        let ghost rows = self.db@;
        proof {
            lemma_find_name(rows, new_name@, 0);
            lemma_find_id(rows, handle.spec_state().id, 0);
        }
        match self.db.get_by_name(new_name) {
            Ok(Some(existing)) => {
                if !crate::text::str_eq(existing.id.as_str(), handle.state().id.as_str()) {
                    return Err(name_taken(new_name));
                }
            },
            _ => {},
        }
        match self.db.update_name(handle.state().id.as_str(), Some(new_name)) {
            Ok(()) => Ok(()),
            Err(e) => {
                proof {
                    // The registry refuses a name only where another record
                    // has it, and that was ruled out.
                    let holder = spec_find_name(rows, new_name@, 0);
                    let own = spec_find_id(rows, handle.spec_state().id, 0);
                    assert(holder < rows.len() && own < rows.len() && holder != own);
                    assert(rows[holder].id == rows[own].id);
                    if holder < own {
                        assert(rows[holder].id != rows[own].id);
                    } else {
                        assert(rows[own].id != rows[holder].id);
                    }
                }
                Err(e)
            },
        }
    }

    /// Removes the VM that `id_or_name` stands for, unless it runs: its socket
    /// and its overlay are to go, and its record leaves the registry. `alive`
    /// says whether the process of the VM is alive.
    #[verifier::rlimit(40)]
    pub fn remove(&mut self, id_or_name: &str, alive: bool) -> (r: Result<Vec<HostAction>, Error>)
        requires
            old(self).wf(),
        ensures
            final(self).wf(),
            final(self).socks_dir == old(self).socks_dir,
            final(self).disk == old(self).disk,
            match spec_lookup(old(self).db@, id_or_name@) {
                Ok(i) => {
                    let row = old(self).db@[i];
                    let status = spec_reconcile(row.status, alive);
                    let rows = StateDb::spec_with_status(old(self).db@, row.id, status);
                    if status == Status::Running {
                        r is Err && r->Err_0@ == spec_refused(
                            row.id,
                            " is still running; stop it first"@,
                        ) && final(self).db@ == rows
                    } else {
                        r is Ok && action_views(r->Ok_0@) == spec_cleanup(row) && final(self).db@
                            == spec_without_id(rows, row.id)
                    }
                },
                Err(e) => r is Err && r->Err_0@ == e && final(self).db@ == old(self).db@,
            },
    {
        let handle = match self.get(id_or_name, alive) {
            Ok(h) => h,
            Err(e) => {
                return Err(e);
            },
        };
        match handle.state().status {
            Status::Running => {
                return Err(refused(handle.state().id.as_str(), " is still running; stop it first"));
            },
            _ => {},
        }
        let actions = cleanup(handle.state());
        let _ = self.db.delete(handle.state().id.as_str());
        Ok(actions)
    }

    /// Lists the VMs, newest first, each reconciled with the life of its
    /// process: `dead` holds the process ids that are gone. A stopped VM that
    /// is removed automatically is not listed: it leaves the registry, and its
    /// socket and overlay are to go.
    #[verifier::rlimit(40)]
    pub fn list(&mut self, dead: &[i32]) -> (r: Result<(Vec<VmState>, Vec<HostAction>), Error>)
        requires
            old(self).wf(),
        ensures
            final(self).wf(),
            final(self).socks_dir == old(self).socks_dir,
            final(self).disk == old(self).disk,
            r is Ok,
            rows_views(r->Ok_0.0@) == spec_list(old(self).db@, dead@).0,
            action_views(r->Ok_0.1@) == spec_list(old(self).db@, dead@).1,
            final(self).db@ == spec_list(old(self).db@, dead@).0,
    {
        let rows = match self.db.list() {
            Ok(rows) => rows,
            Err(e) => {
                return Err(e);
            },
        };
        let ghost all = old(self).db@;
        let mut keep: Vec<VmState> = Vec::new();
        let mut actions: Vec<HostAction> = Vec::new();
        let ghost mut src: Seq<int> = Seq::empty();
        let mut i: usize = 0;
        assert(all.take(0) =~= Seq::<VmStateView>::empty());
        assert(rows_views(keep@) =~= Seq::<VmStateView>::empty());
        assert(action_views(actions@) =~= Seq::<HostActionView>::empty());
        assert(self.db@ =~= rows_views(keep@) + all.skip(0));
        while i < rows.len()
            invariant
                i <= rows@.len(),
                all == rows_views(rows@),
                spec_wf_rows(all),
                self.db.wf(),
                self.socks_dir == old(self).socks_dir,
                self.disk == old(self).disk,
                self.db@ == rows_views(keep@) + all.skip(i as int),
                rows_views(keep@) == spec_list(all.take(i as int), dead@).0,
                action_views(actions@) == spec_list(all.take(i as int), dead@).1,
                src.len() == keep@.len(),
                forall|k: int|
                    0 <= k < keep@.len() ==> 0 <= #[trigger] src[k] < i && keep@[k]@.id
                        == all[src[k]].id,
            decreases rows@.len() - i,
        {
            assert(all.take(i + 1).drop_last() =~= all.take(i as int));
            assert(all.take(i + 1).last() == rows@[i as int]@);
            let ghost table = self.db@;
            let ghost kept = rows_views(keep@);
            let ghost at = keep@.len() as int;
            let ghost id = rows@[i as int]@.id;
            proof {
                // The record is the first of the untouched ones, and no other
                // record of the table has its id.
                assert(table[at] == all[i as int]);
                assert forall|k: int| 0 <= k < table.len() && k != at implies (
                #[trigger] table[k]).id != id by {
                    if k < at {
                        assert(table[k] == keep@[k]@);
                        let from = src[k];
                        assert(all[from].id != all[i as int].id);
                    } else {
                        assert(table[k] == all[i + (k - at)]);
                        assert(all[i as int].id != all[i + (k - at)].id);
                    }
                }
                lemma_find_id(table, id, 0);
                assert(spec_find_id(table, id, 0) == at);
            }
            let status = reconcile(rows[i].status, !is_dead(dead, rows[i].pid));
            let gone = match status {
                Status::Stopped => rows[i].config.auto_remove,
                _ => false,
            };
            if gone {
                let mut more = cleanup(&rows[i]);
                let ghost before = action_views(actions@);
                let ghost added = action_views(more@);
                actions.append(&mut more);
                assert(action_views(actions@) =~= before + added);
                let _ = self.db.delete(rows[i].id.as_str());
                assert(self.db@ =~= kept + all.skip(i + 1));
            } else {
                let mut row = rows[i].copy();
                row.status = status;
                let _ = self.db.update_status(rows[i].id.as_str(), status);
                keep.push(row);
                proof {
                    src = src.push(i as int);
                    assert(rows_views(keep@) =~= kept.push(
                        VmStateView { status, ..rows@[i as int]@ },
                    ));
                    assert(self.db@ =~= rows_views(keep@) + all.skip(i + 1));
                }
            }
            i += 1;
        }
        assert(all.take(all.len() as int) =~= all);
        assert(self.db@ =~= rows_views(keep@));
        Ok((keep, actions))
    }
}

} // verus!
