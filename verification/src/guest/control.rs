//! The control channel: ping, shutdown, quiesce, thaw.

use vstd::prelude::*;
use vstd::string::*;
use crate::proto::message::{ControlReq, ControlResp};
use crate::text::strings_view;

verus! {

/// Milliseconds between the request to the processes of the guest to end and
/// their killing.
pub const SHUTDOWN_GRACE_MS: u64 = 500;

/// A step of the shutdown of the guest.
#[derive(Debug, Clone, Copy, PartialEq, Eq, Structural)]
pub enum ShutdownStep {
    /// Tell the host that the shutdown begins, and flush.
    Acknowledge,
    /// Ask every process of the guest to end.
    Terminate,
    /// Wait this many milliseconds.
    Sleep(u64),
    /// Kill every process that is left.
    KillAll,
    /// Write the filesystems out.
    Sync,
    /// Exit with this code.
    Exit(i32),
}

/// What the agent does for a request on the control channel.
#[derive(Debug, Clone, PartialEq, Eq)]
pub enum ControlWork {
    /// Answer with version and uptime.
    Ping,
    /// Go through these steps.
    Shutdown(Vec<ShutdownStep>),
    /// Freeze the writable filesystems, then report to
    /// [`FrozenMounts::quiesce`].
    Freeze,
    /// Thaw these mount points, then report to [`thawed`].
    Thaw(Vec<String>),
}

/// The steps of a shutdown, in order: the host is told, the processes are
/// asked to end and, after [`SHUTDOWN_GRACE_MS`], killed, the filesystems are
/// written out, and the agent exits with success.
pub open spec fn spec_shutdown_steps() -> Seq<ShutdownStep> {
    seq![
        ShutdownStep::Acknowledge,
        ShutdownStep::Terminate,
        ShutdownStep::Sleep(SHUTDOWN_GRACE_MS),
        ShutdownStep::KillAll,
        ShutdownStep::Sync,
        ShutdownStep::Exit(0),
    ]
}

/// The steps of a shutdown, in order.
pub fn graceful_shutdown() -> (r: Vec<ShutdownStep>)
    ensures
        r@ == spec_shutdown_steps(),
{
    let mut steps: Vec<ShutdownStep> = Vec::new();
    steps.push(ShutdownStep::Acknowledge);
    steps.push(ShutdownStep::Terminate);
    steps.push(ShutdownStep::Sleep(SHUTDOWN_GRACE_MS));
    steps.push(ShutdownStep::KillAll);
    steps.push(ShutdownStep::Sync);
    steps.push(ShutdownStep::Exit(0));
    assert(steps@ =~= spec_shutdown_steps());
    steps
}

/// The mount points that the last quiesce froze, kept for the thaw.
#[derive(Debug)]
pub struct FrozenMounts {
    list: Vec<String>,
}

impl View for FrozenMounts {
    type V = Seq<Seq<char>>;

    closed spec fn view(&self) -> Seq<Seq<char>> {
        strings_view(self.list@)
    }
}

impl FrozenMounts {
    /// Nothing is frozen.
    pub fn new() -> (r: Self)
        ensures
            r@ == Seq::<Seq<char>>::empty(),
    {
        let r = FrozenMounts { list: Vec::new() };
        assert(r@ =~= Seq::<Seq<char>>::empty());
        r
    }

    /// Says what the agent does for the request `req`. A thaw takes the mount
    /// points that the last quiesce froze, and leaves none.
    pub fn handle(&mut self, req: ControlReq) -> (r: ControlWork)
        ensures
            match req {
                ControlReq::Ping => r is Ping && final(self)@ == old(self)@,
                ControlReq::Shutdown => r matches ControlWork::Shutdown(steps) && steps@
                    == spec_shutdown_steps() && final(self)@ == old(self)@,
                ControlReq::Quiesce => r is Freeze && final(self)@ == old(self)@,
                ControlReq::Thaw => r matches ControlWork::Thaw(list) && strings_view(list@) == old(
                    self,
                )@ && final(self)@ == Seq::<Seq<char>>::empty(),
            },
    {
        match req {
            ControlReq::Ping => ControlWork::Ping,
            ControlReq::Shutdown => ControlWork::Shutdown(graceful_shutdown()),
            ControlReq::Quiesce => ControlWork::Freeze,
            ControlReq::Thaw => {
                let mut taken: Vec<String> = Vec::new();
                taken.append(&mut self.list);
                assert(strings_view(taken@) =~= old(self)@);
                assert(self@ =~= Seq::<Seq<char>>::empty());
                ControlWork::Thaw(taken)
            },
        }
    }

    /// Records the mount points that a quiesce froze, in place of those of an
    /// earlier one, and makes the answer: their number, which stops at the
    /// largest `u32`.
    pub fn quiesce(&mut self, frozen: Vec<String>) -> (r: ControlResp)
        ensures
            final(self)@ == strings_view(frozen@),
            r matches ControlResp::QuiesceOk { frozen_count } && frozen_count == (if frozen@.len()
                <= u32::MAX {
                frozen@.len() as u32
            } else {
                u32::MAX
            }),
    {
        let count: u32 = if frozen.len() <= u32::MAX as usize {
            frozen.len() as u32
        } else {
            u32::MAX
        };
        self.list = frozen;
        ControlResp::QuiesceOk { frozen_count: count }
    }
}

/// The answer to a ping.
pub fn pong(version: &str, uptime_ms: u64) -> (r: ControlResp)
    ensures
        r matches ControlResp::Pong { version: v, uptime_ms: u } && v@ == version@ && u
            == uptime_ms,
{
    ControlResp::Pong { version: String::from_str(version), uptime_ms }
}

/// The answer to a thaw that thawed `count` filesystems.
pub fn thawed(count: u32) -> (r: ControlResp)
    ensures
        r matches ControlResp::ThawOk { thawed_count } && thawed_count == count,
{
    ControlResp::ThawOk { thawed_count: count }
}

} // verus!
