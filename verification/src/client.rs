//! The host side of the protocol.
//!
//! Every operation opens a connection of its own, sends the [`Hello`] that
//! names it and reads the answer. Here the messages to send are made and the
//! answers are judged; the connection is the caller's.

use vstd::prelude::*;
use vstd::slice::slice_to_vec;
use vstd::string::*;
use crate::error::{Error, ErrorView, IoKind};
use crate::proto::message::{
    ControlReq, ControlResp, ErrorInfo, ExecIn, ExecOut, ExecStart, Hello, HelloAck, TtyConfig,
    UploadResult, PROTOCOL_VERSION,
};
use crate::text::{concat2, decimal, spec_decimal};

verus! {

/// What an execution yielded.
#[derive(Debug, Clone)]
pub struct ExecOutput {
    /// Identifier that the guest gave the execution.
    pub exec_id: String,
    /// Process id of the child inside the guest.
    pub pid: i32,
    /// Everything the child wrote to standard output.
    pub stdout: Vec<u8>,
    /// Everything the child wrote to standard error.
    pub stderr: Vec<u8>,
    /// Exit code.
    pub code: i32,
    /// Signal that ended the child, if one did.
    pub signal: Option<i32>,
    /// Whether the time limit ended it.
    pub timed_out: bool,
    /// Milliseconds from spawn to exit.
    pub duration_ms: u64,
    /// What went wrong, if the child died unexpectedly.
    pub error_message: String,
}

/// The answer to a ping.
#[derive(Debug, Clone)]
pub struct PongInfo {
    /// Version of the guest agent.
    pub version: String,
    /// Milliseconds since the agent started.
    pub uptime_ms: u64,
}

/// Names the guest agent of one VM by the socket that leads to it.
#[derive(Debug, Clone)]
pub struct Client {
    socket_path: String,
}

/// The message of an error that the guest sent: the name of its class, a
/// colon and its text.
pub open spec fn spec_remote_message(e: ErrorInfo) -> Seq<char> {
    e.code.spec_name() + ": "@ + e.message@
}

/// The error for a guest that speaks another version of the protocol.
pub open spec fn spec_version_mismatch(guest: u32) -> ErrorView {
    ErrorView::Io(
        IoKind::Unsupported,
        "protocol version mismatch: host="@ + spec_decimal(PROTOCOL_VERSION as nat) + ", guest="@
            + spec_decimal(guest as nat),
    )
}

/// How the answer to a control hello is judged: the channel is open if the
/// guest speaks the version of the host.
pub open spec fn spec_control_ack(ack: HelloAck) -> Result<(), ErrorView> {
    match ack {
        HelloAck::Control { version } => if version == PROTOCOL_VERSION {
            Ok(())
        } else {
            Err(spec_version_mismatch(version))
        },
        HelloAck::Error(e) => Err(ErrorView::Io(IoKind::Other, spec_remote_message(e))),
        _ => Err(ErrorView::Io(IoKind::InvalidData, "expected Control ack"@)),
    }
}

fn remote_error(e: &ErrorInfo) -> (r: Error)
    ensures
        r@ == ErrorView::Io(IoKind::Other, spec_remote_message(*e)),
{
    Error::Io(IoKind::Other, e.to_string())
}

fn unexpected(what: &str) -> (r: Error)
    ensures
        r@ == ErrorView::Io(IoKind::InvalidData, what@),
{
    Error::Io(IoKind::InvalidData, String::from_str(what))
}

impl Client {
    /// The socket that leads to the guest agent.
    pub closed spec fn spec_socket_path(&self) -> Seq<char> {
        self.socket_path@
    }

    /// A client for the guest agent behind the socket at `path`. Nothing is
    /// connected yet.
    pub fn new(path: &str) -> (r: Self)
        ensures
            r.spec_socket_path() == path@,
    {
        Client { socket_path: String::from_str(path) }
    }

    /// The socket that leads to the guest agent.
    pub fn socket_path(&self) -> (r: &str)
        ensures
            r@ == self.spec_socket_path(),
    {
        self.socket_path.as_str()
    }

    /// The hello that opens a control channel.
    pub fn hello_control() -> (r: Hello)
        ensures
            r == (Hello::Control { version: PROTOCOL_VERSION }),
    {
        Hello::Control { version: PROTOCOL_VERSION }
    }

    /// Judges the answer to a control hello: the handshake succeeds if the
    /// guest speaks the version of the host.
    pub fn handshake(ack: &HelloAck) -> (r: Result<(), Error>)
        ensures
            match spec_control_ack(*ack) {
                Ok(()) => r is Ok,
                Err(e) => r is Err && r->Err_0@ == e,
            },
    {
        match ack {
            HelloAck::Control { version } => {
                if *version == PROTOCOL_VERSION {
                    Ok(())
                } else {
                    let mut msg = concat2(
                        "protocol version mismatch: host=",
                        decimal(PROTOCOL_VERSION as u64).as_str(),
                    );
                    msg.append(", guest=");
                    msg.append(decimal(*version as u64).as_str());
                    Err(Error::Io(IoKind::Unsupported, msg))
                }
            },
            HelloAck::Error(e) => Err(remote_error(e)),
            _ => Err(unexpected("expected Control ack")),
        }
    }

    /// Judges the answer to the hello of a file or copy operation.
    pub fn expect_ready(ack: &HelloAck) -> (r: Result<(), Error>)
        ensures
            match *ack {
                HelloAck::Ready => r is Ok,
                HelloAck::Error(e) => r is Err && r->Err_0@ == ErrorView::Io(
                    IoKind::Other,
                    spec_remote_message(e),
                ),
                _ => r is Err && r->Err_0@ == ErrorView::Io(
                    IoKind::InvalidData,
                    "expected Ready ack"@,
                ),
            },
    {
        match ack {
            HelloAck::Ready => Ok(()),
            HelloAck::Error(e) => Err(remote_error(e)),
            _ => Err(unexpected("expected Ready ack")),
        }
    }

    /// Judges the answer to an exec hello, and takes from it the identifier of
    /// the execution and the process id of the child.
    pub fn exec(ack: &HelloAck) -> (r: Result<(String, i32), Error>)
        ensures
            match *ack {
                HelloAck::ExecStarted { exec_id, pid } => r is Ok && r->Ok_0.0@ == exec_id@
                    && r->Ok_0.1 == pid,
                HelloAck::Error(e) => r is Err && r->Err_0@ == ErrorView::Io(
                    IoKind::Other,
                    spec_remote_message(e),
                ),
                _ => r is Err && r->Err_0@ == ErrorView::Io(
                    IoKind::InvalidData,
                    "expected ExecStarted"@,
                ),
            },
    {
        match ack {
            HelloAck::ExecStarted { exec_id, pid } => Ok((exec_id.clone(), *pid)),
            HelloAck::Error(e) => Err(remote_error(e)),
            _ => Err(unexpected("expected ExecStarted")),
        }
    }

    /// Judges what the guest says once an upload is complete.
    pub fn expect_upload_ok(result: &UploadResult) -> (r: Result<(), Error>)
        ensures
            match *result {
                UploadResult::Success => r is Ok,
                UploadResult::Error(e) => r is Err && r->Err_0@ == ErrorView::Io(
                    IoKind::Other,
                    spec_remote_message(e),
                ),
            },
    {
        match result {
            UploadResult::Success => Ok(()),
            UploadResult::Error(e) => Err(remote_error(e)),
        }
    }

    /// Judges the answer to a shutdown request.
    pub fn shutdown(resp: &ControlResp) -> (r: Result<(), Error>)
        ensures
            match *resp {
                ControlResp::ShutdownOk => r is Ok,
                ControlResp::Error(e) => r is Err && r->Err_0@ == ErrorView::Io(
                    IoKind::Other,
                    spec_remote_message(e),
                ),
                _ => r is Err && r->Err_0@ == ErrorView::Io(
                    IoKind::InvalidData,
                    "expected ShutdownOk"@,
                ),
            },
    {
        match resp {
            ControlResp::ShutdownOk => Ok(()),
            ControlResp::Error(e) => Err(remote_error(e)),
            _ => Err(unexpected("expected ShutdownOk")),
        }
    }

    /// Judges the answer to a ping.
    pub fn ping(resp: &ControlResp) -> (r: Result<PongInfo, Error>)
        ensures
            match *resp {
                ControlResp::Pong { version, uptime_ms } => r is Ok && r->Ok_0.version@ == version@
                    && r->Ok_0.uptime_ms == uptime_ms,
                ControlResp::Error(e) => r is Err && r->Err_0@ == ErrorView::Io(
                    IoKind::Other,
                    spec_remote_message(e),
                ),
                _ => r is Err && r->Err_0@ == ErrorView::Io(IoKind::InvalidData, "expected Pong"@),
            },
    {
        match resp {
            ControlResp::Pong { version, uptime_ms } => Ok(
                PongInfo { version: version.clone(), uptime_ms: *uptime_ms },
            ),
            ControlResp::Error(e) => Err(remote_error(e)),
            _ => Err(unexpected("expected Pong")),
        }
    }

    /// Judges the answer to a quiesce request: the number of filesystems
    /// frozen.
    pub fn quiesce(resp: &ControlResp) -> (r: Result<u32, Error>)
        ensures
            match *resp {
                ControlResp::QuiesceOk { frozen_count } => r is Ok && r->Ok_0 == frozen_count,
                ControlResp::Error(e) => r is Err && r->Err_0@ == ErrorView::Io(
                    IoKind::Other,
                    spec_remote_message(e),
                ),
                _ => r is Err && r->Err_0@ == ErrorView::Io(
                    IoKind::InvalidData,
                    "expected QuiesceOk"@,
                ),
            },
    {
        match resp {
            ControlResp::QuiesceOk { frozen_count } => Ok(*frozen_count),
            ControlResp::Error(e) => Err(remote_error(e)),
            _ => Err(unexpected("expected QuiesceOk")),
        }
    }

    /// Judges the answer to a thaw request: the number of filesystems thawed.
    pub fn thaw(resp: &ControlResp) -> (r: Result<u32, Error>)
        ensures
            match *resp {
                ControlResp::ThawOk { thawed_count } => r is Ok && r->Ok_0 == thawed_count,
                ControlResp::Error(e) => r is Err && r->Err_0@ == ErrorView::Io(
                    IoKind::Other,
                    spec_remote_message(e),
                ),
                _ => r is Err && r->Err_0@ == ErrorView::Io(IoKind::InvalidData, "expected ThawOk"@),
            },
    {
        match resp {
            ControlResp::ThawOk { thawed_count } => Ok(*thawed_count),
            ControlResp::Error(e) => Err(remote_error(e)),
            _ => Err(unexpected("expected ThawOk")),
        }
    }

    /// The hello that reads the file `path`.
    pub fn read_file(path: &str) -> (r: Hello)
        ensures
            r matches Hello::FileRead { path: p } && p@ == path@,
    {
        Hello::FileRead { path: String::from_str(path) }
    }

    /// The hello that writes the file `path` with the permission bits `mode`.
    pub fn write_file(path: &str, mode: u32) -> (r: Hello)
        ensures
            r matches Hello::FileWrite { path: p, mode: m } && p@ == path@ && m == mode,
    {
        Hello::FileWrite { path: String::from_str(path), mode }
    }

    /// The hello that unpacks a tar archive at `dest`.
    pub fn copy_in(dest: &str) -> (r: Hello)
        ensures
            r matches Hello::CopyIn { dest: d } && d@ == dest@,
    {
        Hello::CopyIn { dest: String::from_str(dest) }
    }

    /// The hello that fetches `path` as a tar archive, symbolic links kept as
    /// they are.
    pub fn copy_out(path: &str) -> (r: Hello)
        ensures
            r matches Hello::CopyOut { path: p, follow_symlinks: f } && p@ == path@ && !f,
    {
        Self::copy_out_opts(path, false)
    }

    /// The hello that fetches `path` as a tar archive.
    pub fn copy_out_opts(path: &str, follow_symlinks: bool) -> (r: Hello)
        ensures
            r matches Hello::CopyOut { path: p, follow_symlinks: f } && p@ == path@ && f
                == follow_symlinks,
    {
        Hello::CopyOut { path: String::from_str(path), follow_symlinks }
    }
}

/// How an execution ended, as plain data: the two outputs, and the Exit
/// message or the error.
pub enum ExecEndView {
    /// The child exited.
    Exited {
        /// Standard output.
        stdout: Seq<u8>,
        /// Standard error.
        stderr: Seq<u8>,
        /// Exit code.
        code: i32,
        /// Signal that ended the child.
        signal: Option<i32>,
        /// Whether the time limit ended it.
        timed_out: bool,
        /// Milliseconds from spawn to exit.
        duration_ms: u64,
        /// What went wrong.
        error_message: Seq<char>,
    },
    /// The guest reported an error.
    Failed(Seq<char>),
    /// The messages ended before the execution did.
    Cut,
}

/// How the execution ends whose output so far is `stdout` and `stderr` and
/// whose further messages are `msgs`: output is gathered up to the first Exit
/// or Error, and what follows is not looked at.
pub open spec fn spec_collect(msgs: Seq<ExecOut>, stdout: Seq<u8>, stderr: Seq<u8>) -> ExecEndView
    decreases msgs.len(),
{
    if msgs.len() == 0 {
        ExecEndView::Cut
    } else {
        match msgs[0] {
            ExecOut::Stdout(d) => spec_collect(msgs.skip(1), stdout + d@, stderr),
            ExecOut::Stderr(d) => spec_collect(msgs.skip(1), stdout, stderr + d@),
            ExecOut::Exit { code, signal, timed_out, duration_ms, error_message } => {
                ExecEndView::Exited {
                    stdout,
                    stderr,
                    code,
                    signal,
                    timed_out,
                    duration_ms,
                    error_message: error_message@,
                }
            },
            ExecOut::Error(e) => ExecEndView::Failed(spec_remote_message(e)),
        }
    }
}

/// A running execution, as the host sees it.
#[derive(Debug, Clone)]
pub struct ExecHandle {
    exec_id: String,
    pid: i32,
}

impl ExecHandle {
    /// Identifier that the guest gave the execution.
    pub closed spec fn spec_exec_id(&self) -> Seq<char> {
        self.exec_id@
    }

    /// Process id of the child inside the guest.
    pub closed spec fn spec_pid(&self) -> i32 {
        self.pid
    }

    /// The handle of the execution `exec_id` with the child `pid`.
    pub fn new(exec_id: &str, pid: i32) -> (r: Self)
        ensures
            r.spec_exec_id() == exec_id@,
            r.spec_pid() == pid,
    {
        ExecHandle { exec_id: String::from_str(exec_id), pid }
    }

    /// Identifier that the guest gave the execution.
    pub fn exec_id(&self) -> (r: &str)
        ensures
            r@ == self.spec_exec_id(),
    {
        self.exec_id.as_str()
    }

    /// Process id of the child inside the guest.
    pub fn pid(&self) -> (r: i32)
        ensures
            r == self.spec_pid(),
    {
        self.pid
    }

    /// The message that hands `data` to the standard input of the child.
    pub fn write_stdin(&self, data: &[u8]) -> (r: ExecIn)
        ensures
            r matches ExecIn::Stdin(d) && d@ == data@,
    {
        ExecIn::Stdin(slice_to_vec(data))
    }

    /// The message that closes the standard input of the child.
    pub fn close_stdin(&self) -> (r: ExecIn)
        ensures
            r is StdinClose,
    {
        ExecIn::StdinClose
    }

    /// The message that sends the signal `sig` to the child.
    pub fn signal(&self, sig: i32) -> (r: ExecIn)
        ensures
            r == ExecIn::Signal(sig),
    {
        ExecIn::Signal(sig)
    }

    /// The message that resizes the terminal of the child.
    pub fn resize_tty(&self, rows: u16, cols: u16, x_pixels: u16, y_pixels: u16) -> (r: ExecIn)
        ensures
            r == ExecIn::ResizeTty(TtyConfig { rows, cols, x_pixels, y_pixels }),
    {
        ExecIn::ResizeTty(TtyConfig { rows, cols, x_pixels, y_pixels })
    }

    /// Gathers the output of the execution from the messages of the guest up
    /// to its exit. An error of the guest is handed on; messages that end
    /// before the exit are an unexpected end.
    pub fn wait_with_output(self, msgs: &[ExecOut]) -> (r: Result<ExecOutput, Error>)
        ensures
            match spec_collect(msgs@, Seq::empty(), Seq::empty()) {
                ExecEndView::Exited {
                    stdout,
                    stderr,
                    code,
                    signal,
                    timed_out,
                    duration_ms,
                    error_message,
                } => {
                    &&& r is Ok
                    &&& r->Ok_0.exec_id@ == self.spec_exec_id()
                    &&& r->Ok_0.pid == self.spec_pid()
                    &&& r->Ok_0.stdout@ == stdout
                    &&& r->Ok_0.stderr@ == stderr
                    &&& r->Ok_0.code == code
                    &&& r->Ok_0.signal == signal
                    &&& r->Ok_0.timed_out == timed_out
                    &&& r->Ok_0.duration_ms == duration_ms
                    &&& r->Ok_0.error_message@ == error_message
                },
                ExecEndView::Failed(m) => r is Err && r->Err_0@ == ErrorView::Io(IoKind::Other, m),
                ExecEndView::Cut => r is Err && r->Err_0@ == ErrorView::Io(
                    IoKind::UnexpectedEof,
                    "connection closed before exit"@,
                ),
            },
    {
        let mut stdout: Vec<u8> = Vec::new();
        let mut stderr: Vec<u8> = Vec::new();
        let mut i: usize = 0;
        assert(msgs@.skip(0) =~= msgs@);
        while i < msgs.len()
            invariant
                i <= msgs@.len(),
                spec_collect(msgs@.skip(i as int), stdout@, stderr@) == spec_collect(
                    msgs@,
                    Seq::empty(),
                    Seq::empty(),
                ),
            decreases msgs@.len() - i,
        {
            let ghost rest = msgs@.skip(i as int);
            let ghost out_before = stdout@;
            let ghost err_before = stderr@;
            assert(rest[0] == msgs@[i as int]);
            assert(rest.skip(1) =~= msgs@.skip(i + 1));
            match &msgs[i] {
                ExecOut::Stdout(d) => {
                    let mut piece = slice_to_vec(d.as_slice());
                    stdout.append(&mut piece);
                    assert(stdout@ =~= out_before + d@);
                },
                ExecOut::Stderr(d) => {
                    let mut piece = slice_to_vec(d.as_slice());
                    stderr.append(&mut piece);
                    assert(stderr@ =~= err_before + d@);
                },
                ExecOut::Exit { code, signal, timed_out, duration_ms, error_message } => {
                    return Ok(
                        ExecOutput {
                            exec_id: self.exec_id,
                            pid: self.pid,
                            stdout,
                            stderr,
                            code: *code,
                            signal: *signal,
                            timed_out: *timed_out,
                            duration_ms: *duration_ms,
                            error_message: error_message.clone(),
                        },
                    );
                },
                ExecOut::Error(e) => {
                    return Err(remote_error(e));
                },
            }
            i += 1;
        }
        assert(msgs@.skip(i as int).len() == 0);
        Err(Error::Io(IoKind::UnexpectedEof, String::from_str("connection closed before exit")))
    }
}

} // verus!
