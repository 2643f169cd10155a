//! Executions: one child process for each exec connection.
//!
//! The agent starts the child, passes what the host sends to it, and what it
//! writes to the host, until the child is gone. A session says for each thing
//! that happens what is to be done, and whether the connection is finished.

use vstd::prelude::*;
use vstd::slice::slice_to_vec;
use vstd::string::*;
use crate::proto::message::{ExecIn, ExecOut, ExecStart, TtyConfig};
use crate::text::{concat2, decimal, spec_decimal, spec_split_once, split_once};

verus! {

/// The identifier of the `seq`-th execution: `exec-` and the number.
pub fn exec_id(seq: u64) -> (r: String)
    ensures
        r@ == "exec-"@ + spec_decimal(seq as nat),
{
    concat2("exec-", decimal(seq).as_str())
}

/// Name and value of an environment entry `KEY=VALUE`, cut at the first `=`.
/// An entry without `=` sets nothing.
pub fn split_env(pair: &str) -> (r: Option<(String, String)>)
    ensures
        match spec_split_once(pair@, '=') {
            Some((k, v)) => r is Some && r->Some_0.0@ == k && r->Some_0.1@ == v,
            None => r is None,
        },
{
    match split_once(pair, '=') {
        Some((k, v)) => Some((String::from_str(k), String::from_str(v))),
        None => None,
    }
}

/// The time limit of a request in milliseconds, if it sets one.
pub fn timeout(req: &ExecStart) -> (r: Option<u64>)
    ensures
        r == (if req.timeout_ms > 0 {
            Some(req.timeout_ms)
        } else {
            None
        }),
{
    if req.timeout_ms > 0 {
        Some(req.timeout_ms)
    } else {
        None
    }
}

/// How the wait for a child ended.
#[derive(Debug, Clone, Copy, PartialEq, Eq, Structural)]
pub enum WaitOutcome {
    /// The child exited with this code.
    Exited(i32),
    /// This signal ended the child.
    Signaled(i32),
    /// The child was reaped before the wait.
    AlreadyReaped,
    /// The wait failed, or reported something else.
    Unknown,
}

/// Exit code and signal that are reported for a child that was waited for by
/// its process id: a reaped child counts as a success, a failed wait as the
/// code `-1`.
pub open spec fn spec_exit_of(outcome: WaitOutcome) -> (i32, Option<i32>) {
    match outcome {
        WaitOutcome::Exited(code) => (code, None),
        WaitOutcome::Signaled(sig) => (0, Some(sig)),
        WaitOutcome::AlreadyReaped => (0, None),
        WaitOutcome::Unknown => (-1i32, None),
    }
}

/// The last message of an execution in terminal mode.
pub fn send_exit_by_pid(outcome: WaitOutcome, timed_out: bool, duration_ms: u64) -> (r: ExecOut)
    ensures
        r matches ExecOut::Exit { code, signal, timed_out: t, duration_ms: d, error_message }
            && (code, signal) == spec_exit_of(outcome) && t == timed_out && d == duration_ms
            && error_message@.len() == 0,
{
    let (code, signal) = match outcome {
        WaitOutcome::Exited(code) => (code, None),
        WaitOutcome::Signaled(sig) => (0, Some(sig)),
        WaitOutcome::AlreadyReaped => (0, None),
        WaitOutcome::Unknown => (-1, None),
    };
    ExecOut::Exit { code, signal, timed_out, duration_ms, error_message: String::new() }
}

/// The last message of an execution in pipe mode: the exit code of the child,
/// or `-1` where it has none, and the signal that ended it.
pub fn send_exit(code: Option<i32>, signal: Option<i32>, timed_out: bool, duration_ms: u64) -> (r:
    ExecOut)
    ensures
        r matches ExecOut::Exit { code: c, signal: s, timed_out: t, duration_ms: d, error_message }
            && c == (match code {
            Some(x) => x,
            None => -1i32,
        }) && s == signal && t == timed_out && d == duration_ms && error_message@.len() == 0,
{
    let c = match code {
        Some(x) => x,
        None => -1,
    };
    ExecOut::Exit { code: c, signal, timed_out, duration_ms, error_message: String::new() }
}

/// Something that happens during an execution.
#[derive(Debug, Clone)]
pub enum ExecEvent {
    /// The host sent a message.
    Host(ExecIn),
    /// The host is gone.
    HostGone,
    /// The child wrote to standard output, or to the terminal.
    Stdout(Vec<u8>),
    /// Standard output, or the terminal, is at its end or broken.
    StdoutClosed,
    /// The child wrote to standard error.
    Stderr(Vec<u8>),
    /// Standard error is at its end or broken.
    StderrClosed,
}

/// Something to be done during an execution.
#[derive(Debug, Clone)]
pub enum ExecAction {
    /// Nothing.
    Idle,
    /// Write to the standard input of the child, or to the terminal.
    Write(Vec<u8>),
    /// Close the standard input of the child.
    CloseStdin,
    /// Send a signal to the child.
    Signal(i32),
    /// Kill the child.
    Kill,
    /// Resize the terminal.
    Resize(TtyConfig),
    /// Send a message to the host.
    Send(ExecOut),
}

/// An action as plain data.
pub enum ExecActionView {
    /// Nothing.
    Idle,
    /// Write to the child.
    Write(Seq<u8>),
    /// Close the standard input of the child.
    CloseStdin,
    /// Send a signal to the child.
    Signal(i32),
    /// Kill the child.
    Kill,
    /// Resize the terminal.
    Resize(TtyConfig),
    /// Send standard output to the host.
    SendStdout(Seq<u8>),
    /// Send standard error to the host.
    SendStderr(Seq<u8>),
}

/// An event as plain data.
pub enum ExecEventView {
    /// The host sent standard input.
    Stdin(Seq<u8>),
    /// The host closed standard input.
    StdinClose,
    /// The host sent a signal.
    Signal(i32),
    /// The host resized the terminal.
    ResizeTty(TtyConfig),
    /// The host is gone.
    HostGone,
    /// The child wrote to standard output.
    Stdout(Seq<u8>),
    /// Standard output is at its end.
    StdoutClosed,
    /// The child wrote to standard error.
    Stderr(Seq<u8>),
    /// Standard error is at its end.
    StderrClosed,
}

impl View for ExecEvent {
    type V = ExecEventView;

    open spec fn view(&self) -> ExecEventView {
        match self {
            ExecEvent::Host(ExecIn::Stdin(d)) => ExecEventView::Stdin(d@),
            ExecEvent::Host(ExecIn::StdinClose) => ExecEventView::StdinClose,
            ExecEvent::Host(ExecIn::Signal(s)) => ExecEventView::Signal(*s),
            ExecEvent::Host(ExecIn::ResizeTty(t)) => ExecEventView::ResizeTty(*t),
            ExecEvent::HostGone => ExecEventView::HostGone,
            ExecEvent::Stdout(d) => ExecEventView::Stdout(d@),
            ExecEvent::StdoutClosed => ExecEventView::StdoutClosed,
            ExecEvent::Stderr(d) => ExecEventView::Stderr(d@),
            ExecEvent::StderrClosed => ExecEventView::StderrClosed,
        }
    }
}

impl ExecAction {
    /// The action as plain data. Only output is ever sent to the host from
    /// within a session.
    pub open spec fn spec_view(&self) -> ExecActionView {
        match self {
            ExecAction::Idle => ExecActionView::Idle,
            ExecAction::Write(d) => ExecActionView::Write(d@),
            ExecAction::CloseStdin => ExecActionView::CloseStdin,
            ExecAction::Signal(s) => ExecActionView::Signal(*s),
            ExecAction::Kill => ExecActionView::Kill,
            ExecAction::Resize(t) => ExecActionView::Resize(*t),
            ExecAction::Send(ExecOut::Stdout(d)) => ExecActionView::SendStdout(d@),
            ExecAction::Send(ExecOut::Stderr(d)) => ExecActionView::SendStderr(d@),
            ExecAction::Send(_) => ExecActionView::Idle,
        }
    }
}

/// Where an execution stands.
#[derive(Debug, Clone, Copy, PartialEq, Eq, Structural)]
pub struct ExecSession {
    /// Whether the child has a terminal.
    pub tty: bool,
    /// Whether the standard input of the child is open.
    pub stdin_open: bool,
    /// Whether standard output is at its end.
    pub stdout_done: bool,
    /// Whether standard error is at its end.
    pub stderr_done: bool,
    /// Whether the host is gone.
    pub host_gone: bool,
}

impl ExecSession {
    /// Whether the connection is finished: the host is gone, or all output of
    /// the child is at its end.
    pub open spec fn spec_finished(self) -> bool {
        self.host_gone || (self.stdout_done && self.stderr_done)
    }

    /// What is to be done for an event, and where the execution stands
    /// afterwards.
    ///
    /// Input of the host goes to the child while its standard input is open;
    /// a terminal is always open. A signal goes to the child. A new size goes
    /// to the terminal, and is ignored without one. When the host is gone the
    /// child is killed. Output of the child goes to the host, and the end of
    /// an output is noted; the output of a terminal is all standard output.
    pub open spec fn spec_step(self, event: ExecEventView) -> (ExecSession, ExecActionView) {
        match event {
            ExecEventView::Stdin(d) => (
                self,
                if self.stdin_open {
                    ExecActionView::Write(d)
                } else {
                    ExecActionView::Idle
                },
            ),
            ExecEventView::StdinClose => if self.tty {
                (self, ExecActionView::Idle)
            } else {
                (ExecSession { stdin_open: false, ..self }, ExecActionView::CloseStdin)
            },
            ExecEventView::Signal(s) => (self, ExecActionView::Signal(s)),
            ExecEventView::ResizeTty(t) => (
                self,
                if self.tty {
                    ExecActionView::Resize(t)
                } else {
                    ExecActionView::Idle
                },
            ),
            ExecEventView::HostGone => (
                ExecSession { host_gone: true, ..self },
                ExecActionView::Kill,
            ),
            ExecEventView::Stdout(d) => (self, ExecActionView::SendStdout(d)),
            ExecEventView::StdoutClosed => (
                ExecSession { stdout_done: true, ..self },
                ExecActionView::Idle,
            ),
            ExecEventView::Stderr(d) => (self, ExecActionView::SendStderr(d)),
            ExecEventView::StderrClosed => (
                ExecSession { stderr_done: true, ..self },
                ExecActionView::Idle,
            ),
        }
    }

    /// The session of a new execution. With pipes the standard input of the
    /// child is open if the request asks for it. With a terminal input is
    /// always open, and there is no standard error apart from the terminal.
    pub fn handle(req: &ExecStart) -> (r: Self)
        ensures
            r == (ExecSession {
                tty: req.tty is Some,
                stdin_open: req.tty is Some || req.stdin,
                stdout_done: false,
                stderr_done: req.tty is Some,
                host_gone: false,
            }),
            !r.spec_finished(),
    {
        let tty = req.tty.is_some();
        ExecSession {
            tty,
            stdin_open: tty || req.stdin,
            stdout_done: false,
            stderr_done: tty,
            host_gone: false,
        }
    }

    /// Whether the connection is finished.
    pub fn finished(&self) -> (r: bool)
        ensures
            r == self.spec_finished(),
    {
        self.host_gone || (self.stdout_done && self.stderr_done)
    }

    /// Says what is to be done for `event`, and notes what changed.
    pub fn step(&mut self, event: ExecEvent) -> (r: ExecAction)
        ensures
            (*final(self), r.spec_view()) == old(self).spec_step(event@),
    {
        match event {
            ExecEvent::Host(ExecIn::Stdin(data)) => {
                if self.stdin_open {
                    ExecAction::Write(data)
                } else {
                    ExecAction::Idle
                }
            },
            ExecEvent::Host(ExecIn::StdinClose) => {
                if self.tty {
                    ExecAction::Idle
                } else {
                    self.stdin_open = false;
                    ExecAction::CloseStdin
                }
            },
            ExecEvent::Host(ExecIn::Signal(sig)) => ExecAction::Signal(sig),
            ExecEvent::Host(ExecIn::ResizeTty(size)) => {
                if self.tty {
                    ExecAction::Resize(size)
                } else {
                    ExecAction::Idle
                }
            },
            ExecEvent::HostGone => {
                self.host_gone = true;
                ExecAction::Kill
            },
            ExecEvent::Stdout(data) => ExecAction::Send(ExecOut::Stdout(data)),
            ExecEvent::StdoutClosed => {
                self.stdout_done = true;
                ExecAction::Idle
            },
            ExecEvent::Stderr(data) => ExecAction::Send(ExecOut::Stderr(data)),
            ExecEvent::StderrClosed => {
                self.stderr_done = true;
                ExecAction::Idle
            },
        }
    }
}

/// The event for a read from an output of the child: `data` holds what was
/// read, and nothing where the output is at its end or the read failed.
pub fn output_event(stderr: bool, data: Option<&[u8]>) -> (r: ExecEvent)
    ensures
        r@ == (if data is Some && data->Some_0@.len() > 0 {
            if stderr {
                ExecEventView::Stderr(data->Some_0@)
            } else {
                ExecEventView::Stdout(data->Some_0@)
            }
        } else if stderr {
            ExecEventView::StderrClosed
        } else {
            ExecEventView::StdoutClosed
        }),
{
    match data {
        Some(d) => {
            if d.len() > 0 {
                if stderr {
                    ExecEvent::Stderr(slice_to_vec(d))
                } else {
                    ExecEvent::Stdout(slice_to_vec(d))
                }
            } else if stderr {
                ExecEvent::StderrClosed
            } else {
                ExecEvent::StdoutClosed
            }
        },
        None => if stderr {
            ExecEvent::StderrClosed
        } else {
            ExecEvent::StdoutClosed
        },
    }
}

/// A session that is finished stays finished, whatever happens: no event
/// reopens an output or brings the host back.
pub proof fn lemma_finished_stays(session: ExecSession, event: ExecEventView)
    requires
        session.spec_finished(),
    ensures
        session.spec_step(event).0.spec_finished(),
{
}

/// Once the host is gone the child is killed, and the connection is
/// finished.
pub proof fn lemma_host_gone_kills(session: ExecSession)
    ensures
        session.spec_step(ExecEventView::HostGone).1 is Kill,
        session.spec_step(ExecEventView::HostGone).0.spec_finished(),
{
}

} // verus!
