//! The messages of each operation.

use vstd::prelude::*;
use vstd::string::*;
use crate::text::concat3;

verus! {

/// Version of the wire protocol; it changes with every incompatible change.
pub const PROTOCOL_VERSION: u32 = 5;

/// Chunk size of streamed transfers: 1 MiB.
pub const STREAM_CHUNK_SIZE: usize = 0x10_0000;

/// Largest upload the guest agent accepts: 512 MiB.
pub const MAX_UPLOAD_BYTES: u64 = 0x2000_0000;

/// Port on which the guest agent listens.
pub const AGENT_PORT: u32 = 1024;

/// First message on a connection: names the operation.
#[derive(Debug, Clone)]
pub enum Hello {
    /// A control channel: ping, shutdown, quiesce, thaw.
    Control {
        /// Protocol version of the host.
        version: u32,
    },
    /// Run a command on this connection.
    Exec(ExecStart),
    /// Read one file of the guest.
    FileRead {
        /// Absolute path inside the guest.
        path: String,
    },
    /// Write one file of the guest.
    FileWrite {
        /// Absolute path inside the guest.
        path: String,
        /// Permission bits.
        mode: u32,
    },
    /// Upload a tar archive and unpack it at `dest`.
    CopyIn {
        /// Directory inside the guest.
        dest: String,
    },
    /// Download a path of the guest as a tar archive.
    CopyOut {
        /// Path inside the guest.
        path: String,
        /// Whether the archive follows symbolic links.
        follow_symlinks: bool,
    },
}

/// The guest's answer to a [`Hello`].
#[derive(Debug, Clone)]
pub enum HelloAck {
    /// The control channel is open.
    Control {
        /// Protocol version of the guest agent.
        version: u32,
    },
    /// The command was started.
    ExecStarted {
        /// Identifier that the guest gave this execution.
        exec_id: String,
        /// Process id of the child inside the guest.
        pid: i32,
    },
    /// A file or copy operation may proceed.
    Ready,
    /// The operation was refused.
    Error(ErrorInfo),
}

/// Host to guest, on a control connection.
#[derive(Debug, Clone, Copy, PartialEq, Eq, Structural)]
pub enum ControlReq {
    /// Health check.
    Ping,
    /// Shut the guest down.
    Shutdown,
    /// Freeze all writable filesystems.
    Quiesce,
    /// Thaw what the last quiesce froze.
    Thaw,
}

/// Guest to host, on a control connection.
#[derive(Debug, Clone)]
pub enum ControlResp {
    /// Answer to a ping.
    Pong {
        /// Version of the guest agent.
        version: String,
        /// Milliseconds since the agent started.
        uptime_ms: u64,
    },
    /// The agent is about to exit.
    ShutdownOk,
    /// Answer to a quiesce.
    QuiesceOk {
        /// Number of filesystems frozen.
        frozen_count: u32,
    },
    /// Answer to a thaw.
    ThawOk {
        /// Number of filesystems thawed.
        thawed_count: u32,
    },
    /// The request failed.
    Error(ErrorInfo),
}

/// Size of a terminal.
#[derive(Debug, Clone, Copy, PartialEq, Eq, Structural)]
pub struct TtyConfig {
    /// Height in rows.
    pub rows: u16,
    /// Width in columns.
    pub cols: u16,
    /// Width in pixels, `0` if unknown.
    pub x_pixels: u16,
    /// Height in pixels, `0` if unknown.
    pub y_pixels: u16,
}

/// What to execute, sent inside [`Hello::Exec`].
#[derive(Debug, Clone)]
pub struct ExecStart {
    /// Path or name of the executable.
    pub cmd: String,
    /// Arguments, without the program name.
    pub args: Vec<String>,
    /// Environment, each entry `KEY=VALUE`.
    pub env: Vec<String>,
    /// Working directory inside the guest.
    pub cwd: Option<String>,
    /// User id to run as.
    pub uid: Option<u32>,
    /// Group id to run as; it is applied before the user id.
    pub gid: Option<u32>,
    /// Whether the host will send standard input.
    pub stdin: bool,
    /// Terminal size, for an interactive session.
    pub tty: Option<TtyConfig>,
    /// Kill the process after this many milliseconds; `0` sets no limit.
    pub timeout_ms: u64,
}

impl ExecStart {
    /// A request that runs `cmd` with no argument, an empty environment, no
    /// terminal, no standard input and no time limit.
    #[must_use]
    pub fn new(cmd: &str) -> (r: Self)
        ensures
            r.cmd@ == cmd@,
            r.args@ == Seq::<String>::empty(),
            r.env@ == Seq::<String>::empty(),
            r.cwd is None,
            r.uid is None,
            r.gid is None,
            !r.stdin,
            r.tty is None,
            r.timeout_ms == 0,
    {
        ExecStart {
            cmd: String::from_str(cmd),
            args: Vec::new(),
            env: Vec::new(),
            cwd: None,
            uid: None,
            gid: None,
            stdin: false,
            tty: None,
            timeout_ms: 0,
        }
    }

    /// Sets the arguments.
    #[must_use]
    pub fn args(self, args: Vec<String>) -> (r: Self)
        ensures
            r == (ExecStart { args, ..self }),
    {
        let mut r = self;
        r.args = args;
        r
    }

    /// Sets the environment.
    #[must_use]
    pub fn env(self, env: Vec<String>) -> (r: Self)
        ensures
            r == (ExecStart { env, ..self }),
    {
        let mut r = self;
        r.env = env;
        r
    }

    /// Sets the working directory.
    #[must_use]
    pub fn cwd(self, cwd: &str) -> (r: Self)
        ensures
            r.cwd is Some,
            r.cwd->Some_0@ == cwd@,
            r == (ExecStart { cwd: r.cwd, ..self }),
    {
        let mut r = self;
        r.cwd = Some(String::from_str(cwd));
        r
    }

    /// Sets the user and the group to run as.
    #[must_use]
    pub fn user(self, uid: u32, gid: u32) -> (r: Self)
        ensures
            r == (ExecStart { uid: Some(uid), gid: Some(gid), ..self }),
    {
        let mut r = self;
        r.uid = Some(uid);
        r.gid = Some(gid);
        r
    }

    /// Announces standard input from the host.
    #[must_use]
    pub fn with_stdin(self) -> (r: Self)
        ensures
            r == (ExecStart { stdin: true, ..self }),
    {
        let mut r = self;
        r.stdin = true;
        r
    }

    /// Asks for a terminal of `rows` by `cols`, its pixel size unknown.
    #[must_use]
    pub fn tty(self, rows: u16, cols: u16) -> (r: Self)
        ensures
            r == (ExecStart {
                tty: Some(TtyConfig { rows, cols, x_pixels: 0, y_pixels: 0 }),
                ..self
            }),
    {
        let mut r = self;
        r.tty = Some(TtyConfig { rows, cols, x_pixels: 0, y_pixels: 0 });
        r
    }

    /// Sets the time limit in milliseconds.
    #[must_use]
    pub fn timeout(self, ms: u64) -> (r: Self)
        ensures
            r == (ExecStart { timeout_ms: ms, ..self }),
    {
        let mut r = self;
        r.timeout_ms = ms;
        r
    }
}

/// Host to guest, on an exec connection.
#[derive(Debug, Clone)]
pub enum ExecIn {
    /// Bytes for the standard input of the child.
    Stdin(Vec<u8>),
    /// End of standard input.
    StdinClose,
    /// A signal for the child.
    Signal(i32),
    /// A new terminal size.
    ResizeTty(TtyConfig),
}

/// Guest to host, on an exec connection.
#[derive(Debug, Clone)]
pub enum ExecOut {
    /// Bytes of standard output.
    Stdout(Vec<u8>),
    /// Bytes of standard error; none come in terminal mode.
    Stderr(Vec<u8>),
    /// The process is gone. Last message on the connection.
    Exit {
        /// Exit code.
        code: i32,
        /// Signal that ended the process, if one did.
        signal: Option<i32>,
        /// Whether the time limit ended it.
        timed_out: bool,
        /// Milliseconds from spawn to exit.
        duration_ms: u64,
        /// What went wrong, if the process died unexpectedly.
        error_message: String,
    },
    /// The execution failed.
    Error(ErrorInfo),
}

/// Host to guest, in an upload.
#[derive(Debug, Clone)]
pub enum Upload {
    /// A piece of the data.
    Chunk(Vec<u8>),
    /// End of the upload.
    Done,
}

/// Guest to host, once an upload is complete.
#[derive(Debug, Clone)]
pub enum UploadResult {
    /// The upload was stored.
    Success,
    /// The upload failed.
    Error(ErrorInfo),
}

/// Guest to host, in a download.
#[derive(Debug, Clone)]
pub enum Download {
    /// A piece of the data.
    Chunk(Vec<u8>),
    /// End of the download.
    Done,
    /// The path could not be read.
    Error(ErrorInfo),
}

/// Classes of error. The receiver acts on the class, never on the message.
#[derive(Debug, Clone, Copy, PartialEq, Eq, Structural)]
pub enum ErrorCode {
    /// The two sides speak different protocol versions.
    VersionMismatch,
    /// The request or an argument is invalid.
    InvalidRequest,
    /// What was asked for does not exist.
    NotFound,
    /// Permission was denied.
    PermissionDenied,
    /// The operation took too long.
    Timeout,
    /// The upload is larger than the limit.
    LimitExceeded,
    /// The guest agent failed.
    Internal,
}

impl ErrorCode {
    /// The name of the class, as it is printed.
    pub open spec fn spec_name(self) -> Seq<char> {
        match self {
            ErrorCode::VersionMismatch => "VersionMismatch"@,
            ErrorCode::InvalidRequest => "InvalidRequest"@,
            ErrorCode::NotFound => "NotFound"@,
            ErrorCode::PermissionDenied => "PermissionDenied"@,
            ErrorCode::Timeout => "Timeout"@,
            ErrorCode::LimitExceeded => "LimitExceeded"@,
            ErrorCode::Internal => "Internal"@,
        }
    }

    /// The name of the class, as it is printed.
    pub fn name(self) -> (r: &'static str)
        ensures
            r@ == self.spec_name(),
    {
        match self {
            ErrorCode::VersionMismatch => "VersionMismatch",
            ErrorCode::InvalidRequest => "InvalidRequest",
            ErrorCode::NotFound => "NotFound",
            ErrorCode::PermissionDenied => "PermissionDenied",
            ErrorCode::Timeout => "Timeout",
            ErrorCode::LimitExceeded => "LimitExceeded",
            ErrorCode::Internal => "Internal",
        }
    }
}

/// An error with its class and a description for people.
#[derive(Debug, Clone)]
pub struct ErrorInfo {
    /// Class of the error.
    pub code: ErrorCode,
    /// Description of the error.
    pub message: String,
}

impl ErrorInfo {
    /// An error of class `code` that says `message`.
    pub fn new(code: ErrorCode, message: &str) -> (r: Self)
        ensures
            r.code == code,
            r.message@ == message@,
    {
        ErrorInfo { code, message: String::from_str(message) }
    }

    /// An error of the class [`ErrorCode::Internal`].
    pub fn internal(message: &str) -> (r: Self)
        ensures
            r.code == ErrorCode::Internal,
            r.message@ == message@,
    {
        Self::new(ErrorCode::Internal, message)
    }

    /// An error of the class [`ErrorCode::NotFound`].
    pub fn not_found(message: &str) -> (r: Self)
        ensures
            r.code == ErrorCode::NotFound,
            r.message@ == message@,
    {
        Self::new(ErrorCode::NotFound, message)
    }

    /// An error of the class [`ErrorCode::InvalidRequest`].
    pub fn invalid_request(message: &str) -> (r: Self)
        ensures
            r.code == ErrorCode::InvalidRequest,
            r.message@ == message@,
    {
        Self::new(ErrorCode::InvalidRequest, message)
    }

    /// An error of the class [`ErrorCode::PermissionDenied`].
    pub fn permission_denied(message: &str) -> (r: Self)
        ensures
            r.code == ErrorCode::PermissionDenied,
            r.message@ == message@,
    {
        Self::new(ErrorCode::PermissionDenied, message)
    }

    /// An error of the class [`ErrorCode::VersionMismatch`].
    pub fn version_mismatch(message: &str) -> (r: Self)
        ensures
            r.code == ErrorCode::VersionMismatch,
            r.message@ == message@,
    {
        Self::new(ErrorCode::VersionMismatch, message)
    }

    /// The error as one line: the name of its class, a colon and the message.
    pub fn to_string(&self) -> (r: String)
        ensures
            r@ == self.code.spec_name() + ": "@ + self.message@,
    {
        concat3(self.code.name(), ": ", self.message.as_str())
    }
}

} // verus!
