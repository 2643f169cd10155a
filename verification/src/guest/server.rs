//! Listening, and the first message of every connection.

use vstd::prelude::*;
use vstd::string::*;
use crate::proto::message::{
    ErrorCode, ErrorInfo, ExecStart, Hello, HelloAck, PROTOCOL_VERSION,
};
use crate::text::{concat2, decimal, spec_decimal};

verus! {

/// The uptime in whole milliseconds as the protocol carries it: the low 64
/// bits of the count.
pub fn uptime_ms(elapsed_millis: u128) -> (r: u64)
    ensures
        r == elapsed_millis % 0x1_0000_0000_0000_0000,
{
    (elapsed_millis % 0x1_0000_0000_0000_0000) as u64
}

/// The operation that a connection serves once the hello is answered.
#[derive(Debug, Clone)]
pub enum Route {
    /// Nothing: the connection is closed.
    Close,
    /// The control channel.
    Control,
    /// An execution. Its answer is sent once the child is started.
    Exec(ExecStart),
    /// Reading a file.
    FileRead {
        /// Path of the file.
        path: String,
    },
    /// Writing a file.
    FileWrite {
        /// Path of the file.
        path: String,
        /// Its permission bits.
        mode: u32,
    },
    /// Unpacking an archive.
    CopyIn {
        /// Directory to unpack into.
        dest: String,
    },
    /// Packing an archive.
    CopyOut {
        /// Path to pack.
        path: String,
        /// Whether symbolic links are followed.
        follow_symlinks: bool,
    },
}

/// What the agent does with a new connection: the answer to send at once, if
/// any, and the operation to serve.
#[derive(Debug, Clone)]
pub struct Session {
    /// The answer to the hello.
    pub ack: Option<HelloAck>,
    /// The operation to serve.
    pub route: Route,
}

/// The message of the error for a host that speaks another version.
pub open spec fn spec_mismatch_message(host: u32) -> Seq<char> {
    "host protocol v"@ + spec_decimal(host as nat) + ", guest protocol v"@ + spec_decimal(
        PROTOCOL_VERSION as nat,
    )
}

/// Says what the agent does with a connection that opens with `hello`. A
/// control channel is opened only for a host that speaks the version of the
/// agent; another host gets the error and the connection is closed. File and
/// copy operations are told at once that the agent is ready. An execution is
/// answered later, when its child runs.
pub fn session(hello: Hello) -> (r: Session)
    ensures
        match hello {
            Hello::Control { version } => if version == PROTOCOL_VERSION {
                r.ack == Some(HelloAck::Control { version: PROTOCOL_VERSION }) && r.route is Control
            } else {
                &&& r.route is Close
                &&& r.ack matches Some(HelloAck::Error(e)) && e.code == ErrorCode::VersionMismatch
                    && e.message@ == spec_mismatch_message(version)
            },
            Hello::Exec(req) => r.ack is None && r.route == Route::Exec(req),
            Hello::FileRead { path } => r.ack == Some(HelloAck::Ready) && r.route == (
            Route::FileRead { path }),
            Hello::FileWrite { path, mode } => r.ack == Some(HelloAck::Ready) && r.route == (
            Route::FileWrite { path, mode }),
            Hello::CopyIn { dest } => r.ack == Some(HelloAck::Ready) && r.route == (
            Route::CopyIn { dest }),
            Hello::CopyOut { path, follow_symlinks } => r.ack == Some(HelloAck::Ready) && r.route
                == (Route::CopyOut { path, follow_symlinks }),
        },
{
    match hello {
        Hello::Control { version } => {
            if version != PROTOCOL_VERSION {
                let mut msg = concat2("host protocol v", decimal(version as u64).as_str());
                msg.append(", guest protocol v");
                msg.append(decimal(PROTOCOL_VERSION as u64).as_str());
                Session {
                    ack: Some(HelloAck::Error(ErrorInfo::version_mismatch(msg.as_str()))),
                    route: Route::Close,
                }
            } else {
                Session {
                    ack: Some(HelloAck::Control { version: PROTOCOL_VERSION }),
                    route: Route::Control,
                }
            }
        },
        Hello::Exec(req) => Session { ack: None, route: Route::Exec(req) },
        Hello::FileRead { path } => Session {
            ack: Some(HelloAck::Ready),
            route: Route::FileRead { path },
        },
        Hello::FileWrite { path, mode } => Session {
            ack: Some(HelloAck::Ready),
            route: Route::FileWrite { path, mode },
        },
        Hello::CopyIn { dest } => Session { ack: Some(HelloAck::Ready), route: Route::CopyIn { dest } },
        Hello::CopyOut { path, follow_symlinks } => Session {
            ack: Some(HelloAck::Ready),
            route: Route::CopyOut { path, follow_symlinks },
        },
    }
}

} // verus!
