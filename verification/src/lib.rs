//! Control plane for lightweight micro-VM sandboxes.
//!
//! The crate holds what such a control plane decides, each decision with a
//! proved contract: the wire protocol between host and guest and its framing
//! ([`proto`]), the host side of it ([`client`]), the image store and the
//! layering of images ([`oci`]), base disks and copy-on-write overlays
//! ([`disk`]), the registry of the VMs ([`state`]), the life of a VM
//! ([`runtime`]), the sandbox around its process ([`jail`], [`watchdog`]), the
//! calls that set it up in the hypervisor ([`vm`], [`sys`]), and the agent
//! inside the guest ([`guest`]).
//!
//! Nothing here opens a file, a socket or a process. A function takes what
//! the world said as plain values and hands back what is to be done.

pub mod bytes;
pub mod cli;
pub mod client;
pub mod disk;
pub mod error;
pub mod guest;
pub mod jail;
pub mod oci;
pub mod proto;
pub mod runtime;
pub mod state;
pub mod sys;
pub mod text;
pub mod vm;
pub mod watchdog;

pub use client::{Client, ExecHandle, ExecOutput, PongInfo};
pub use disk::DiskManager;
pub use error::{Error, IoKind};
pub use jail::JailConfig;
pub use runtime::{Runtime, VmHandle};
pub use state::{StateDb, Status, VirtioFs, VmConfig, VmState, VsockPort};
pub use sys::{DiskFormat, Feature, KernelFormat, LogStyle, SyncMode};
pub use vm::{LogLevel, Vm, VmBuilder};
