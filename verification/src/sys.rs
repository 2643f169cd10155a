//! The calls that configure and start a VM in the hypervisor.
//!
//! The hypervisor is a C library. Here each of its calls is a value: its
//! arguments are checked, since no string for C may hold a NUL character, and
//! put into a [`KrunCall`]. Whoever holds the library makes the call and hands
//! the number that it returned to [`check`] or one of its kin.

use vstd::prelude::*;
use vstd::slice::slice_to_vec;
use vstd::string::*;
use crate::error::{Error, ErrorView};
use crate::text::{
    contains_char, opt_string_view, opt_strings_view, spec_contains, strings_to_vec, strings_view,
};

verus! {

/// Format of a disk image.
#[derive(Debug, Clone, Copy, PartialEq, Eq, Structural)]
pub enum DiskFormat {
    /// A raw image.
    Raw,
    /// A QCOW2 image.
    Qcow2,
    /// A VMDK image.
    Vmdk,
}

impl DiskFormat {
    /// The number that the hypervisor knows it by.
    pub open spec fn spec_code(self) -> u32 {
        match self {
            DiskFormat::Raw => 0,
            DiskFormat::Qcow2 => 1,
            DiskFormat::Vmdk => 2,
        }
    }

    /// The number that the hypervisor knows it by.
    pub fn code(self) -> (r: u32)
        ensures
            r == self.spec_code(),
    {
        match self {
            DiskFormat::Raw => 0,
            DiskFormat::Qcow2 => 1,
            DiskFormat::Vmdk => 2,
        }
    }
}

/// How writes to a block device reach the disk.
#[derive(Debug, Clone, Copy, PartialEq, Eq, Structural)]
pub enum SyncMode {
    /// Writes are not synced.
    Unsynced,
    /// Flushes of the drive are skipped where the host allows it.
    Relaxed,
    /// Every flush is carried out.
    Full,
}

impl SyncMode {
    /// The number that the hypervisor knows it by.
    pub open spec fn spec_code(self) -> u32 {
        match self {
            SyncMode::Unsynced => 0,
            SyncMode::Relaxed => 1,
            SyncMode::Full => 2,
        }
    }

    /// The number that the hypervisor knows it by.
    pub fn code(self) -> (r: u32)
        ensures
            r == self.spec_code(),
    {
        match self {
            SyncMode::Unsynced => 0,
            SyncMode::Relaxed => 1,
            SyncMode::Full => 2,
        }
    }
}

/// Whether the log uses colour.
#[derive(Debug, Clone, Copy, PartialEq, Eq, Structural)]
pub enum LogStyle {
    /// Colour where the log goes to a terminal.
    Auto,
    /// Colour always.
    Always,
    /// No colour.
    Never,
}

impl LogStyle {
    /// The number that the hypervisor knows it by.
    pub open spec fn spec_code(self) -> u32 {
        match self {
            LogStyle::Auto => 0,
            LogStyle::Always => 1,
            LogStyle::Never => 2,
        }
    }

    /// The number that the hypervisor knows it by.
    pub fn code(self) -> (r: u32)
        ensures
            r == self.spec_code(),
    {
        match self {
            LogStyle::Auto => 0,
            LogStyle::Always => 1,
            LogStyle::Never => 2,
        }
    }
}

/// Format of a kernel image.
#[derive(Debug, Clone, Copy, PartialEq, Eq, Structural)]
pub enum KernelFormat {
    /// A raw binary.
    Raw,
    /// An ELF executable.
    Elf,
    /// A PE image compressed with gzip.
    PeGz,
    /// A Linux image compressed with bzip2.
    ImageBz2,
    /// A Linux image compressed with gzip.
    ImageGz,
    /// A Linux image compressed with zstd.
    ImageZstd,
}

impl KernelFormat {
    /// The number that the hypervisor knows it by.
    pub open spec fn spec_code(self) -> u32 {
        match self {
            KernelFormat::Raw => 0,
            KernelFormat::Elf => 1,
            KernelFormat::PeGz => 2,
            KernelFormat::ImageBz2 => 3,
            KernelFormat::ImageGz => 4,
            KernelFormat::ImageZstd => 5,
        }
    }

    /// The number that the hypervisor knows it by.
    pub fn code(self) -> (r: u32)
        ensures
            r == self.spec_code(),
    {
        match self {
            KernelFormat::Raw => 0,
            KernelFormat::Elf => 1,
            KernelFormat::PeGz => 2,
            KernelFormat::ImageBz2 => 3,
            KernelFormat::ImageGz => 4,
            KernelFormat::ImageZstd => 5,
        }
    }
}

/// A feature that a build of the hypervisor may have.
#[derive(Debug, Clone, Copy, PartialEq, Eq, Structural)]
pub enum Feature {
    /// Networking.
    Net,
    /// Block devices.
    Blk,
    /// A GPU.
    Gpu,
    /// Sound.
    Snd,
    /// Input devices.
    Input,
    /// EFI firmware.
    Efi,
    /// A trusted execution environment.
    Tee,
    /// AMD SEV.
    AmdSev,
    /// Intel TDX.
    IntelTdx,
    /// AWS Nitro enclaves.
    AwsNitro,
    /// The second version of virgl resource maps.
    VirglResourceMap2,
}

impl Feature {
    /// The number that the hypervisor knows it by.
    pub open spec fn spec_code(self) -> u64 {
        match self {
            Feature::Net => 0,
            Feature::Blk => 1,
            Feature::Gpu => 2,
            Feature::Snd => 3,
            Feature::Input => 4,
            Feature::Efi => 5,
            Feature::Tee => 6,
            Feature::AmdSev => 7,
            Feature::IntelTdx => 8,
            Feature::AwsNitro => 9,
            Feature::VirglResourceMap2 => 10,
        }
    }

    /// The number that the hypervisor knows it by.
    pub fn code(self) -> (r: u64)
        ensures
            r == self.spec_code(),
    {
        match self {
            Feature::Net => 0,
            Feature::Blk => 1,
            Feature::Gpu => 2,
            Feature::Snd => 3,
            Feature::Input => 4,
            Feature::Efi => 5,
            Feature::Tee => 6,
            Feature::AmdSev => 7,
            Feature::IntelTdx => 8,
            Feature::AwsNitro => 9,
            Feature::VirglResourceMap2 => 10,
        }
    }
}

/// Whether `s` holds a NUL character, which no string for C may.
pub open spec fn spec_has_nul(s: Seq<char>) -> bool {
    spec_contains(s, '\0')
}

/// Whether the string, if there is one, holds a NUL character.
pub open spec fn spec_opt_has_nul(s: Option<Seq<char>>) -> bool {
    s is Some && spec_has_nul(s->Some_0)
}

/// Whether one of the strings holds a NUL character.
pub open spec fn spec_any_nul(list: Seq<Seq<char>>) -> bool {
    exists|i: int| 0 <= i < list.len() && spec_has_nul(#[trigger] list[i])
}

/// Whether one of the strings of the list, if there is one, holds a NUL
/// character.
pub open spec fn spec_opt_any_nul(list: Option<Seq<Seq<char>>>) -> bool {
    list is Some && spec_any_nul(list->Some_0)
}

/// The characters of an optional string.
pub open spec fn opt_str_view(s: Option<&str>) -> Option<Seq<char>> {
    match s {
        Some(x) => Some(x@),
        None => None,
    }
}

/// The strings of an optional list.
pub open spec fn opt_list_view(list: Option<&[String]>) -> Option<Seq<Seq<char>>> {
    match list {
        Some(x) => Some(strings_view(x@)),
        None => None,
    }
}

/// Whether `s` holds a NUL character.
pub fn has_nul(s: &str) -> (r: bool)
    ensures
        r == spec_has_nul(s@),
{
    contains_char(s, '\0')
}

/// Whether the string, if there is one, holds a NUL character.
pub fn opt_has_nul(s: Option<&str>) -> (r: bool)
    ensures
        r == spec_opt_has_nul(opt_str_view(s)),
{
    match s {
        Some(x) => has_nul(x),
        None => false,
    }
}

/// Whether one of the strings holds a NUL character.
pub fn any_nul(list: &[String]) -> (r: bool)
    ensures
        r == spec_any_nul(strings_view(list@)),
{
    let mut i: usize = 0;
    while i < list.len()
        invariant
            i <= list@.len(),
            forall|k: int| 0 <= k < i ==> !spec_has_nul(#[trigger] strings_view(list@)[k]),
        decreases list@.len() - i,
    {
        if has_nul(list[i].as_str()) {
            assert(spec_has_nul(strings_view(list@)[i as int]));
            return true;
        }
        i += 1;
    }
    false
}

/// Whether one of the strings of the list, if there is one, holds a NUL
/// character.
pub fn opt_any_nul(list: Option<&[String]>) -> (r: bool)
    ensures
        r == spec_opt_any_nul(opt_list_view(list)),
{
    match list {
        Some(x) => any_nul(x),
        None => false,
    }
}

fn stored_opt_has_nul(s: &Option<String>) -> (r: bool)
    ensures
        r == spec_opt_has_nul(opt_string_view(*s)),
{
    match s {
        Some(x) => has_nul(x.as_str()),
        None => false,
    }
}

fn stored_opt_any_nul(list: &Option<Vec<String>>) -> (r: bool)
    ensures
        r == spec_opt_any_nul(opt_strings_view(*list)),
{
    match list {
        Some(x) => any_nul(x.as_slice()),
        None => false,
    }
}

fn own_opt_str(s: Option<&str>) -> (r: Option<String>)
    ensures
        opt_string_view(r) == opt_str_view(s),
{
    match s {
        Some(x) => Some(String::from_str(x)),
        None => None,
    }
}

fn own_opt_list(list: Option<&[String]>) -> (r: Option<Vec<String>>)
    ensures
        opt_strings_view(r) == opt_list_view(list),
{
    match list {
        Some(x) => Some(strings_to_vec(x)),
        None => None,
    }
}

/// One call into the hypervisor, with its arguments. All but the first and
/// the queries act on a configuration context, which the caller supplies.
#[derive(Debug, Clone)]
pub enum KrunCall {
    /// Creates a configuration context; the hypervisor answers with its id.
    CreateCtx,
    /// Frees the configuration context.
    FreeCtx,
    /// Starts the VM, which takes over the process; it answers only when the
    /// start fails.
    StartEnter,
    /// Sets the log level of the hypervisor, for the whole process.
    SetLogLevel {
        level: u32,
    },
    /// Sets up logging: the descriptor to write to (`-1` for standard error),
    /// the level, the use of colour, and option bits.
    InitLog {
        target_fd: i32,
        level: u32,
        style: LogStyle,
        options: u32,
    },
    /// Sets the number of virtual CPUs and the memory in MiB.
    SetVmConfig {
        vcpus: u8,
        ram_mib: u32,
    },
    /// Sets the directory that holds the root filesystem.
    SetRoot {
        path: String,
    },
    /// Sets the working directory inside the VM.
    SetWorkdir {
        path: String,
    },
    /// Sets the executable, its arguments and, where given, its environment;
    /// without one the environment of the host is inherited.
    SetExec {
        path: String,
        args: Vec<String>,
        env: Option<Vec<String>>,
    },
    /// Sets the environment without naming an executable.
    SetEnv {
        env: Vec<String>,
    },
    /// Shares a directory of the host under a tag.
    AddVirtiofs {
        tag: String,
        host_path: String,
    },
    /// Shares a directory of the host under a tag, with a DAX window of the
    /// given size.
    AddVirtiofs2 {
        tag: String,
        host_path: String,
        shm_size: u64,
    },
    /// Adds a raw disk image.
    AddDisk {
        block_id: String,
        disk_path: String,
        read_only: bool,
    },
    /// Adds a disk image of the given format.
    AddDisk2 {
        block_id: String,
        disk_path: String,
        format: DiskFormat,
        read_only: bool,
    },
    /// Adds a disk image of the given format, with or without direct I/O, in
    /// the given sync mode.
    AddDisk3 {
        block_id: String,
        disk_path: String,
        format: DiskFormat,
        read_only: bool,
        direct_io: bool,
        sync: SyncMode,
    },
    /// Makes a block device the root filesystem, mounted once the VM is up.
    SetRootDiskRemount {
        device: String,
        fstype: Option<String>,
        options: Option<String>,
    },
    /// Sets the TCP port mappings, each `host:guest`.
    SetPortMap {
        ports: Vec<String>,
    },
    /// Adds a network device behind a Unix stream socket, given by path or by
    /// descriptor.
    AddNetUnixstream {
        path: Option<String>,
        fd: i32,
        mac: [u8; 6],
        features: u32,
        flags: u32,
    },
    /// Adds a network device behind a Unix datagram socket, given by path or
    /// by descriptor.
    AddNetUnixgram {
        path: Option<String>,
        fd: i32,
        mac: [u8; 6],
        features: u32,
        flags: u32,
    },
    /// Adds a network device behind a TAP device.
    AddNetTap {
        tap_name: String,
        mac: [u8; 6],
        features: u32,
        flags: u32,
    },
    /// Sets the MAC address of the network device.
    SetNetMac {
        mac: [u8; 6],
    },
    /// Ties a vsock port to a Unix socket of the host.
    AddVsockPort {
        port: u32,
        path: String,
    },
    /// Ties a vsock port to a Unix socket of the host, and says whether the
    /// guest is the side that listens.
    AddVsockPort2 {
        port: u32,
        path: String,
        listen: bool,
    },
    /// Adds a vsock device with the given TSI features.
    AddVsock {
        tsi_features: u32,
    },
    /// Switches the implicit vsock device off.
    DisableImplicitVsock,
    /// Switches the GPU on.
    SetGpuOptions {
        virgl_flags: u32,
    },
    /// Switches the GPU on, with a shared memory window of the given size.
    SetGpuOptions2 {
        virgl_flags: u32,
        shm_size: u64,
    },
    /// Adds a display; the hypervisor answers with its id.
    AddDisplay {
        width: u32,
        height: u32,
    },
    /// Sets the EDID blob of a display.
    DisplaySetEdid {
        display_id: u32,
        edid: Vec<u8>,
    },
    /// Sets the DPI of a display.
    DisplaySetDpi {
        display_id: u32,
        dpi: u32,
    },
    /// Sets the physical size of a display in millimetres.
    DisplaySetPhysicalSize {
        display_id: u32,
        w_mm: u16,
        h_mm: u16,
    },
    /// Sets the refresh rate of a display in Hz.
    DisplaySetRefreshRate {
        display_id: u32,
        hz: u32,
    },
    /// Adds an input device of the host by its descriptor.
    AddInputDeviceFd {
        fd: i32,
    },
    /// Switches the sound device on or off.
    SetSndDevice {
        enable: bool,
    },
    /// Sets resource limits, each `RESOURCE=CUR:MAX`.
    SetRlimits {
        rlimits: Vec<String>,
    },
    /// Sets the SMBIOS OEM strings.
    SetSmbiosOemStrings {
        strings: Vec<String>,
    },
    /// Sets the user id that the VM process takes before it starts the VM.
    Setuid {
        uid: u32,
    },
    /// Sets the group id that the VM process takes before it starts the VM.
    Setgid {
        gid: u32,
    },
    /// Switches nested virtualisation on or off.
    SetNestedVirt {
        enable: bool,
    },
    /// Asks whether nested virtualisation is supported.
    CheckNestedVirt,
    /// Sets the TEE configuration file.
    SetTeeConfigFile {
        path: String,
    },
    /// Sets the firmware.
    SetFirmware {
        path: String,
    },
    /// Sets the kernel, and where given the initramfs and the command line.
    SetKernel {
        kernel_path: String,
        format: KernelFormat,
        initramfs: Option<String>,
        cmdline: Option<String>,
    },
    /// Sends the console output to a file.
    SetConsoleOutput {
        path: String,
    },
    /// Switches the implicit console off.
    DisableImplicitConsole,
    /// Adds a virtio console on the given descriptors.
    AddVirtioConsoleDefault {
        input_fd: i32,
        output_fd: i32,
        err_fd: i32,
    },
    /// Adds a serial console on the given descriptors.
    AddSerialConsoleDefault {
        input_fd: i32,
        output_fd: i32,
    },
    /// Adds a virtio console with several ports; the hypervisor answers with
    /// its id.
    AddVirtioConsoleMultiport,
    /// Adds a terminal port to a console with several ports.
    AddConsolePortTty {
        console_id: u32,
        name: String,
        tty_fd: i32,
    },
    /// Adds a port with an input and an output descriptor to a console with
    /// several ports.
    AddConsolePortInout {
        console_id: u32,
        name: String,
        input_fd: i32,
        output_fd: i32,
    },
    /// Names the console of the kernel.
    SetKernelConsole {
        console_id: String,
    },
    /// Asks for the largest number of virtual CPUs.
    GetMaxVcpus,
    /// Asks whether the hypervisor was built with a feature.
    HasFeature {
        feature: Feature,
    },
    /// Asks for the descriptor that signals a shutdown to the guest.
    GetShutdownEventfd,
    /// Splits the interrupt controller between host and guest, or not.
    SplitIrqchip {
        enable: bool,
    },
}

/// A call as plain data.
pub enum KrunCallView {
    /// Creates a configuration context; the hypervisor answers with its id.
    CreateCtx,
    /// Frees the configuration context.
    FreeCtx,
    /// Starts the VM, which takes over the process; it answers only when the
    /// start fails.
    StartEnter,
    /// Sets the log level of the hypervisor, for the whole process.
    SetLogLevel {
        level: u32,
    },
    /// Sets up logging: the descriptor to write to (`-1` for standard error),
    /// the level, the use of colour, and option bits.
    InitLog {
        target_fd: i32,
        level: u32,
        style: LogStyle,
        options: u32,
    },
    /// Sets the number of virtual CPUs and the memory in MiB.
    SetVmConfig {
        vcpus: u8,
        ram_mib: u32,
    },
    /// Sets the directory that holds the root filesystem.
    SetRoot {
        path: Seq<char>,
    },
    /// Sets the working directory inside the VM.
    SetWorkdir {
        path: Seq<char>,
    },
    /// Sets the executable, its arguments and, where given, its environment;
    /// without one the environment of the host is inherited.
    SetExec {
        path: Seq<char>,
        args: Seq<Seq<char>>,
        env: Option<Seq<Seq<char>>>,
    },
    /// Sets the environment without naming an executable.
    SetEnv {
        env: Seq<Seq<char>>,
    },
    /// Shares a directory of the host under a tag.
    AddVirtiofs {
        tag: Seq<char>,
        host_path: Seq<char>,
    },
    /// Shares a directory of the host under a tag, with a DAX window of the
    /// given size.
    AddVirtiofs2 {
        tag: Seq<char>,
        host_path: Seq<char>,
        shm_size: u64,
    },
    /// Adds a raw disk image.
    AddDisk {
        block_id: Seq<char>,
        disk_path: Seq<char>,
        read_only: bool,
    },
    /// Adds a disk image of the given format.
    AddDisk2 {
        block_id: Seq<char>,
        disk_path: Seq<char>,
        format: DiskFormat,
        read_only: bool,
    },
    /// Adds a disk image of the given format, with or without direct I/O, in
    /// the given sync mode.
    AddDisk3 {
        block_id: Seq<char>,
        disk_path: Seq<char>,
        format: DiskFormat,
        read_only: bool,
        direct_io: bool,
        sync: SyncMode,
    },
    /// Makes a block device the root filesystem, mounted once the VM is up.
    SetRootDiskRemount {
        device: Seq<char>,
        fstype: Option<Seq<char>>,
        options: Option<Seq<char>>,
    },
    /// Sets the TCP port mappings, each `host:guest`.
    SetPortMap {
        ports: Seq<Seq<char>>,
    },
    /// Adds a network device behind a Unix stream socket, given by path or by
    /// descriptor.
    AddNetUnixstream {
        path: Option<Seq<char>>,
        fd: i32,
        mac: Seq<u8>,
        features: u32,
        flags: u32,
    },
    /// Adds a network device behind a Unix datagram socket, given by path or
    /// by descriptor.
    AddNetUnixgram {
        path: Option<Seq<char>>,
        fd: i32,
        mac: Seq<u8>,
        features: u32,
        flags: u32,
    },
    /// Adds a network device behind a TAP device.
    AddNetTap {
        tap_name: Seq<char>,
        mac: Seq<u8>,
        features: u32,
        flags: u32,
    },
    /// Sets the MAC address of the network device.
    SetNetMac {
        mac: Seq<u8>,
    },
    /// Ties a vsock port to a Unix socket of the host.
    AddVsockPort {
        port: u32,
        path: Seq<char>,
    },
    /// Ties a vsock port to a Unix socket of the host, and says whether the
    /// guest is the side that listens.
    AddVsockPort2 {
        port: u32,
        path: Seq<char>,
        listen: bool,
    },
    /// Adds a vsock device with the given TSI features.
    AddVsock {
        tsi_features: u32,
    },
    /// Switches the implicit vsock device off.
    DisableImplicitVsock,
    /// Switches the GPU on.
    SetGpuOptions {
        virgl_flags: u32,
    },
    /// Switches the GPU on, with a shared memory window of the given size.
    SetGpuOptions2 {
        virgl_flags: u32,
        shm_size: u64,
    },
    /// Adds a display; the hypervisor answers with its id.
    AddDisplay {
        width: u32,
        height: u32,
    },
    /// Sets the EDID blob of a display.
    DisplaySetEdid {
        display_id: u32,
        edid: Seq<u8>,
    },
    /// Sets the DPI of a display.
    DisplaySetDpi {
        display_id: u32,
        dpi: u32,
    },
    /// Sets the physical size of a display in millimetres.
    DisplaySetPhysicalSize {
        display_id: u32,
        w_mm: u16,
        h_mm: u16,
    },
    /// Sets the refresh rate of a display in Hz.
    DisplaySetRefreshRate {
        display_id: u32,
        hz: u32,
    },
    /// Adds an input device of the host by its descriptor.
    AddInputDeviceFd {
        fd: i32,
    },
    /// Switches the sound device on or off.
    SetSndDevice {
        enable: bool,
    },
    /// Sets resource limits, each `RESOURCE=CUR:MAX`.
    SetRlimits {
        rlimits: Seq<Seq<char>>,
    },
    /// Sets the SMBIOS OEM strings.
    SetSmbiosOemStrings {
        strings: Seq<Seq<char>>,
    },
    /// Sets the user id that the VM process takes before it starts the VM.
    Setuid {
        uid: u32,
    },
    /// Sets the group id that the VM process takes before it starts the VM.
    Setgid {
        gid: u32,
    },
    /// Switches nested virtualisation on or off.
    SetNestedVirt {
        enable: bool,
    },
    /// Asks whether nested virtualisation is supported.
    CheckNestedVirt,
    /// Sets the TEE configuration file.
    SetTeeConfigFile {
        path: Seq<char>,
    },
    /// Sets the firmware.
    SetFirmware {
        path: Seq<char>,
    },
    /// Sets the kernel, and where given the initramfs and the command line.
    SetKernel {
        kernel_path: Seq<char>,
        format: KernelFormat,
        initramfs: Option<Seq<char>>,
        cmdline: Option<Seq<char>>,
    },
    /// Sends the console output to a file.
    SetConsoleOutput {
        path: Seq<char>,
    },
    /// Switches the implicit console off.
    DisableImplicitConsole,
    /// Adds a virtio console on the given descriptors.
    AddVirtioConsoleDefault {
        input_fd: i32,
        output_fd: i32,
        err_fd: i32,
    },
    /// Adds a serial console on the given descriptors.
    AddSerialConsoleDefault {
        input_fd: i32,
        output_fd: i32,
    },
    /// Adds a virtio console with several ports; the hypervisor answers with
    /// its id.
    AddVirtioConsoleMultiport,
    /// Adds a terminal port to a console with several ports.
    AddConsolePortTty {
        console_id: u32,
        name: Seq<char>,
        tty_fd: i32,
    },
    /// Adds a port with an input and an output descriptor to a console with
    /// several ports.
    AddConsolePortInout {
        console_id: u32,
        name: Seq<char>,
        input_fd: i32,
        output_fd: i32,
    },
    /// Names the console of the kernel.
    SetKernelConsole {
        console_id: Seq<char>,
    },
    /// Asks for the largest number of virtual CPUs.
    GetMaxVcpus,
    /// Asks whether the hypervisor was built with a feature.
    HasFeature {
        feature: Feature,
    },
    /// Asks for the descriptor that signals a shutdown to the guest.
    GetShutdownEventfd,
    /// Splits the interrupt controller between host and guest, or not.
    SplitIrqchip {
        enable: bool,
    },
}

impl View for KrunCall {
    type V = KrunCallView;

    open spec fn view(&self) -> KrunCallView {
        match self {
            KrunCall::CreateCtx => KrunCallView::CreateCtx,
            KrunCall::FreeCtx => KrunCallView::FreeCtx,
            KrunCall::StartEnter => KrunCallView::StartEnter,
            KrunCall::SetLogLevel { level } => KrunCallView::SetLogLevel { level: *level },
            KrunCall::InitLog { target_fd, level, style, options } => KrunCallView::InitLog { target_fd: *target_fd, level: *level, style: *style, options: *options },
            KrunCall::SetVmConfig { vcpus, ram_mib } => KrunCallView::SetVmConfig { vcpus: *vcpus, ram_mib: *ram_mib },
            KrunCall::SetRoot { path } => KrunCallView::SetRoot { path: path@ },
            KrunCall::SetWorkdir { path } => KrunCallView::SetWorkdir { path: path@ },
            KrunCall::SetExec { path, args, env } => KrunCallView::SetExec { path: path@, args: strings_view(args@), env: opt_strings_view(*env) },
            KrunCall::SetEnv { env } => KrunCallView::SetEnv { env: strings_view(env@) },
            KrunCall::AddVirtiofs { tag, host_path } => KrunCallView::AddVirtiofs { tag: tag@, host_path: host_path@ },
            KrunCall::AddVirtiofs2 { tag, host_path, shm_size } => KrunCallView::AddVirtiofs2 { tag: tag@, host_path: host_path@, shm_size: *shm_size },
            KrunCall::AddDisk { block_id, disk_path, read_only } => KrunCallView::AddDisk { block_id: block_id@, disk_path: disk_path@, read_only: *read_only },
            KrunCall::AddDisk2 { block_id, disk_path, format, read_only } => KrunCallView::AddDisk2 { block_id: block_id@, disk_path: disk_path@, format: *format, read_only: *read_only },
            KrunCall::AddDisk3 { block_id, disk_path, format, read_only, direct_io, sync } => KrunCallView::AddDisk3 { block_id: block_id@, disk_path: disk_path@, format: *format, read_only: *read_only, direct_io: *direct_io, sync: *sync },
            KrunCall::SetRootDiskRemount { device, fstype, options } => KrunCallView::SetRootDiskRemount { device: device@, fstype: opt_string_view(*fstype), options: opt_string_view(*options) },
            KrunCall::SetPortMap { ports } => KrunCallView::SetPortMap { ports: strings_view(ports@) },
            KrunCall::AddNetUnixstream { path, fd, mac, features, flags } => KrunCallView::AddNetUnixstream { path: opt_string_view(*path), fd: *fd, mac: mac@, features: *features, flags: *flags },
            KrunCall::AddNetUnixgram { path, fd, mac, features, flags } => KrunCallView::AddNetUnixgram { path: opt_string_view(*path), fd: *fd, mac: mac@, features: *features, flags: *flags },
            KrunCall::AddNetTap { tap_name, mac, features, flags } => KrunCallView::AddNetTap { tap_name: tap_name@, mac: mac@, features: *features, flags: *flags },
            KrunCall::SetNetMac { mac } => KrunCallView::SetNetMac { mac: mac@ },
            KrunCall::AddVsockPort { port, path } => KrunCallView::AddVsockPort { port: *port, path: path@ },
            KrunCall::AddVsockPort2 { port, path, listen } => KrunCallView::AddVsockPort2 { port: *port, path: path@, listen: *listen },
            KrunCall::AddVsock { tsi_features } => KrunCallView::AddVsock { tsi_features: *tsi_features },
            KrunCall::DisableImplicitVsock => KrunCallView::DisableImplicitVsock,
            KrunCall::SetGpuOptions { virgl_flags } => KrunCallView::SetGpuOptions { virgl_flags: *virgl_flags },
            KrunCall::SetGpuOptions2 { virgl_flags, shm_size } => KrunCallView::SetGpuOptions2 { virgl_flags: *virgl_flags, shm_size: *shm_size },
            KrunCall::AddDisplay { width, height } => KrunCallView::AddDisplay { width: *width, height: *height },
            KrunCall::DisplaySetEdid { display_id, edid } => KrunCallView::DisplaySetEdid { display_id: *display_id, edid: edid@ },
            KrunCall::DisplaySetDpi { display_id, dpi } => KrunCallView::DisplaySetDpi { display_id: *display_id, dpi: *dpi },
            KrunCall::DisplaySetPhysicalSize { display_id, w_mm, h_mm } => KrunCallView::DisplaySetPhysicalSize { display_id: *display_id, w_mm: *w_mm, h_mm: *h_mm },
            KrunCall::DisplaySetRefreshRate { display_id, hz } => KrunCallView::DisplaySetRefreshRate { display_id: *display_id, hz: *hz },
            KrunCall::AddInputDeviceFd { fd } => KrunCallView::AddInputDeviceFd { fd: *fd },
            KrunCall::SetSndDevice { enable } => KrunCallView::SetSndDevice { enable: *enable },
            KrunCall::SetRlimits { rlimits } => KrunCallView::SetRlimits { rlimits: strings_view(rlimits@) },
            KrunCall::SetSmbiosOemStrings { strings } => KrunCallView::SetSmbiosOemStrings { strings: strings_view(strings@) },
            KrunCall::Setuid { uid } => KrunCallView::Setuid { uid: *uid },
            KrunCall::Setgid { gid } => KrunCallView::Setgid { gid: *gid },
            KrunCall::SetNestedVirt { enable } => KrunCallView::SetNestedVirt { enable: *enable },
            KrunCall::CheckNestedVirt => KrunCallView::CheckNestedVirt,
            KrunCall::SetTeeConfigFile { path } => KrunCallView::SetTeeConfigFile { path: path@ },
            KrunCall::SetFirmware { path } => KrunCallView::SetFirmware { path: path@ },
            KrunCall::SetKernel { kernel_path, format, initramfs, cmdline } => KrunCallView::SetKernel { kernel_path: kernel_path@, format: *format, initramfs: opt_string_view(*initramfs), cmdline: opt_string_view(*cmdline) },
            KrunCall::SetConsoleOutput { path } => KrunCallView::SetConsoleOutput { path: path@ },
            KrunCall::DisableImplicitConsole => KrunCallView::DisableImplicitConsole,
            KrunCall::AddVirtioConsoleDefault { input_fd, output_fd, err_fd } => KrunCallView::AddVirtioConsoleDefault { input_fd: *input_fd, output_fd: *output_fd, err_fd: *err_fd },
            KrunCall::AddSerialConsoleDefault { input_fd, output_fd } => KrunCallView::AddSerialConsoleDefault { input_fd: *input_fd, output_fd: *output_fd },
            KrunCall::AddVirtioConsoleMultiport => KrunCallView::AddVirtioConsoleMultiport,
            KrunCall::AddConsolePortTty { console_id, name, tty_fd } => KrunCallView::AddConsolePortTty { console_id: *console_id, name: name@, tty_fd: *tty_fd },
            KrunCall::AddConsolePortInout { console_id, name, input_fd, output_fd } => KrunCallView::AddConsolePortInout { console_id: *console_id, name: name@, input_fd: *input_fd, output_fd: *output_fd },
            KrunCall::SetKernelConsole { console_id } => KrunCallView::SetKernelConsole { console_id: console_id@ },
            KrunCall::GetMaxVcpus => KrunCallView::GetMaxVcpus,
            KrunCall::HasFeature { feature } => KrunCallView::HasFeature { feature: *feature },
            KrunCall::GetShutdownEventfd => KrunCallView::GetShutdownEventfd,
            KrunCall::SplitIrqchip { enable } => KrunCallView::SplitIrqchip { enable: *enable },
        }
    }
}

impl KrunCallView {
    /// Whether one of the strings of the call holds a NUL character, so that
    /// the call cannot be made.
    pub open spec fn has_nul(self) -> bool {
        match self {
            KrunCallView::SetRoot { path, .. } => spec_has_nul(path),
            KrunCallView::SetWorkdir { path, .. } => spec_has_nul(path),
            KrunCallView::SetExec { path, args, env, .. } => spec_has_nul(path) || spec_any_nul(args) || spec_opt_any_nul(env),
            KrunCallView::SetEnv { env, .. } => spec_any_nul(env),
            KrunCallView::AddVirtiofs { tag, host_path, .. } => spec_has_nul(tag) || spec_has_nul(host_path),
            KrunCallView::AddVirtiofs2 { tag, host_path, .. } => spec_has_nul(tag) || spec_has_nul(host_path),
            KrunCallView::AddDisk { block_id, disk_path, .. } => spec_has_nul(block_id) || spec_has_nul(disk_path),
            KrunCallView::AddDisk2 { block_id, disk_path, .. } => spec_has_nul(block_id) || spec_has_nul(disk_path),
            KrunCallView::AddDisk3 { block_id, disk_path, .. } => spec_has_nul(block_id) || spec_has_nul(disk_path),
            KrunCallView::SetRootDiskRemount { device, fstype, options, .. } => spec_has_nul(device) || spec_opt_has_nul(fstype) || spec_opt_has_nul(options),
            KrunCallView::SetPortMap { ports, .. } => spec_any_nul(ports),
            KrunCallView::AddNetUnixstream { path, .. } => spec_opt_has_nul(path),
            KrunCallView::AddNetUnixgram { path, .. } => spec_opt_has_nul(path),
            KrunCallView::AddNetTap { tap_name, .. } => spec_has_nul(tap_name),
            KrunCallView::AddVsockPort { path, .. } => spec_has_nul(path),
            KrunCallView::AddVsockPort2 { path, .. } => spec_has_nul(path),
            KrunCallView::SetRlimits { rlimits, .. } => spec_any_nul(rlimits),
            KrunCallView::SetSmbiosOemStrings { strings, .. } => spec_any_nul(strings),
            KrunCallView::SetTeeConfigFile { path, .. } => spec_has_nul(path),
            KrunCallView::SetFirmware { path, .. } => spec_has_nul(path),
            KrunCallView::SetKernel { kernel_path, initramfs, cmdline, .. } => spec_has_nul(kernel_path) || spec_opt_has_nul(initramfs) || spec_opt_has_nul(cmdline),
            KrunCallView::SetConsoleOutput { path, .. } => spec_has_nul(path),
            KrunCallView::AddConsolePortTty { name, .. } => spec_has_nul(name),
            KrunCallView::AddConsolePortInout { name, .. } => spec_has_nul(name),
            KrunCallView::SetKernelConsole { console_id, .. } => spec_has_nul(console_id),
            _ => false,
        }
    }

    /// The name of the operation, as errors report it.
    pub open spec fn op(self) -> Seq<char> {
        match self {
            KrunCallView::CreateCtx => "create_ctx"@,
            KrunCallView::FreeCtx => "free_ctx"@,
            KrunCallView::StartEnter => "start_enter"@,
            KrunCallView::SetLogLevel { .. } => "set_log_level"@,
            KrunCallView::InitLog { .. } => "init_log"@,
            KrunCallView::SetVmConfig { .. } => "set_vm_config"@,
            KrunCallView::SetRoot { .. } => "set_root"@,
            KrunCallView::SetWorkdir { .. } => "set_workdir"@,
            KrunCallView::SetExec { .. } => "set_exec"@,
            KrunCallView::SetEnv { .. } => "set_env"@,
            KrunCallView::AddVirtiofs { .. } => "add_virtiofs"@,
            KrunCallView::AddVirtiofs2 { .. } => "add_virtiofs2"@,
            KrunCallView::AddDisk { .. } => "add_disk"@,
            KrunCallView::AddDisk2 { .. } => "add_disk2"@,
            KrunCallView::AddDisk3 { .. } => "add_disk3"@,
            KrunCallView::SetRootDiskRemount { .. } => "set_root_disk_remount"@,
            KrunCallView::SetPortMap { .. } => "set_port_map"@,
            KrunCallView::AddNetUnixstream { .. } => "add_net_unixstream"@,
            KrunCallView::AddNetUnixgram { .. } => "add_net_unixgram"@,
            KrunCallView::AddNetTap { .. } => "add_net_tap"@,
            KrunCallView::SetNetMac { .. } => "set_net_mac"@,
            KrunCallView::AddVsockPort { .. } => "add_vsock_port"@,
            KrunCallView::AddVsockPort2 { .. } => "add_vsock_port2"@,
            KrunCallView::AddVsock { .. } => "add_vsock"@,
            KrunCallView::DisableImplicitVsock => "disable_implicit_vsock"@,
            KrunCallView::SetGpuOptions { .. } => "set_gpu_options"@,
            KrunCallView::SetGpuOptions2 { .. } => "set_gpu_options2"@,
            KrunCallView::AddDisplay { .. } => "add_display"@,
            KrunCallView::DisplaySetEdid { .. } => "display_set_edid"@,
            KrunCallView::DisplaySetDpi { .. } => "display_set_dpi"@,
            KrunCallView::DisplaySetPhysicalSize { .. } => "display_set_physical_size"@,
            KrunCallView::DisplaySetRefreshRate { .. } => "display_set_refresh_rate"@,
            KrunCallView::AddInputDeviceFd { .. } => "add_input_device_fd"@,
            KrunCallView::SetSndDevice { .. } => "set_snd_device"@,
            KrunCallView::SetRlimits { .. } => "set_rlimits"@,
            KrunCallView::SetSmbiosOemStrings { .. } => "set_smbios_oem_strings"@,
            KrunCallView::Setuid { .. } => "setuid"@,
            KrunCallView::Setgid { .. } => "setgid"@,
            KrunCallView::SetNestedVirt { .. } => "set_nested_virt"@,
            KrunCallView::CheckNestedVirt => "check_nested_virt"@,
            KrunCallView::SetTeeConfigFile { .. } => "set_tee_config_file"@,
            KrunCallView::SetFirmware { .. } => "set_firmware"@,
            KrunCallView::SetKernel { .. } => "set_kernel"@,
            KrunCallView::SetConsoleOutput { .. } => "set_console_output"@,
            KrunCallView::DisableImplicitConsole => "disable_implicit_console"@,
            KrunCallView::AddVirtioConsoleDefault { .. } => "add_virtio_console_default"@,
            KrunCallView::AddSerialConsoleDefault { .. } => "add_serial_console_default"@,
            KrunCallView::AddVirtioConsoleMultiport => "add_virtio_console_multiport"@,
            KrunCallView::AddConsolePortTty { .. } => "add_console_port_tty"@,
            KrunCallView::AddConsolePortInout { .. } => "add_console_port_inout"@,
            KrunCallView::SetKernelConsole { .. } => "set_kernel_console"@,
            KrunCallView::GetMaxVcpus => "get_max_vcpus"@,
            KrunCallView::HasFeature { .. } => "has_feature"@,
            KrunCallView::GetShutdownEventfd => "get_shutdown_eventfd"@,
            KrunCallView::SplitIrqchip { .. } => "split_irqchip"@,
        }
    }
}

impl KrunCall {
    /// Whether one of the strings of the call holds a NUL character, so that
    /// the call cannot be made.
    pub fn has_nul(&self) -> (r: bool)
        ensures
            r == self@.has_nul(),
    {
        match self {
            KrunCall::SetRoot { path, .. } => has_nul(path.as_str()),
            KrunCall::SetWorkdir { path, .. } => has_nul(path.as_str()),
            KrunCall::SetExec { path, args, env, .. } => has_nul(path.as_str()) || any_nul(args.as_slice()) || stored_opt_any_nul(env),
            KrunCall::SetEnv { env, .. } => any_nul(env.as_slice()),
            KrunCall::AddVirtiofs { tag, host_path, .. } => has_nul(tag.as_str()) || has_nul(host_path.as_str()),
            KrunCall::AddVirtiofs2 { tag, host_path, .. } => has_nul(tag.as_str()) || has_nul(host_path.as_str()),
            KrunCall::AddDisk { block_id, disk_path, .. } => has_nul(block_id.as_str()) || has_nul(disk_path.as_str()),
            KrunCall::AddDisk2 { block_id, disk_path, .. } => has_nul(block_id.as_str()) || has_nul(disk_path.as_str()),
            KrunCall::AddDisk3 { block_id, disk_path, .. } => has_nul(block_id.as_str()) || has_nul(disk_path.as_str()),
            KrunCall::SetRootDiskRemount { device, fstype, options, .. } => has_nul(device.as_str()) || stored_opt_has_nul(fstype) || stored_opt_has_nul(options),
            KrunCall::SetPortMap { ports, .. } => any_nul(ports.as_slice()),
            KrunCall::AddNetUnixstream { path, .. } => stored_opt_has_nul(path),
            KrunCall::AddNetUnixgram { path, .. } => stored_opt_has_nul(path),
            KrunCall::AddNetTap { tap_name, .. } => has_nul(tap_name.as_str()),
            KrunCall::AddVsockPort { path, .. } => has_nul(path.as_str()),
            KrunCall::AddVsockPort2 { path, .. } => has_nul(path.as_str()),
            KrunCall::SetRlimits { rlimits, .. } => any_nul(rlimits.as_slice()),
            KrunCall::SetSmbiosOemStrings { strings, .. } => any_nul(strings.as_slice()),
            KrunCall::SetTeeConfigFile { path, .. } => has_nul(path.as_str()),
            KrunCall::SetFirmware { path, .. } => has_nul(path.as_str()),
            KrunCall::SetKernel { kernel_path, initramfs, cmdline, .. } => has_nul(kernel_path.as_str()) || stored_opt_has_nul(initramfs) || stored_opt_has_nul(cmdline),
            KrunCall::SetConsoleOutput { path, .. } => has_nul(path.as_str()),
            KrunCall::AddConsolePortTty { name, .. } => has_nul(name.as_str()),
            KrunCall::AddConsolePortInout { name, .. } => has_nul(name.as_str()),
            KrunCall::SetKernelConsole { console_id, .. } => has_nul(console_id.as_str()),
            _ => false,
        }
    }

    /// The name of the operation, as errors report it.
    pub fn op(&self) -> (r: &'static str)
        ensures
            r@ == self@.op(),
    {
        match self {
            KrunCall::CreateCtx => "create_ctx",
            KrunCall::FreeCtx => "free_ctx",
            KrunCall::StartEnter => "start_enter",
            KrunCall::SetLogLevel { .. } => "set_log_level",
            KrunCall::InitLog { .. } => "init_log",
            KrunCall::SetVmConfig { .. } => "set_vm_config",
            KrunCall::SetRoot { .. } => "set_root",
            KrunCall::SetWorkdir { .. } => "set_workdir",
            KrunCall::SetExec { .. } => "set_exec",
            KrunCall::SetEnv { .. } => "set_env",
            KrunCall::AddVirtiofs { .. } => "add_virtiofs",
            KrunCall::AddVirtiofs2 { .. } => "add_virtiofs2",
            KrunCall::AddDisk { .. } => "add_disk",
            KrunCall::AddDisk2 { .. } => "add_disk2",
            KrunCall::AddDisk3 { .. } => "add_disk3",
            KrunCall::SetRootDiskRemount { .. } => "set_root_disk_remount",
            KrunCall::SetPortMap { .. } => "set_port_map",
            KrunCall::AddNetUnixstream { .. } => "add_net_unixstream",
            KrunCall::AddNetUnixgram { .. } => "add_net_unixgram",
            KrunCall::AddNetTap { .. } => "add_net_tap",
            KrunCall::SetNetMac { .. } => "set_net_mac",
            KrunCall::AddVsockPort { .. } => "add_vsock_port",
            KrunCall::AddVsockPort2 { .. } => "add_vsock_port2",
            KrunCall::AddVsock { .. } => "add_vsock",
            KrunCall::DisableImplicitVsock => "disable_implicit_vsock",
            KrunCall::SetGpuOptions { .. } => "set_gpu_options",
            KrunCall::SetGpuOptions2 { .. } => "set_gpu_options2",
            KrunCall::AddDisplay { .. } => "add_display",
            KrunCall::DisplaySetEdid { .. } => "display_set_edid",
            KrunCall::DisplaySetDpi { .. } => "display_set_dpi",
            KrunCall::DisplaySetPhysicalSize { .. } => "display_set_physical_size",
            KrunCall::DisplaySetRefreshRate { .. } => "display_set_refresh_rate",
            KrunCall::AddInputDeviceFd { .. } => "add_input_device_fd",
            KrunCall::SetSndDevice { .. } => "set_snd_device",
            KrunCall::SetRlimits { .. } => "set_rlimits",
            KrunCall::SetSmbiosOemStrings { .. } => "set_smbios_oem_strings",
            KrunCall::Setuid { .. } => "setuid",
            KrunCall::Setgid { .. } => "setgid",
            KrunCall::SetNestedVirt { .. } => "set_nested_virt",
            KrunCall::CheckNestedVirt => "check_nested_virt",
            KrunCall::SetTeeConfigFile { .. } => "set_tee_config_file",
            KrunCall::SetFirmware { .. } => "set_firmware",
            KrunCall::SetKernel { .. } => "set_kernel",
            KrunCall::SetConsoleOutput { .. } => "set_console_output",
            KrunCall::DisableImplicitConsole => "disable_implicit_console",
            KrunCall::AddVirtioConsoleDefault { .. } => "add_virtio_console_default",
            KrunCall::AddSerialConsoleDefault { .. } => "add_serial_console_default",
            KrunCall::AddVirtioConsoleMultiport => "add_virtio_console_multiport",
            KrunCall::AddConsolePortTty { .. } => "add_console_port_tty",
            KrunCall::AddConsolePortInout { .. } => "add_console_port_inout",
            KrunCall::SetKernelConsole { .. } => "set_kernel_console",
            KrunCall::GetMaxVcpus => "get_max_vcpus",
            KrunCall::HasFeature { .. } => "has_feature",
            KrunCall::GetShutdownEventfd => "get_shutdown_eventfd",
            KrunCall::SplitIrqchip { .. } => "split_irqchip",
        }
    }
}

/// Reads the number that a call returned: a negative one is the error code
/// of the operation `op`.
pub fn check(op: &'static str, ret: i32) -> (r: Result<(), Error>)
    ensures
        ret < 0 ==> r is Err && r->Err_0@ == (ErrorView::Krun { op: op@, code: ret }),
        ret >= 0 ==> r is Ok,
{
    if ret < 0 {
        Err(Error::Krun { op, code: ret })
    } else {
        Ok(())
    }
}

/// Reads the number that a call returned as an id or a count: a negative one
/// is the error code of the operation `op`.
pub fn check_count(op: &'static str, ret: i32) -> (r: Result<u32, Error>)
    ensures
        ret < 0 ==> r is Err && r->Err_0@ == (ErrorView::Krun { op: op@, code: ret }),
        ret >= 0 ==> r is Ok && r->Ok_0 == ret,
{
    if ret < 0 {
        Err(Error::Krun { op, code: ret })
    } else {
        Ok(ret as u32)
    }
}

/// Reads the number that a query returned as an answer: a negative one is the
/// error code of the operation `op`, `1` is yes, anything else is no.
pub fn check_flag(op: &'static str, ret: i32) -> (r: Result<bool, Error>)
    ensures
        ret < 0 ==> r is Err && r->Err_0@ == (ErrorView::Krun { op: op@, code: ret }),
        ret >= 0 ==> r is Ok && r->Ok_0 == (ret == 1),
{
    if ret < 0 {
        Err(Error::Krun { op, code: ret })
    } else {
        Ok(ret == 1)
    }
}

/// Reads the number that a call returned as a descriptor: a negative one is
/// the error code of the operation `op`.
pub fn check_fd(op: &'static str, ret: i32) -> (r: Result<i32, Error>)
    ensures
        ret < 0 ==> r is Err && r->Err_0@ == (ErrorView::Krun { op: op@, code: ret }),
        ret >= 0 ==> r is Ok && r->Ok_0 == ret,
{
    if ret < 0 {
        Err(Error::Krun { op, code: ret })
    } else {
        Ok(ret)
    }
}

/// Creates a configuration context; the hypervisor answers with its id.
pub fn create_ctx() -> (r: KrunCall)
    ensures
        r@ == (KrunCallView::CreateCtx),
{
    KrunCall::CreateCtx
}

/// Frees the configuration context.
pub fn free_ctx() -> (r: KrunCall)
    ensures
        r@ == (KrunCallView::FreeCtx),
{
    KrunCall::FreeCtx
}

/// Starts the VM, which takes over the process; it answers only when the
/// start fails.
pub fn start_enter() -> (r: KrunCall)
    ensures
        r@ == (KrunCallView::StartEnter),
{
    KrunCall::StartEnter
}

/// Sets the log level of the hypervisor, for the whole process.
pub fn set_log_level(level: u32) -> (r: KrunCall)
    ensures
        r@ == (KrunCallView::SetLogLevel { level: level }),
{
    KrunCall::SetLogLevel { level }
}

/// Sets up logging: the descriptor to write to (`-1` for standard error), the
/// level, the use of colour, and option bits.
pub fn init_log(target_fd: i32, level: u32, style: LogStyle, options: u32) -> (r: KrunCall)
    ensures
        r@ == (KrunCallView::InitLog { target_fd: target_fd, level: level, style: style, options: options }),
{
    KrunCall::InitLog { target_fd, level, style, options }
}

/// Sets the number of virtual CPUs and the memory in MiB.
pub fn set_vm_config(vcpus: u8, ram_mib: u32) -> (r: KrunCall)
    ensures
        r@ == (KrunCallView::SetVmConfig { vcpus: vcpus, ram_mib: ram_mib }),
{
    KrunCall::SetVmConfig { vcpus, ram_mib }
}

/// Sets the directory that holds the root filesystem. A string with a NUL
/// character in it is refused.
pub fn set_root(path: &str) -> (r: Result<KrunCall, Error>)
    ensures
        (spec_has_nul(path@)) ==> r is Err && r->Err_0@ == ErrorView::Nul,
        !(spec_has_nul(path@)) ==> r is Ok && r->Ok_0@ == (KrunCallView::SetRoot { path: path@ }),
{
    if has_nul(path) {
        return Err(Error::Nul);
    }
    Ok(KrunCall::SetRoot { path: String::from_str(path) })
}

/// Sets the working directory inside the VM. A string with a NUL character in
/// it is refused.
pub fn set_workdir(path: &str) -> (r: Result<KrunCall, Error>)
    ensures
        (spec_has_nul(path@)) ==> r is Err && r->Err_0@ == ErrorView::Nul,
        !(spec_has_nul(path@)) ==> r is Ok && r->Ok_0@ == (KrunCallView::SetWorkdir { path: path@ }),
{
    if has_nul(path) {
        return Err(Error::Nul);
    }
    Ok(KrunCall::SetWorkdir { path: String::from_str(path) })
}

/// Sets the executable, its arguments and, where given, its environment;
/// without one the environment of the host is inherited. A string with a NUL
/// character in it is refused.
pub fn set_exec(path: &str, args: &[String], env: Option<&[String]>) -> (r: Result<KrunCall, Error>)
    ensures
        (spec_has_nul(path@) || spec_any_nul(strings_view(args@)) || spec_opt_any_nul(opt_list_view(env))) ==> r is Err && r->Err_0@ == ErrorView::Nul,
        !(spec_has_nul(path@) || spec_any_nul(strings_view(args@)) || spec_opt_any_nul(opt_list_view(env))) ==> r is Ok && r->Ok_0@ == (KrunCallView::SetExec { path: path@, args: strings_view(args@), env: opt_list_view(env) }),
{
    if has_nul(path) || any_nul(args) || opt_any_nul(env) {
        return Err(Error::Nul);
    }
    Ok(KrunCall::SetExec { path: String::from_str(path), args: strings_to_vec(args), env: own_opt_list(env) })
}

/// Sets the environment without naming an executable. A string with a NUL
/// character in it is refused.
pub fn set_env(env: &[String]) -> (r: Result<KrunCall, Error>)
    ensures
        (spec_any_nul(strings_view(env@))) ==> r is Err && r->Err_0@ == ErrorView::Nul,
        !(spec_any_nul(strings_view(env@))) ==> r is Ok && r->Ok_0@ == (KrunCallView::SetEnv { env: strings_view(env@) }),
{
    if any_nul(env) {
        return Err(Error::Nul);
    }
    Ok(KrunCall::SetEnv { env: strings_to_vec(env) })
}

/// Shares a directory of the host under a tag. A string with a NUL character
/// in it is refused.
pub fn add_virtiofs(tag: &str, host_path: &str) -> (r: Result<KrunCall, Error>)
    ensures
        (spec_has_nul(tag@) || spec_has_nul(host_path@)) ==> r is Err && r->Err_0@ == ErrorView::Nul,
        !(spec_has_nul(tag@) || spec_has_nul(host_path@)) ==> r is Ok && r->Ok_0@ == (KrunCallView::AddVirtiofs { tag: tag@, host_path: host_path@ }),
{
    if has_nul(tag) || has_nul(host_path) {
        return Err(Error::Nul);
    }
    Ok(KrunCall::AddVirtiofs { tag: String::from_str(tag), host_path: String::from_str(host_path) })
}

/// Shares a directory of the host under a tag, with a DAX window of the given
/// size. A string with a NUL character in it is refused.
pub fn add_virtiofs2(tag: &str, host_path: &str, shm_size: u64) -> (r: Result<KrunCall, Error>)
    ensures
        (spec_has_nul(tag@) || spec_has_nul(host_path@)) ==> r is Err && r->Err_0@ == ErrorView::Nul,
        !(spec_has_nul(tag@) || spec_has_nul(host_path@)) ==> r is Ok && r->Ok_0@ == (KrunCallView::AddVirtiofs2 { tag: tag@, host_path: host_path@, shm_size: shm_size }),
{
    if has_nul(tag) || has_nul(host_path) {
        return Err(Error::Nul);
    }
    Ok(KrunCall::AddVirtiofs2 { tag: String::from_str(tag), host_path: String::from_str(host_path), shm_size })
}

/// Adds a raw disk image. A string with a NUL character in it is refused.
pub fn add_disk(block_id: &str, disk_path: &str, read_only: bool) -> (r: Result<KrunCall, Error>)
    ensures
        (spec_has_nul(block_id@) || spec_has_nul(disk_path@)) ==> r is Err && r->Err_0@ == ErrorView::Nul,
        !(spec_has_nul(block_id@) || spec_has_nul(disk_path@)) ==> r is Ok && r->Ok_0@ == (KrunCallView::AddDisk { block_id: block_id@, disk_path: disk_path@, read_only: read_only }),
{
    if has_nul(block_id) || has_nul(disk_path) {
        return Err(Error::Nul);
    }
    Ok(KrunCall::AddDisk { block_id: String::from_str(block_id), disk_path: String::from_str(disk_path), read_only })
}

/// Adds a disk image of the given format. A string with a NUL character in it
/// is refused.
pub fn add_disk2(block_id: &str, disk_path: &str, format: DiskFormat, read_only: bool) -> (r: Result<KrunCall, Error>)
    ensures
        (spec_has_nul(block_id@) || spec_has_nul(disk_path@)) ==> r is Err && r->Err_0@ == ErrorView::Nul,
        !(spec_has_nul(block_id@) || spec_has_nul(disk_path@)) ==> r is Ok && r->Ok_0@ == (KrunCallView::AddDisk2 { block_id: block_id@, disk_path: disk_path@, format: format, read_only: read_only }),
{
    if has_nul(block_id) || has_nul(disk_path) {
        return Err(Error::Nul);
    }
    Ok(KrunCall::AddDisk2 { block_id: String::from_str(block_id), disk_path: String::from_str(disk_path), format, read_only })
}

/// Adds a disk image of the given format, with or without direct I/O, in the
/// given sync mode. A string with a NUL character in it is refused.
pub fn add_disk3(block_id: &str, disk_path: &str, format: DiskFormat, read_only: bool, direct_io: bool, sync: SyncMode) -> (r: Result<KrunCall, Error>)
    ensures
        (spec_has_nul(block_id@) || spec_has_nul(disk_path@)) ==> r is Err && r->Err_0@ == ErrorView::Nul,
        !(spec_has_nul(block_id@) || spec_has_nul(disk_path@)) ==> r is Ok && r->Ok_0@ == (KrunCallView::AddDisk3 { block_id: block_id@, disk_path: disk_path@, format: format, read_only: read_only, direct_io: direct_io, sync: sync }),
{
    if has_nul(block_id) || has_nul(disk_path) {
        return Err(Error::Nul);
    }
    Ok(KrunCall::AddDisk3 { block_id: String::from_str(block_id), disk_path: String::from_str(disk_path), format, read_only, direct_io, sync })
}

/// Makes a block device the root filesystem, mounted once the VM is up. A
/// string with a NUL character in it is refused.
pub fn set_root_disk_remount(device: &str, fstype: Option<&str>, options: Option<&str>) -> (r: Result<KrunCall, Error>)
    ensures
        (spec_has_nul(device@) || spec_opt_has_nul(opt_str_view(fstype)) || spec_opt_has_nul(opt_str_view(options))) ==> r is Err && r->Err_0@ == ErrorView::Nul,
        !(spec_has_nul(device@) || spec_opt_has_nul(opt_str_view(fstype)) || spec_opt_has_nul(opt_str_view(options))) ==> r is Ok && r->Ok_0@ == (KrunCallView::SetRootDiskRemount { device: device@, fstype: opt_str_view(fstype), options: opt_str_view(options) }),
{
    if has_nul(device) || opt_has_nul(fstype) || opt_has_nul(options) {
        return Err(Error::Nul);
    }
    Ok(KrunCall::SetRootDiskRemount { device: String::from_str(device), fstype: own_opt_str(fstype), options: own_opt_str(options) })
}

/// Sets the TCP port mappings, each `host:guest`. A string with a NUL
/// character in it is refused.
pub fn set_port_map(ports: &[String]) -> (r: Result<KrunCall, Error>)
    ensures
        (spec_any_nul(strings_view(ports@))) ==> r is Err && r->Err_0@ == ErrorView::Nul,
        !(spec_any_nul(strings_view(ports@))) ==> r is Ok && r->Ok_0@ == (KrunCallView::SetPortMap { ports: strings_view(ports@) }),
{
    if any_nul(ports) {
        return Err(Error::Nul);
    }
    Ok(KrunCall::SetPortMap { ports: strings_to_vec(ports) })
}

/// Adds a network device behind a Unix stream socket, given by path or by
/// descriptor. A string with a NUL character in it is refused.
pub fn add_net_unixstream(path: Option<&str>, fd: i32, mac: &[u8; 6], features: u32, flags: u32) -> (r: Result<KrunCall, Error>)
    ensures
        (spec_opt_has_nul(opt_str_view(path))) ==> r is Err && r->Err_0@ == ErrorView::Nul,
        !(spec_opt_has_nul(opt_str_view(path))) ==> r is Ok && r->Ok_0@ == (KrunCallView::AddNetUnixstream { path: opt_str_view(path), fd: fd, mac: mac@, features: features, flags: flags }),
{
    if opt_has_nul(path) {
        return Err(Error::Nul);
    }
    Ok(KrunCall::AddNetUnixstream { path: own_opt_str(path), fd, mac: *mac, features, flags })
}

/// Adds a network device behind a Unix datagram socket, given by path or by
/// descriptor. A string with a NUL character in it is refused.
pub fn add_net_unixgram(path: Option<&str>, fd: i32, mac: &[u8; 6], features: u32, flags: u32) -> (r: Result<KrunCall, Error>)
    ensures
        (spec_opt_has_nul(opt_str_view(path))) ==> r is Err && r->Err_0@ == ErrorView::Nul,
        !(spec_opt_has_nul(opt_str_view(path))) ==> r is Ok && r->Ok_0@ == (KrunCallView::AddNetUnixgram { path: opt_str_view(path), fd: fd, mac: mac@, features: features, flags: flags }),
{
    if opt_has_nul(path) {
        return Err(Error::Nul);
    }
    Ok(KrunCall::AddNetUnixgram { path: own_opt_str(path), fd, mac: *mac, features, flags })
}

/// Adds a network device behind a TAP device. A string with a NUL character
/// in it is refused.
pub fn add_net_tap(tap_name: &str, mac: &[u8; 6], features: u32, flags: u32) -> (r: Result<KrunCall, Error>)
    ensures
        (spec_has_nul(tap_name@)) ==> r is Err && r->Err_0@ == ErrorView::Nul,
        !(spec_has_nul(tap_name@)) ==> r is Ok && r->Ok_0@ == (KrunCallView::AddNetTap { tap_name: tap_name@, mac: mac@, features: features, flags: flags }),
{
    if has_nul(tap_name) {
        return Err(Error::Nul);
    }
    Ok(KrunCall::AddNetTap { tap_name: String::from_str(tap_name), mac: *mac, features, flags })
}

/// Sets the MAC address of the network device.
pub fn set_net_mac(mac: &[u8; 6]) -> (r: KrunCall)
    ensures
        r@ == (KrunCallView::SetNetMac { mac: mac@ }),
{
    KrunCall::SetNetMac { mac: *mac }
}

/// Ties a vsock port to a Unix socket of the host. A string with a NUL
/// character in it is refused.
pub fn add_vsock_port(port: u32, path: &str) -> (r: Result<KrunCall, Error>)
    ensures
        (spec_has_nul(path@)) ==> r is Err && r->Err_0@ == ErrorView::Nul,
        !(spec_has_nul(path@)) ==> r is Ok && r->Ok_0@ == (KrunCallView::AddVsockPort { port: port, path: path@ }),
{
    if has_nul(path) {
        return Err(Error::Nul);
    }
    Ok(KrunCall::AddVsockPort { port, path: String::from_str(path) })
}

/// Ties a vsock port to a Unix socket of the host, and says whether the guest
/// is the side that listens. A string with a NUL character in it is refused.
pub fn add_vsock_port2(port: u32, path: &str, listen: bool) -> (r: Result<KrunCall, Error>)
    ensures
        (spec_has_nul(path@)) ==> r is Err && r->Err_0@ == ErrorView::Nul,
        !(spec_has_nul(path@)) ==> r is Ok && r->Ok_0@ == (KrunCallView::AddVsockPort2 { port: port, path: path@, listen: listen }),
{
    if has_nul(path) {
        return Err(Error::Nul);
    }
    Ok(KrunCall::AddVsockPort2 { port, path: String::from_str(path), listen })
}

/// Adds a vsock device with the given TSI features.
pub fn add_vsock(tsi_features: u32) -> (r: KrunCall)
    ensures
        r@ == (KrunCallView::AddVsock { tsi_features: tsi_features }),
{
    KrunCall::AddVsock { tsi_features }
}

/// Switches the implicit vsock device off.
pub fn disable_implicit_vsock() -> (r: KrunCall)
    ensures
        r@ == (KrunCallView::DisableImplicitVsock),
{
    KrunCall::DisableImplicitVsock
}

/// Switches the GPU on.
pub fn set_gpu_options(virgl_flags: u32) -> (r: KrunCall)
    ensures
        r@ == (KrunCallView::SetGpuOptions { virgl_flags: virgl_flags }),
{
    KrunCall::SetGpuOptions { virgl_flags }
}

/// Switches the GPU on, with a shared memory window of the given size.
pub fn set_gpu_options2(virgl_flags: u32, shm_size: u64) -> (r: KrunCall)
    ensures
        r@ == (KrunCallView::SetGpuOptions2 { virgl_flags: virgl_flags, shm_size: shm_size }),
{
    KrunCall::SetGpuOptions2 { virgl_flags, shm_size }
}

/// Adds a display; the hypervisor answers with its id.
pub fn add_display(width: u32, height: u32) -> (r: KrunCall)
    ensures
        r@ == (KrunCallView::AddDisplay { width: width, height: height }),
{
    KrunCall::AddDisplay { width, height }
}

/// Sets the EDID blob of a display.
pub fn display_set_edid(display_id: u32, edid: &[u8]) -> (r: KrunCall)
    ensures
        r@ == (KrunCallView::DisplaySetEdid { display_id: display_id, edid: edid@ }),
{
    KrunCall::DisplaySetEdid { display_id, edid: slice_to_vec(edid) }
}

/// Sets the DPI of a display.
pub fn display_set_dpi(display_id: u32, dpi: u32) -> (r: KrunCall)
    ensures
        r@ == (KrunCallView::DisplaySetDpi { display_id: display_id, dpi: dpi }),
{
    KrunCall::DisplaySetDpi { display_id, dpi }
}

/// Sets the physical size of a display in millimetres.
pub fn display_set_physical_size(display_id: u32, w_mm: u16, h_mm: u16) -> (r: KrunCall)
    ensures
        r@ == (KrunCallView::DisplaySetPhysicalSize { display_id: display_id, w_mm: w_mm, h_mm: h_mm }),
{
    KrunCall::DisplaySetPhysicalSize { display_id, w_mm, h_mm }
}

/// Sets the refresh rate of a display in Hz.
pub fn display_set_refresh_rate(display_id: u32, hz: u32) -> (r: KrunCall)
    ensures
        r@ == (KrunCallView::DisplaySetRefreshRate { display_id: display_id, hz: hz }),
{
    KrunCall::DisplaySetRefreshRate { display_id, hz }
}

/// Adds an input device of the host by its descriptor.
pub fn add_input_device_fd(fd: i32) -> (r: KrunCall)
    ensures
        r@ == (KrunCallView::AddInputDeviceFd { fd: fd }),
{
    KrunCall::AddInputDeviceFd { fd }
}

/// Switches the sound device on or off.
pub fn set_snd_device(enable: bool) -> (r: KrunCall)
    ensures
        r@ == (KrunCallView::SetSndDevice { enable: enable }),
{
    KrunCall::SetSndDevice { enable }
}

/// Sets resource limits, each `RESOURCE=CUR:MAX`. A string with a NUL
/// character in it is refused.
pub fn set_rlimits(rlimits: &[String]) -> (r: Result<KrunCall, Error>)
    ensures
        (spec_any_nul(strings_view(rlimits@))) ==> r is Err && r->Err_0@ == ErrorView::Nul,
        !(spec_any_nul(strings_view(rlimits@))) ==> r is Ok && r->Ok_0@ == (KrunCallView::SetRlimits { rlimits: strings_view(rlimits@) }),
{
    if any_nul(rlimits) {
        return Err(Error::Nul);
    }
    Ok(KrunCall::SetRlimits { rlimits: strings_to_vec(rlimits) })
}

/// Sets the SMBIOS OEM strings. A string with a NUL character in it is
/// refused.
pub fn set_smbios_oem_strings(strings: &[String]) -> (r: Result<KrunCall, Error>)
    ensures
        (spec_any_nul(strings_view(strings@))) ==> r is Err && r->Err_0@ == ErrorView::Nul,
        !(spec_any_nul(strings_view(strings@))) ==> r is Ok && r->Ok_0@ == (KrunCallView::SetSmbiosOemStrings { strings: strings_view(strings@) }),
{
    if any_nul(strings) {
        return Err(Error::Nul);
    }
    Ok(KrunCall::SetSmbiosOemStrings { strings: strings_to_vec(strings) })
}

/// Sets the user id that the VM process takes before it starts the VM.
pub fn setuid(uid: u32) -> (r: KrunCall)
    ensures
        r@ == (KrunCallView::Setuid { uid: uid }),
{
    KrunCall::Setuid { uid }
}

/// Sets the group id that the VM process takes before it starts the VM.
pub fn setgid(gid: u32) -> (r: KrunCall)
    ensures
        r@ == (KrunCallView::Setgid { gid: gid }),
{
    KrunCall::Setgid { gid }
}

/// Switches nested virtualisation on or off.
pub fn set_nested_virt(enable: bool) -> (r: KrunCall)
    ensures
        r@ == (KrunCallView::SetNestedVirt { enable: enable }),
{
    KrunCall::SetNestedVirt { enable }
}

/// Asks whether nested virtualisation is supported.
pub fn check_nested_virt() -> (r: KrunCall)
    ensures
        r@ == (KrunCallView::CheckNestedVirt),
{
    KrunCall::CheckNestedVirt
}

/// Sets the TEE configuration file. A string with a NUL character in it is
/// refused.
pub fn set_tee_config_file(path: &str) -> (r: Result<KrunCall, Error>)
    ensures
        (spec_has_nul(path@)) ==> r is Err && r->Err_0@ == ErrorView::Nul,
        !(spec_has_nul(path@)) ==> r is Ok && r->Ok_0@ == (KrunCallView::SetTeeConfigFile { path: path@ }),
{
    if has_nul(path) {
        return Err(Error::Nul);
    }
    Ok(KrunCall::SetTeeConfigFile { path: String::from_str(path) })
}

/// Sets the firmware. A string with a NUL character in it is refused.
pub fn set_firmware(path: &str) -> (r: Result<KrunCall, Error>)
    ensures
        (spec_has_nul(path@)) ==> r is Err && r->Err_0@ == ErrorView::Nul,
        !(spec_has_nul(path@)) ==> r is Ok && r->Ok_0@ == (KrunCallView::SetFirmware { path: path@ }),
{
    if has_nul(path) {
        return Err(Error::Nul);
    }
    Ok(KrunCall::SetFirmware { path: String::from_str(path) })
}

/// Sets the kernel, and where given the initramfs and the command line. A
/// string with a NUL character in it is refused.
pub fn set_kernel(kernel_path: &str, format: KernelFormat, initramfs: Option<&str>, cmdline: Option<&str>) -> (r: Result<KrunCall, Error>)
    ensures
        (spec_has_nul(kernel_path@) || spec_opt_has_nul(opt_str_view(initramfs)) || spec_opt_has_nul(opt_str_view(cmdline))) ==> r is Err && r->Err_0@ == ErrorView::Nul,
        !(spec_has_nul(kernel_path@) || spec_opt_has_nul(opt_str_view(initramfs)) || spec_opt_has_nul(opt_str_view(cmdline))) ==> r is Ok && r->Ok_0@ == (KrunCallView::SetKernel { kernel_path: kernel_path@, format: format, initramfs: opt_str_view(initramfs), cmdline: opt_str_view(cmdline) }),
{
    if has_nul(kernel_path) || opt_has_nul(initramfs) || opt_has_nul(cmdline) {
        return Err(Error::Nul);
    }
    Ok(KrunCall::SetKernel { kernel_path: String::from_str(kernel_path), format, initramfs: own_opt_str(initramfs), cmdline: own_opt_str(cmdline) })
}

/// Sends the console output to a file. A string with a NUL character in it is
/// refused.
pub fn set_console_output(path: &str) -> (r: Result<KrunCall, Error>)
    ensures
        (spec_has_nul(path@)) ==> r is Err && r->Err_0@ == ErrorView::Nul,
        !(spec_has_nul(path@)) ==> r is Ok && r->Ok_0@ == (KrunCallView::SetConsoleOutput { path: path@ }),
{
    if has_nul(path) {
        return Err(Error::Nul);
    }
    Ok(KrunCall::SetConsoleOutput { path: String::from_str(path) })
}

/// Switches the implicit console off.
pub fn disable_implicit_console() -> (r: KrunCall)
    ensures
        r@ == (KrunCallView::DisableImplicitConsole),
{
    KrunCall::DisableImplicitConsole
}

/// Adds a virtio console on the given descriptors.
pub fn add_virtio_console_default(input_fd: i32, output_fd: i32, err_fd: i32) -> (r: KrunCall)
    ensures
        r@ == (KrunCallView::AddVirtioConsoleDefault { input_fd: input_fd, output_fd: output_fd, err_fd: err_fd }),
{
    KrunCall::AddVirtioConsoleDefault { input_fd, output_fd, err_fd }
}

/// Adds a serial console on the given descriptors.
pub fn add_serial_console_default(input_fd: i32, output_fd: i32) -> (r: KrunCall)
    ensures
        r@ == (KrunCallView::AddSerialConsoleDefault { input_fd: input_fd, output_fd: output_fd }),
{
    KrunCall::AddSerialConsoleDefault { input_fd, output_fd }
}

/// Adds a virtio console with several ports; the hypervisor answers with its
/// id.
pub fn add_virtio_console_multiport() -> (r: KrunCall)
    ensures
        r@ == (KrunCallView::AddVirtioConsoleMultiport),
{
    KrunCall::AddVirtioConsoleMultiport
}

/// Adds a terminal port to a console with several ports. A string with a NUL
/// character in it is refused.
pub fn add_console_port_tty(console_id: u32, name: &str, tty_fd: i32) -> (r: Result<KrunCall, Error>)
    ensures
        (spec_has_nul(name@)) ==> r is Err && r->Err_0@ == ErrorView::Nul,
        !(spec_has_nul(name@)) ==> r is Ok && r->Ok_0@ == (KrunCallView::AddConsolePortTty { console_id: console_id, name: name@, tty_fd: tty_fd }),
{
    if has_nul(name) {
        return Err(Error::Nul);
    }
    Ok(KrunCall::AddConsolePortTty { console_id, name: String::from_str(name), tty_fd })
}

/// Adds a port with an input and an output descriptor to a console with
/// several ports. A string with a NUL character in it is refused.
pub fn add_console_port_inout(console_id: u32, name: &str, input_fd: i32, output_fd: i32) -> (r: Result<KrunCall, Error>)
    ensures
        (spec_has_nul(name@)) ==> r is Err && r->Err_0@ == ErrorView::Nul,
        !(spec_has_nul(name@)) ==> r is Ok && r->Ok_0@ == (KrunCallView::AddConsolePortInout { console_id: console_id, name: name@, input_fd: input_fd, output_fd: output_fd }),
{
    if has_nul(name) {
        return Err(Error::Nul);
    }
    Ok(KrunCall::AddConsolePortInout { console_id, name: String::from_str(name), input_fd, output_fd })
}

/// Names the console of the kernel. A string with a NUL character in it is
/// refused.
pub fn set_kernel_console(console_id: &str) -> (r: Result<KrunCall, Error>)
    ensures
        (spec_has_nul(console_id@)) ==> r is Err && r->Err_0@ == ErrorView::Nul,
        !(spec_has_nul(console_id@)) ==> r is Ok && r->Ok_0@ == (KrunCallView::SetKernelConsole { console_id: console_id@ }),
{
    if has_nul(console_id) {
        return Err(Error::Nul);
    }
    Ok(KrunCall::SetKernelConsole { console_id: String::from_str(console_id) })
}

/// Asks for the largest number of virtual CPUs.
pub fn get_max_vcpus() -> (r: KrunCall)
    ensures
        r@ == (KrunCallView::GetMaxVcpus),
{
    KrunCall::GetMaxVcpus
}

/// Asks whether the hypervisor was built with a feature.
pub fn has_feature(feature: Feature) -> (r: KrunCall)
    ensures
        r@ == (KrunCallView::HasFeature { feature: feature }),
{
    KrunCall::HasFeature { feature }
}

/// Asks for the descriptor that signals a shutdown to the guest.
pub fn get_shutdown_eventfd() -> (r: KrunCall)
    ensures
        r@ == (KrunCallView::GetShutdownEventfd),
{
    KrunCall::GetShutdownEventfd
}

/// Splits the interrupt controller between host and guest, or not.
pub fn split_irqchip(enable: bool) -> (r: KrunCall)
    ensures
        r@ == (KrunCallView::SplitIrqchip { enable: enable }),
{
    KrunCall::SplitIrqchip { enable }
}

} // verus!
