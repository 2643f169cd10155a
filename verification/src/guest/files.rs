//! File transfer: single files, and trees as tar archives.

use vstd::prelude::*;
use vstd::string::*;
use crate::oci::extract::{spec_file_name, spec_trim_slashes};
use crate::proto::codec::{StreamError, StreamErrorView};
use crate::proto::message::{Download, ErrorCode, ErrorInfo, UploadResult};
use crate::text::{
    concat2, concat3, decimal, ends_with, rfind_char, spec_decimal, spec_ends_with,
    spec_starts_with, starts_with, str_eq,
};

verus! {

/// Directory of the temporary files.
pub const TEMP_DIR: &'static str = "/tmp";

/// Name of an archive entry for a path that has no name of its own.
pub const DEFAULT_ENTRY_NAME: &'static str = "file";

/// The path of the `seq`-th temporary file of the process `pid`:
/// `/tmp/bux-{tag}-{pid}-{seq}`.
pub open spec fn spec_temp_file_path(tag: Seq<char>, pid: u32, seq: u64) -> Seq<char> {
    "/tmp/bux-"@ + tag + "-"@ + spec_decimal(pid as nat) + "-"@ + spec_decimal(seq as nat)
}

/// The path of the `seq`-th temporary file of the process `pid`. The counter
/// makes the paths of one process differ.
pub fn temp_file_path(tag: &str, pid: u32, seq: u64) -> (r: String)
    ensures
        r@ == spec_temp_file_path(tag@, pid, seq),
{
    let mut path = concat3("/tmp/bux-", tag, "-");
    path.append(decimal(pid as u64).as_str());
    path.append("-");
    path.append(decimal(seq).as_str());
    path
}

/// Whether `path` is `root` or lies in it: its components begin with those of
/// `root`. Both are canonical.
pub open spec fn spec_path_within(path: Seq<char>, root: Seq<char>) -> bool {
    if spec_ends_with(root, "/"@) {
        spec_starts_with(path, root)
    } else {
        path == root || spec_starts_with(path, root + "/"@)
    }
}

/// Whether the canonical path `path` is `root` or lies in it.
pub fn path_within(path: &str, root: &str) -> (r: bool)
    ensures
        r == spec_path_within(path@, root@),
{
    if ends_with(root, "/") {
        starts_with(path, root)
    } else {
        str_eq(path, root) || starts_with(path, concat2(root, "/").as_str())
    }
}

/// Why a copy into the guest failed.
#[derive(Debug, Clone)]
pub enum CopyInError {
    /// The upload failed.
    Upload(StreamError),
    /// An entry of the archive would be unpacked outside the destination.
    Traversal(String),
    /// A file operation failed.
    Io(String),
}

/// The class of the error that tells the host of a failed upload or copy: an
/// upload over the limit is a limit exceeded, an entry that leaves the
/// destination is a denied permission, everything else is the agent's
/// failure.
pub open spec fn spec_copy_in_code(e: CopyInError) -> ErrorCode {
    match e {
        CopyInError::Upload(StreamError::LimitExceeded) => ErrorCode::LimitExceeded,
        CopyInError::Traversal(_) => ErrorCode::PermissionDenied,
        _ => ErrorCode::Internal,
    }
}

/// The message of the error that tells the host of a failed upload or copy.
pub open spec fn spec_copy_in_message(e: CopyInError) -> Seq<char> {
    match e {
        CopyInError::Upload(StreamError::LimitExceeded) => "upload exceeds size limit"@,
        CopyInError::Upload(StreamError::UnexpectedEof) => "upload ended unexpectedly"@,
        CopyInError::Upload(StreamError::Remote(info)) => info.message@,
        CopyInError::Traversal(path) => "path traversal blocked: "@ + path@,
        CopyInError::Io(message) => message@,
    }
}

/// Checks an entry of an archive before it is unpacked into `canonical_dest`.
/// `resolved_parent` is the canonical path of the directory that the entry
/// would be unpacked into, if that directory exists: it must be the
/// destination or lie in it.
pub fn check_entry(entry: &str, resolved_parent: Option<&str>, canonical_dest: &str) -> (r: Result<
    (),
    CopyInError,
>)
    ensures
        if resolved_parent is Some && !spec_path_within(
            resolved_parent->Some_0@,
            canonical_dest@,
        ) {
            r matches Err(CopyInError::Traversal(path)) && path@ == entry@
        } else {
            r is Ok
        },
{
    match resolved_parent {
        Some(parent) => {
            if !path_within(parent, canonical_dest) {
                Err(CopyInError::Traversal(String::from_str(entry)))
            } else {
                Ok(())
            }
        },
        None => Ok(()),
    }
}

/// The answer to the host once a file was written or an archive was
/// unpacked.
pub fn handle_copy_in(result: Result<(), CopyInError>) -> (r: UploadResult)
    ensures
        match result {
            Ok(()) => r is Success,
            Err(e) => r matches UploadResult::Error(info) && info.code == spec_copy_in_code(e)
                && info.message@ == spec_copy_in_message(e),
        },
{
    match result {
        Ok(()) => UploadResult::Success,
        Err(CopyInError::Upload(StreamError::LimitExceeded)) => UploadResult::Error(
            ErrorInfo::new(ErrorCode::LimitExceeded, "upload exceeds size limit"),
        ),
        Err(CopyInError::Upload(StreamError::UnexpectedEof)) => UploadResult::Error(
            ErrorInfo::new(ErrorCode::Internal, "upload ended unexpectedly"),
        ),
        Err(CopyInError::Upload(StreamError::Remote(info))) => UploadResult::Error(
            ErrorInfo::new(ErrorCode::Internal, info.message.as_str()),
        ),
        Err(CopyInError::Traversal(path)) => UploadResult::Error(
            ErrorInfo::new(
                ErrorCode::PermissionDenied,
                concat2("path traversal blocked: ", path.as_str()).as_str(),
            ),
        ),
        Err(CopyInError::Io(message)) => UploadResult::Error(
            ErrorInfo::new(ErrorCode::Internal, message.as_str()),
        ),
    }
}

/// The answer to the host once a file was written.
pub fn handle_write(result: Result<(), CopyInError>) -> (r: UploadResult)
    ensures
        match result {
            Ok(()) => r is Success,
            Err(e) => r matches UploadResult::Error(info) && info.code == spec_copy_in_code(e)
                && info.message@ == spec_copy_in_message(e),
        },
{
    handle_copy_in(result)
}

/// The message that tells the host that a path could not be read or packed:
/// it is not found.
pub fn handle_read(reason: &str) -> (r: Download)
    ensures
        r matches Download::Error(info) && info.code == ErrorCode::NotFound && info.message@
            == reason@,
{
    Download::Error(ErrorInfo::new(ErrorCode::NotFound, reason))
}

/// The name under which a single file is packed: the last component of its
/// path, or `file` where the path has none.
pub open spec fn spec_entry_name(path: Seq<char>) -> Seq<char> {
    let name = spec_file_name(spec_trim_slashes(path));
    if name.len() == 0 || name == ".."@ {
        DEFAULT_ENTRY_NAME@
    } else {
        name
    }
}

/// The name under which the single file `path` is packed.
pub fn handle_copy_out(path: &str) -> (r: String)
    ensures
        r@ == spec_entry_name(path@),
{
    let n = path.unicode_len();
    let mut end: usize = n;
    while end > 0 && path.get_char(end - 1) == '/'
        invariant
            n == path@.len(),
            end <= n,
            crate::oci::extract::spec_trimmed_len(path@, end as int)
                == crate::oci::extract::spec_trimmed_len(path@, n as int),
        decreases end,
    {
        end -= 1;
    }
    let entry = path.substring_char(0, end);
    let name = match rfind_char(entry, '/') {
        Some(i) => {
            proof {
                crate::text::lemma_rfind_before(entry@, '/', entry@.len() as int);
            }
            entry.substring_char(i + 1, end)
        },
        None => entry,
    };
    if name.unicode_len() == 0 || str_eq(name, "..") {
        String::from_str(DEFAULT_ENTRY_NAME)
    } else {
        String::from_str(name)
    }
}

/// A path outside the destination is refused, whatever the archive calls it:
/// the answer to the host is a denied permission.
pub proof fn lemma_traversal_denied(entry: String)
    ensures
        spec_copy_in_code(CopyInError::Traversal(entry)) == ErrorCode::PermissionDenied,
{
}

} // verus!
