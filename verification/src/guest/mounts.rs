//! The mount table of the guest: which directories need a tmpfs, and which
//! filesystems a quiesce freezes.

use vstd::prelude::*;
use vstd::string::*;
use crate::text::{is_whitespace, push_char, spec_is_whitespace, str_eq, strings_view};

verus! {

/// Error number of a filesystem that is frozen already.
pub const EBUSY: i32 = 16;

/// Filesystem type of a memory filesystem.
pub const TMPFS: &'static str = "tmpfs";

/// A directory that needs a memory filesystem of its own.
#[derive(Debug, Clone, Copy)]
pub struct TmpfsMount {
    /// Where it is mounted.
    pub path: &'static str,
    /// Permission bits of the mount point.
    pub mode: u32,
}

/// What separates the pieces of a text.
#[derive(Debug, Clone, Copy, PartialEq, Eq, Structural)]
pub enum Separator {
    /// Runs of white space.
    WhiteSpace,
    /// Each line feed.
    LineFeed,
    /// Each comma.
    Comma,
}

/// The pieces of `s` between the separators `sep`, scanned from `i` on:
/// `current` is the piece that is being read, `done` holds the pieces before
/// it. Between line feeds and between commas an empty piece counts, between
/// white space it does not. A piece at the end counts only if it holds
/// something.
pub open spec fn spec_split_scan(
    s: Seq<char>,
    sep: Separator,
    i: int,
    current: Seq<char>,
    done: Seq<Seq<char>>,
) -> Seq<Seq<char>>
    decreases s.len() - i,
{
    if i < 0 || i >= s.len() {
        if current.len() > 0 {
            done.push(current)
        } else {
            done
        }
    } else if sep.spec_matches(s[i]) {
        spec_split_scan(
            s,
            sep,
            i + 1,
            Seq::empty(),
            if sep.spec_keep_empty() || current.len() > 0 {
                done.push(current)
            } else {
                done
            },
        )
    } else {
        spec_split_scan(s, sep, i + 1, current.push(s[i]), done)
    }
}

/// The fields of a line: its pieces between white space.
pub open spec fn spec_fields(line: Seq<char>) -> Seq<Seq<char>> {
    Separator::WhiteSpace.spec_split(line)
}

/// The lines of a text: its pieces between line feeds, without an empty one
/// at the end.
pub open spec fn spec_lines(text: Seq<char>) -> Seq<Seq<char>> {
    Separator::LineFeed.spec_split(text)
}

/// The options of a mount: the pieces of the option field between commas.
pub open spec fn spec_options(field: Seq<char>) -> Seq<Seq<char>> {
    Separator::Comma.spec_split(field)
}

impl Separator {
    /// Whether `c` separates.
    pub open spec fn spec_matches(self, c: char) -> bool {
        match self {
            Separator::WhiteSpace => spec_is_whitespace(c),
            Separator::LineFeed => c == '\n',
            Separator::Comma => c == ',',
        }
    }

    /// Whether an empty piece between two separators counts.
    pub open spec fn spec_keep_empty(self) -> bool {
        self != Separator::WhiteSpace
    }

    /// The pieces of `s`.
    pub open spec fn spec_split(self, s: Seq<char>) -> Seq<Seq<char>> {
        spec_split_scan(s, self, 0, Seq::empty(), Seq::empty())
    }

    fn matches(self, c: char) -> (r: bool)
        ensures
            r == self.spec_matches(c),
    {
        match self {
            Separator::WhiteSpace => is_whitespace(c),
            Separator::LineFeed => c == '\n',
            Separator::Comma => c == ',',
        }
    }

    /// Cuts `s` into its pieces.
    #[verifier::rlimit(40)]
    pub fn split(self, s: &str) -> (r: Vec<String>)
        ensures
            strings_view(r@) == self.spec_split(s@),
    {
        let n = s.unicode_len();
        let keep_empty = match self {
            Separator::WhiteSpace => false,
            _ => true,
        };
        let mut done: Vec<String> = Vec::new();
        let mut current = String::new();
        let mut current_len: usize = 0;
        let mut i: usize = 0;
        assert(strings_view(done@) =~= Seq::<Seq<char>>::empty());
        while i < n
            invariant
                n == s@.len(),
                i <= n,
                keep_empty == self.spec_keep_empty(),
                current_len == current@.len(),
                current_len <= i,
                spec_split_scan(s@, self, i as int, current@, strings_view(done@))
                    == self.spec_split(s@),
            decreases n - i,
        {
            let c = s.get_char(i);
            let ghost before = strings_view(done@);
            if self.matches(c) {
                if keep_empty || current_len > 0 {
                    let ghost piece = current@;
                    done.push(current);
                    assert(strings_view(done@) =~= before.push(piece));
                }
                current = String::new();
                current_len = 0;
            } else {
                push_char(&mut current, c);
                current_len += 1;
            }
            i += 1;
        }
        if current_len > 0 {
            let ghost before = strings_view(done@);
            let ghost piece = current@;
            done.push(current);
            assert(strings_view(done@) =~= before.push(piece));
        }
        done
    }
}

/// A line of the mount table, as far as the agent reads it.
pub struct MountLineView {
    /// Where the filesystem is mounted.
    pub mount_point: Seq<char>,
    /// Type of the filesystem.
    pub fs_type: Seq<char>,
    /// Its options.
    pub options: Seq<Seq<char>>,
}

/// Whether a filesystem of this type is virtual, so that it is never frozen.
pub open spec fn spec_is_virtual(fs_type: Seq<char>) -> bool {
    ||| fs_type == "proc"@
    ||| fs_type == "sysfs"@
    ||| fs_type == "devtmpfs"@
    ||| fs_type == "devpts"@
    ||| fs_type == "tmpfs"@
    ||| fs_type == "cgroup"@
    ||| fs_type == "cgroup2"@
    ||| fs_type == "securityfs"@
    ||| fs_type == "debugfs"@
    ||| fs_type == "tracefs"@
    ||| fs_type == "configfs"@
    ||| fs_type == "fusectl"@
    ||| fs_type == "mqueue"@
    ||| fs_type == "hugetlbfs"@
    ||| fs_type == "pstore"@
    ||| fs_type == "binfmt_misc"@
    ||| fs_type == "autofs"@
    ||| fs_type == "rpc_pipefs"@
    ||| fs_type == "nfsd"@
    ||| fs_type == "overlay"@
    ||| fs_type == "virtiofs"@
}

/// Whether a filesystem of this type is virtual.
pub fn is_virtual(fs_type: &str) -> (r: bool)
    ensures
        r == spec_is_virtual(fs_type@),
{
    str_eq(fs_type, "proc") || str_eq(fs_type, "sysfs") || str_eq(fs_type, "devtmpfs") || str_eq(
        fs_type,
        "devpts",
    ) || str_eq(fs_type, "tmpfs") || str_eq(fs_type, "cgroup") || str_eq(fs_type, "cgroup2")
        || str_eq(fs_type, "securityfs") || str_eq(fs_type, "debugfs") || str_eq(
        fs_type,
        "tracefs",
    ) || str_eq(fs_type, "configfs") || str_eq(fs_type, "fusectl") || str_eq(fs_type, "mqueue")
        || str_eq(fs_type, "hugetlbfs") || str_eq(fs_type, "pstore") || str_eq(
        fs_type,
        "binfmt_misc",
    ) || str_eq(fs_type, "autofs") || str_eq(fs_type, "rpc_pipefs") || str_eq(fs_type, "nfsd")
        || str_eq(fs_type, "overlay") || str_eq(fs_type, "virtiofs")
}

/// Whether `word` is among `list`.
pub open spec fn spec_has_word(list: Seq<Seq<char>>, word: Seq<char>) -> bool {
    exists|i: int| 0 <= i < list.len() && #[trigger] list[i] == word
}

fn has_word(list: &Vec<String>, word: &str) -> (r: bool)
    ensures
        r == spec_has_word(strings_view(list@), word@),
{
    let mut i: usize = 0;
    while i < list.len()
        invariant
            i <= list@.len(),
            forall|k: int| 0 <= k < i ==> #[trigger] strings_view(list@)[k] != word@,
        decreases list@.len() - i,
    {
        if str_eq(list[i].as_str(), word) {
            assert(strings_view(list@)[i as int] == word@);
            return true;
        }
        i += 1;
    }
    false
}

/// Whether the line of the mount table says that `path` is a memory
/// filesystem: its second field is `path` and its third is `tmpfs`.
pub open spec fn spec_line_is_tmpfs(line: Seq<char>, path: Seq<char>) -> bool {
    let fields = spec_fields(line);
    fields.len() >= 3 && fields[1] == path && fields[2] == TMPFS@
}

/// The mount point of the line, if a quiesce freezes it: the line has four
/// fields at least, the filesystem is not virtual, and it is not mounted
/// read-only.
pub open spec fn spec_line_freezes(line: Seq<char>) -> Option<Seq<char>> {
    let fields = spec_fields(line);
    if fields.len() < 4 || spec_is_virtual(fields[2]) || spec_has_word(
        spec_options(fields[3]),
        "ro"@,
    ) {
        None
    } else {
        Some(fields[1])
    }
}

/// Whether one of the lines says that `path` is a memory filesystem.
pub open spec fn spec_is_tmpfs(lines: Seq<Seq<char>>, path: Seq<char>) -> bool {
    exists|i: int| 0 <= i < lines.len() && spec_line_is_tmpfs(#[trigger] lines[i], path)
}

/// The mount points that a quiesce freezes, in the order of the lines.
pub open spec fn spec_freeze_candidates(lines: Seq<Seq<char>>) -> Seq<Seq<char>>
    decreases lines.len(),
{
    if lines.len() == 0 {
        Seq::empty()
    } else {
        match spec_line_freezes(lines.last()) {
            Some(p) => spec_freeze_candidates(lines.drop_last()).push(p),
            None => spec_freeze_candidates(lines.drop_last()),
        }
    }
}

/// Whether the mount table `mounts` says that `path` is a memory filesystem.
pub fn is_tmpfs(mounts: &str, path: &str) -> (r: bool)
    ensures
        r == spec_is_tmpfs(spec_lines(mounts@), path@),
{
    let lines = Separator::LineFeed.split(mounts);
    let ghost views = strings_view(lines@);
    let mut i: usize = 0;
    while i < lines.len()
        invariant
            i <= lines@.len(),
            views == strings_view(lines@),
            views == spec_lines(mounts@),
            forall|k: int| 0 <= k < i ==> !spec_line_is_tmpfs(#[trigger] views[k], path@),
        decreases lines@.len() - i,
    {
        let fields = Separator::WhiteSpace.split(lines[i].as_str());
        if fields.len() >= 3 && str_eq(fields[1].as_str(), path) && str_eq(
            fields[2].as_str(),
            TMPFS,
        ) {
            assert(spec_line_is_tmpfs(views[i as int], path@));
            return true;
        }
        i += 1;
    }
    false
}

/// The mount points of the mount table `mounts` that a quiesce freezes.
#[verifier::rlimit(40)]
pub fn freeze_candidates(mounts: &str) -> (r: Vec<String>)
    ensures
        strings_view(r@) == spec_freeze_candidates(spec_lines(mounts@)),
{
    let lines = Separator::LineFeed.split(mounts);
    let ghost views = strings_view(lines@);
    let mut out: Vec<String> = Vec::new();
    let mut i: usize = 0;
    assert(views.take(0) =~= Seq::<Seq<char>>::empty());
    assert(strings_view(out@) =~= Seq::<Seq<char>>::empty());
    while i < lines.len()
        invariant
            i <= lines@.len(),
            views == strings_view(lines@),
            strings_view(out@) == spec_freeze_candidates(views.take(i as int)),
        decreases lines@.len() - i,
    {
        assert(views.take(i + 1).drop_last() =~= views.take(i as int));
        assert(views.take(i + 1).last() == lines@[i as int]@);
        let fields = Separator::WhiteSpace.split(lines[i].as_str());
        if fields.len() >= 4 && !is_virtual(fields[2].as_str()) {
            let options = Separator::Comma.split(fields[3].as_str());
            if !has_word(&options, "ro") {
                let ghost before = strings_view(out@);
                out.push(fields[1].clone());
                assert(strings_view(out@) =~= before.push(fields@[1]@));
            }
        }
        i += 1;
    }
    assert(views.take(views.len() as int) =~= views);
    out
}

/// Whether an attempt to freeze a filesystem leaves it frozen: the call
/// succeeded, or failed because the filesystem was frozen already.
pub fn counts_as_frozen(ret: i32, errno: i32) -> (r: bool)
    ensures
        r == (ret == 0 || errno == EBUSY),
{
    ret == 0 || errno == EBUSY
}

/// The directories that need a memory filesystem of their own: `/tmp` and
/// `/var/tmp`, open to all with the sticky bit, and `/run`.
pub fn essential_tmpfs() -> (r: [TmpfsMount; 3])
    ensures
        r[0].path@ == "/tmp"@ && r[0].mode == 0o1777,
        r[1].path@ == "/var/tmp"@ && r[1].mode == 0o1777,
        r[2].path@ == "/run"@ && r[2].mode == 0o755,
{
    [
        TmpfsMount { path: "/tmp", mode: 0o1777 },
        TmpfsMount { path: "/var/tmp", mode: 0o1777 },
        TmpfsMount { path: "/run", mode: 0o755 },
    ]
}

/// Path and permission bits of the directories that are to get a memory
/// filesystem at boot: `/tmp`, `/var/tmp` and `/run`, in this order, each
/// unless the mount table shows it as one already.
pub open spec fn spec_tmpfs_targets(lines: Seq<Seq<char>>) -> Seq<(Seq<char>, u32)> {
    (if spec_is_tmpfs(lines, "/tmp"@) {
        Seq::empty()
    } else {
        seq![("/tmp"@, 0o1777u32)]
    }) + (if spec_is_tmpfs(lines, "/var/tmp"@) {
        Seq::empty()
    } else {
        seq![("/var/tmp"@, 0o1777u32)]
    }) + (if spec_is_tmpfs(lines, "/run"@) {
        Seq::empty()
    } else {
        seq![("/run"@, 0o755u32)]
    })
}

/// Path and permission bits of each mount.
pub open spec fn tmpfs_views(mounts: Seq<TmpfsMount>) -> Seq<(Seq<char>, u32)> {
    Seq::new(mounts.len(), |i: int| (mounts[i].path@, mounts[i].mode))
}

/// The directories that are to get a memory filesystem at boot: those of
/// [`essential_tmpfs`] that the mount table does not show as one.
pub fn mount_essential_tmpfs(mounts: &str) -> (r: Vec<TmpfsMount>)
    ensures
        tmpfs_views(r@) == spec_tmpfs_targets(spec_lines(mounts@)),
{
    let all = essential_tmpfs();
    let mut out: Vec<TmpfsMount> = Vec::new();
    if !is_tmpfs(mounts, all[0].path) {
        out.push(all[0]);
    }
    if !is_tmpfs(mounts, all[1].path) {
        out.push(all[1]);
    }
    if !is_tmpfs(mounts, all[2].path) {
        out.push(all[2]);
    }
    assert(tmpfs_views(out@) =~= spec_tmpfs_targets(spec_lines(mounts@)));
    out
}

/// No field of a line is empty, and none holds white space.
pub proof fn lemma_fields(line: Seq<char>)
    ensures
        forall|k: int|
            0 <= k < spec_fields(line).len() ==> (#[trigger] spec_fields(line)[k]).len() > 0
                && forall|j: int|
                0 <= j < spec_fields(line)[k].len() ==> !spec_is_whitespace(
                    #[trigger] spec_fields(line)[k][j],
                ),
{
    lemma_fields_scan(line, 0, Seq::empty(), Seq::empty());
}

/// Whether a piece holds something and no white space.
pub open spec fn spec_is_word(piece: Seq<char>) -> bool {
    piece.len() > 0 && forall|j: int| 0 <= j < piece.len() ==> !spec_is_whitespace(
        #[trigger] piece[j],
    )
}

proof fn lemma_fields_scan(s: Seq<char>, i: int, current: Seq<char>, done: Seq<Seq<char>>)
    requires
        0 <= i <= s.len(),
        forall|j: int| 0 <= j < current.len() ==> !spec_is_whitespace(#[trigger] current[j]),
        forall|k: int| 0 <= k < done.len() ==> spec_is_word(#[trigger] done[k]),
    ensures
        forall|k: int|
            0 <= k < spec_split_scan(s, Separator::WhiteSpace, i, current, done).len()
                ==> spec_is_word(
                #[trigger] spec_split_scan(s, Separator::WhiteSpace, i, current, done)[k],
            ),
    decreases s.len() - i,
{
    let grown = if current.len() > 0 {
        done.push(current)
    } else {
        done
    };
    assert forall|k: int| 0 <= k < grown.len() implies spec_is_word(#[trigger] grown[k]) by {
        if k < done.len() {
            assert(grown[k] == done[k]);
        } else {
            assert(grown[k] == current);
        }
    }
    let sep = Separator::WhiteSpace;
    assert(!sep.spec_keep_empty());
    if i >= s.len() {
        assert(spec_split_scan(s, sep, i, current, done) == grown);
    } else {
        assert(sep.spec_matches(s[i]) == spec_is_whitespace(s[i]));
        if spec_is_whitespace(s[i]) {
            assert(spec_split_scan(s, sep, i, current, done) == spec_split_scan(
                s,
                sep,
                i + 1,
                Seq::empty(),
                grown,
            ));
            lemma_fields_scan(s, i + 1, Seq::empty(), grown);
        } else {
            let next = current.push(s[i]);
            assert forall|j: int| 0 <= j < next.len() implies !spec_is_whitespace(
                #[trigger] next[j],
            ) by {
                if j < current.len() {
                    assert(next[j] == current[j]);
                }
            }
            assert(spec_split_scan(s, sep, i, current, done) == spec_split_scan(
                s,
                sep,
                i + 1,
                next,
                done,
            ));
            lemma_fields_scan(s, i + 1, next, done);
        }
    }
}

/// The mount points that are frozen after a quiesce: those of `candidates`
/// whose attempt counts. Each result holds what the freeze call returned and
/// the error number it left; a mount point that could not be opened has a
/// result that does not count.
pub open spec fn spec_frozen(candidates: Seq<Seq<char>>, results: Seq<(i32, i32)>) -> Seq<Seq<char>>
    decreases candidates.len(),
{
    if candidates.len() == 0 || results.len() != candidates.len() {
        Seq::empty()
    } else if results.last().0 == 0 || results.last().1 == EBUSY {
        spec_frozen(candidates.drop_last(), results.drop_last()).push(candidates.last())
    } else {
        spec_frozen(candidates.drop_last(), results.drop_last())
    }
}

/// Number of thaw calls that returned zero.
pub open spec fn spec_thawed(results: Seq<i32>) -> nat
    decreases results.len(),
{
    if results.len() == 0 {
        0
    } else if results.last() == 0 {
        spec_thawed(results.drop_last()) + 1
    } else {
        spec_thawed(results.drop_last())
    }
}

/// Says which mount points are frozen after a quiesce, given what the freeze
/// call on each candidate returned and the error number it left.
#[verifier::rlimit(40)]
pub fn freeze_filesystems(candidates: &[String], results: &[(i32, i32)]) -> (r: Vec<String>)
    requires
        candidates@.len() == results@.len(),
    ensures
        strings_view(r@) == spec_frozen(strings_view(candidates@), results@),
        r@.len() <= candidates@.len(),
{
    let ghost names = strings_view(candidates@);
    let mut out: Vec<String> = Vec::new();
    let mut i: usize = 0;
    assert(names.take(0) =~= Seq::<Seq<char>>::empty());
    assert(strings_view(out@) =~= Seq::<Seq<char>>::empty());
    while i < candidates.len()
        invariant
            i <= candidates@.len(),
            candidates@.len() == results@.len(),
            names == strings_view(candidates@),
            out@.len() <= i,
            strings_view(out@) == spec_frozen(names.take(i as int), results@.take(i as int)),
        decreases candidates@.len() - i,
    {
        assert(names.take(i + 1).drop_last() =~= names.take(i as int));
        assert(results@.take(i + 1).drop_last() =~= results@.take(i as int));
        assert(names.take(i + 1).last() == candidates@[i as int]@);
        assert(results@.take(i + 1).last() == results@[i as int]);
        if counts_as_frozen(results[i].0, results[i].1) {
            let ghost before = strings_view(out@);
            out.push(candidates[i].clone());
            assert(strings_view(out@) =~= before.push(candidates@[i as int]@));
        }
        i += 1;
    }
    assert(names.take(names.len() as int) =~= names);
    assert(results@.take(results@.len() as int) =~= results@);
    out
}

/// Counts the filesystems that a thaw thawed, given what the thaw call on
/// each frozen mount point returned. The count stops at the largest `u32`.
pub fn thaw_frozen(results: &[i32]) -> (r: u32)
    ensures
        spec_thawed(results@) <= u32::MAX ==> r == spec_thawed(results@),
        spec_thawed(results@) > u32::MAX ==> r == u32::MAX,
{
    let mut count: u32 = 0;
    let mut i: usize = 0;
    assert(results@.take(0) =~= Seq::<i32>::empty());
    while i < results.len()
        invariant
            i <= results@.len(),
            spec_thawed(results@.take(i as int)) <= u32::MAX ==> count == spec_thawed(
                results@.take(i as int),
            ),
            spec_thawed(results@.take(i as int)) > u32::MAX ==> count == u32::MAX,
        decreases results@.len() - i,
    {
        assert(results@.take(i + 1).drop_last() =~= results@.take(i as int));
        assert(results@.take(i + 1).last() == results@[i as int]);
        if results[i] == 0 && count < u32::MAX {
            count += 1;
        }
        i += 1;
    }
    assert(results@.take(results@.len() as int) =~= results@);
    count
}

} // verus!
