//! Laying the layers of an image over each other.
//!
//! A layer is a tar archive. Its entries are applied in order: an entry named
//! `.wh..wh..opq` empties the directory it stands in, an entry named `.wh.X`
//! removes its sibling `X`, and every other entry is unpacked over what is
//! there. [`classify_entry`] says which of these an entry is; [`apply_entry`]
//! carries it out on a listing of the tree.

use vstd::prelude::*;
use vstd::string::*;
use crate::text::{
    concat3, ends_with, in_list, rfind_char, spec_ends_with, spec_in_list, spec_rfind,
    spec_starts_with, starts_with, str_eq, strings_view,
};

verus! {

/// Media type of a gzip-compressed layer of an OCI image.
pub const OCI_LAYER_GZIP: &'static str = "application/vnd.oci.image.layer.v1.tar+gzip";

/// Media type of a gzip-compressed layer of a Docker image.
pub const DOCKER_LAYER_GZIP: &'static str = "application/vnd.docker.image.rootfs.diff.tar.gzip";

/// Name of the entry that empties its directory.
pub const OPAQUE_WHITEOUT: &'static str = ".wh..wh..opq";

/// Prefix of the name of an entry that removes a sibling.
pub const WHITEOUT_PREFIX: &'static str = ".wh.";

/// Whether a layer of this media type is compressed with gzip.
pub open spec fn spec_is_gzip(media_type: Seq<char>) -> bool {
    media_type == OCI_LAYER_GZIP@ || media_type == DOCKER_LAYER_GZIP@ || spec_ends_with(
        media_type,
        "+gzip"@,
    )
}

/// Whether a layer of this media type is compressed with gzip.
pub fn is_gzip(media_type: &str) -> (r: bool)
    ensures
        r == spec_is_gzip(media_type@),
{
    str_eq(media_type, OCI_LAYER_GZIP) || str_eq(media_type, DOCKER_LAYER_GZIP) || ends_with(
        media_type,
        "+gzip",
    )
}

/// The media type under which a layer is kept: its own, or that of an OCI
/// layer where it names none.
pub fn layer_media_type(media_type: &str) -> (r: &str)
    ensures
        r@ == (if media_type@.len() == 0 {
            OCI_LAYER_GZIP@
        } else {
            media_type@
        }),
{
    if media_type.unicode_len() == 0 {
        OCI_LAYER_GZIP
    } else {
        media_type
    }
}

/// Length of `path` without the slashes at its end.
pub open spec fn spec_trimmed_len(path: Seq<char>, end: int) -> int
    decreases end,
{
    if end <= 0 {
        0
    } else if end <= path.len() && path[end - 1] != '/' {
        end
    } else {
        spec_trimmed_len(path, end - 1)
    }
}

/// `path` without the slashes at its end.
pub open spec fn spec_trim_slashes(path: Seq<char>) -> Seq<char> {
    path.take(spec_trimmed_len(path, path.len() as int))
}

/// The directory that an entry stands in: what comes before the last `/`, and
/// nothing where there is none.
pub open spec fn spec_parent(path: Seq<char>) -> Seq<char> {
    match spec_rfind(path, '/') {
        Some(i) => path.take(i),
        None => Seq::empty(),
    }
}

/// The name of an entry: what comes behind the last `/`.
pub open spec fn spec_file_name(path: Seq<char>) -> Seq<char> {
    match spec_rfind(path, '/') {
        Some(i) => path.skip(i + 1),
        None => path,
    }
}

/// `name` in the directory `dir`; `name` itself where `dir` is empty.
pub open spec fn spec_child(dir: Seq<char>, name: Seq<char>) -> Seq<char> {
    if dir.len() == 0 {
        name
    } else {
        dir + "/"@ + name
    }
}

/// What an entry of a layer asks for.
#[derive(Debug, Clone)]
pub enum EntryAction {
    /// The entry has no name: it is passed over.
    Skip,
    /// An opaque whiteout: everything in `dir` goes, `dir` stays.
    ClearDir {
        /// The directory, relative to the root of the tree.
        dir: String,
    },
    /// A whiteout: `path` goes, with everything in it.
    Remove {
        /// The path, relative to the root of the tree.
        path: String,
    },
    /// Anything else is unpacked over what is there.
    Unpack {
        /// The path, relative to the root of the tree.
        path: String,
    },
}

/// An action as plain data.
pub enum EntryActionView {
    /// The entry is passed over.
    Skip,
    /// Everything in `dir` goes.
    ClearDir {
        /// The directory.
        dir: Seq<char>,
    },
    /// `path` goes, with everything in it.
    Remove {
        /// The path.
        path: Seq<char>,
    },
    /// The entry is unpacked.
    Unpack {
        /// The path.
        path: Seq<char>,
    },
}

impl View for EntryAction {
    type V = EntryActionView;

    open spec fn view(&self) -> EntryActionView {
        match self {
            EntryAction::Skip => EntryActionView::Skip,
            EntryAction::ClearDir { dir } => EntryActionView::ClearDir { dir: dir@ },
            EntryAction::Remove { path } => EntryActionView::Remove { path: path@ },
            EntryAction::Unpack { path } => EntryActionView::Unpack { path: path@ },
        }
    }
}

/// What the entry `path` asks for. Slashes at its end do not count. An entry
/// without a name, or named `..`, is passed over.
pub open spec fn spec_classify(path: Seq<char>) -> EntryActionView {
    let entry = spec_trim_slashes(path);
    let name = spec_file_name(entry);
    let dir = spec_parent(entry);
    if name.len() == 0 || name == ".."@ {
        EntryActionView::Skip
    } else if name == OPAQUE_WHITEOUT@ {
        EntryActionView::ClearDir { dir }
    } else if spec_starts_with(name, WHITEOUT_PREFIX@) {
        EntryActionView::Remove { path: spec_child(dir, name.skip(WHITEOUT_PREFIX@.len() as int)) }
    } else {
        EntryActionView::Unpack { path: entry }
    }
}

fn trim_slashes(path: &str) -> (r: &str)
    ensures
        r@ == spec_trim_slashes(path@),
{
    let n = path.unicode_len();
    let mut end: usize = n;
    while end > 0 && path.get_char(end - 1) == '/'
        invariant
            n == path@.len(),
            end <= n,
            spec_trimmed_len(path@, end as int) == spec_trimmed_len(path@, n as int),
        decreases end,
    {
        end -= 1;
    }
    path.substring_char(0, end)
}

/// Says what the entry `path` of a layer asks for.
#[verifier::rlimit(40)]
pub fn classify_entry(path: &str) -> (r: EntryAction)
    ensures
        r@ == spec_classify(path@),
{
    let entry = trim_slashes(path);
    let n = entry.unicode_len();
    let (dir, name) = match rfind_char(entry, '/') {
        Some(i) => {
            proof {
                crate::text::lemma_rfind_before(entry@, '/', entry@.len() as int);
            }
            (entry.substring_char(0, i), entry.substring_char(i + 1, n))
        },
        None => {
            let empty = entry.substring_char(0, 0);
            assert(empty@ =~= Seq::<char>::empty());
            (empty, entry)
        },
    };
    if name.unicode_len() == 0 || str_eq(name, "..") {
        EntryAction::Skip
    } else if str_eq(name, OPAQUE_WHITEOUT) {
        EntryAction::ClearDir { dir: String::from_str(dir) }
    } else if starts_with(name, WHITEOUT_PREFIX) {
        let prefix_len = WHITEOUT_PREFIX.unicode_len();
        let target = name.substring_char(prefix_len, name.unicode_len());
        let path = if dir.unicode_len() == 0 {
            String::from_str(target)
        } else {
            concat3(dir, "/", target)
        };
        EntryAction::Remove { path }
    } else {
        EntryAction::Unpack { path: String::from_str(entry) }
    }
}

/// Whether `path` lies in the directory `dir`, at any depth. Everything lies in
/// the root, which is the empty path.
pub open spec fn spec_is_under(path: Seq<char>, dir: Seq<char>) -> bool {
    dir.len() == 0 || spec_starts_with(path, dir + "/"@)
}

/// Whether `path` lies in the directory `dir`, at any depth.
pub fn is_under(path: &str, dir: &str) -> (r: bool)
    ensures
        r == spec_is_under(path@, dir@),
{
    if dir.unicode_len() == 0 {
        return true;
    }
    let prefix = crate::text::concat2(dir, "/");
    starts_with(path, prefix.as_str())
}

/// Whether an action leaves `path` in the tree.
pub open spec fn spec_survives(action: EntryActionView, path: Seq<char>) -> bool {
    match action {
        EntryActionView::ClearDir { dir } => !spec_is_under(path, dir),
        EntryActionView::Remove { path: gone } => path != gone && !spec_is_under(path, gone),
        _ => true,
    }
}

/// The paths of `tree` that an action leaves, in their order.
pub open spec fn spec_survivors(tree: Seq<Seq<char>>, action: EntryActionView) -> Seq<Seq<char>>
    decreases tree.len(),
{
    if tree.len() == 0 {
        Seq::empty()
    } else if spec_survives(action, tree.last()) {
        spec_survivors(tree.drop_last(), action).push(tree.last())
    } else {
        spec_survivors(tree.drop_last(), action)
    }
}

/// The tree after an action: a whiteout takes away what it names, and an
/// unpacked entry is in the tree once.
pub open spec fn spec_apply_action(tree: Seq<Seq<char>>, action: EntryActionView) -> Seq<Seq<char>> {
    match action {
        EntryActionView::Unpack { path } => if spec_in_list(tree, path) {
            tree
        } else {
            tree.push(path)
        },
        _ => spec_survivors(tree, action),
    }
}

/// The tree after the entries of a layer were applied in order.
pub open spec fn spec_apply_layer(tree: Seq<Seq<char>>, entries: Seq<Seq<char>>) -> Seq<Seq<char>>
    decreases entries.len(),
{
    if entries.len() == 0 {
        tree
    } else {
        spec_apply_action(
            spec_apply_layer(tree, entries.drop_last()),
            spec_classify(entries.last()),
        )
    }
}

/// What an action leaves is what survives it, and nothing else.
#[verifier::rlimit(40)]
pub proof fn lemma_survivors(tree: Seq<Seq<char>>, action: EntryActionView)
    ensures
        forall|j: int|
            0 <= j < spec_survivors(tree, action).len() ==> spec_survives(
                action,
                #[trigger] spec_survivors(tree, action)[j],
            ) && spec_in_list(tree, spec_survivors(tree, action)[j]),
        forall|k: int|
            0 <= k < tree.len() && spec_survives(action, #[trigger] tree[k]) ==> spec_in_list(
                spec_survivors(tree, action),
                tree[k],
            ),
    decreases tree.len(),
{
    if tree.len() > 0 {
        let init = tree.drop_last();
        let last = tree.last();
        let left_init = spec_survivors(init, action);
        let left = spec_survivors(tree, action);
        lemma_survivors(init, action);
        assert forall|j: int| 0 <= j < left.len() implies spec_survives(action, #[trigger] left[j])
            && spec_in_list(tree, left[j]) by {
            crate::text::lemma_find_str(tree, left[j], 0);
            if j < left_init.len() {
                assert(left[j] == left_init[j]);
                crate::text::lemma_find_str(init, left[j], 0);
                let at = crate::text::spec_find_str(init, left[j], 0);
                assert(tree[at] == init[at]);
            } else {
                assert(left[j] == tree[tree.len() - 1]);
            }
        }
        assert forall|k: int|
            0 <= k < tree.len() && spec_survives(action, #[trigger] tree[k]) implies spec_in_list(
            left,
            tree[k],
        ) by {
            crate::text::lemma_find_str(left, tree[k], 0);
            if k < init.len() {
                assert(init[k] == tree[k]);
                crate::text::lemma_find_str(left_init, tree[k], 0);
                let at = crate::text::spec_find_str(left_init, tree[k], 0);
                if spec_survives(action, last) {
                    assert(left[at] == left_init[at]);
                }
            } else {
                assert(left[left.len() - 1] == last);
            }
        }
    }
}

/// A whiteout `.wh.X` in the directory `dir` leaves neither `X` of that
/// directory nor anything in it, and leaves every other path.
pub proof fn lemma_whiteout(tree: Seq<Seq<char>>, dir: Seq<char>, name: Seq<char>)
    ensures
        ({
            let gone = spec_child(dir, name);
            let after = spec_apply_action(tree, EntryActionView::Remove { path: gone });
            &&& !spec_in_list(after, gone)
            &&& forall|j: int|
                0 <= j < after.len() ==> #[trigger] after[j] != gone && !spec_is_under(
                    after[j],
                    gone,
                )
            &&& forall|k: int|
                0 <= k < tree.len() && #[trigger] tree[k] != gone && !spec_is_under(tree[k], gone)
                    ==> spec_in_list(after, tree[k])
        }),
{
    let gone = spec_child(dir, name);
    let action = EntryActionView::Remove { path: gone };
    let after = spec_apply_action(tree, action);
    lemma_survivors(tree, action);
    crate::text::lemma_find_str(after, gone, 0);
}

/// An opaque whiteout in the directory `dir` leaves nothing that lies in
/// `dir`, and leaves every other path, `dir` itself among them.
pub proof fn lemma_opaque_whiteout(tree: Seq<Seq<char>>, dir: Seq<char>)
    ensures
        ({
            let after = spec_apply_action(tree, EntryActionView::ClearDir { dir });
            &&& forall|j: int| 0 <= j < after.len() ==> !spec_is_under(#[trigger] after[j], dir)
            &&& forall|k: int|
                0 <= k < tree.len() && !spec_is_under(#[trigger] tree[k], dir) ==> spec_in_list(
                    after,
                    tree[k],
                )
            &&& dir.len() > 0 && spec_in_list(tree, dir) ==> spec_in_list(after, dir)
        }),
{
    let action = EntryActionView::ClearDir { dir };
    let after = spec_apply_action(tree, action);
    lemma_survivors(tree, action);
    if dir.len() > 0 && spec_in_list(tree, dir) {
        crate::text::lemma_find_str(tree, dir, 0);
        let at = crate::text::spec_find_str(tree, dir, 0);
        assert(!spec_is_under(dir, dir)) by {
            assert((dir + "/"@).len() == dir.len() + "/"@.len());
            reveal_strlit("/");
        }
        assert(spec_survives(action, tree[at]));
    }
}

/// Carries out on the listing `tree` what the entry `path` of a layer asks
/// for.
#[verifier::rlimit(40)]
pub fn apply_entry(tree: &mut Vec<String>, path: &str)
    ensures
        strings_view(final(tree)@) == spec_apply_action(
            strings_view(old(tree)@),
            spec_classify(path@),
        ),
{
    let action = classify_entry(path);
    let ghost before = strings_view(tree@);
    match &action {
        EntryAction::Skip => {
            proof {
                lemma_survivors_all(before, action@);
            }
        },
        EntryAction::Unpack { path } => {
            if !in_list(tree.as_slice(), path.as_str()) {
                tree.push(path.clone());
                assert(strings_view(tree@) =~= before.push(path@));
            }
        },
        _ => {
            let mut left: Vec<String> = Vec::new();
            let mut i: usize = 0;
            assert(before.take(0) =~= Seq::<Seq<char>>::empty());
            assert(strings_view(left@) =~= spec_survivors(before.take(0), action@));
            while i < tree.len()
                invariant
                    i <= tree@.len(),
                    before == strings_view(tree@),
                    action@ is ClearDir || action@ is Remove,
                    strings_view(left@) == spec_survivors(before.take(i as int), action@),
                decreases tree@.len() - i,
            {
                assert(before.take(i + 1).drop_last() =~= before.take(i as int));
                assert(before.take(i + 1).last() == tree@[i as int]@);
                let keep = match &action {
                    EntryAction::ClearDir { dir } => !is_under(tree[i].as_str(), dir.as_str()),
                    EntryAction::Remove { path: gone } => !str_eq(tree[i].as_str(), gone.as_str())
                        && !is_under(tree[i].as_str(), gone.as_str()),
                    _ => true,
                };
                if keep {
                    let ghost left_before = strings_view(left@);
                    left.push(tree[i].clone());
                    assert(strings_view(left@) =~= left_before.push(tree@[i as int]@));
                }
                i += 1;
            }
            assert(before.take(before.len() as int) =~= before);
            *tree = left;
        },
    }
}

/// An action that takes nothing away leaves the tree as it is.
pub proof fn lemma_survivors_all(tree: Seq<Seq<char>>, action: EntryActionView)
    requires
        forall|k: int| 0 <= k < tree.len() ==> spec_survives(action, #[trigger] tree[k]),
    ensures
        spec_survivors(tree, action) == tree,
    decreases tree.len(),
{
    if tree.len() > 0 {
        let init = tree.drop_last();
        assert forall|k: int| 0 <= k < init.len() implies spec_survives(
            action,
            #[trigger] init[k],
        ) by {
            assert(init[k] == tree[k]);
        }
        lemma_survivors_all(init, action);
        assert(init.push(tree.last()) =~= tree);
    } else {
        assert(spec_survivors(tree, action) =~= tree);
    }
}

/// Applies the entries of a layer to the listing `tree`, in order.
pub fn apply_layer(tree: &mut Vec<String>, entries: &[String])
    ensures
        strings_view(final(tree)@) == spec_apply_layer(
            strings_view(old(tree)@),
            strings_view(entries@),
        ),
{
    let ghost start = strings_view(tree@);
    let ghost names = strings_view(entries@);
    let mut i: usize = 0;
    assert(names.take(0) =~= Seq::<Seq<char>>::empty());
    while i < entries.len()
        invariant
            i <= entries@.len(),
            names == strings_view(entries@),
            strings_view(tree@) == spec_apply_layer(start, names.take(i as int)),
        decreases entries@.len() - i,
    {
        assert(names.take(i + 1).drop_last() =~= names.take(i as int));
        assert(names.take(i + 1).last() == entries@[i as int]@);
        apply_entry(tree, entries[i].as_str());
        i += 1;
    }
    assert(names.take(names.len() as int) =~= names);
}

} // verus!
