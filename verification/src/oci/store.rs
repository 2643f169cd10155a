//! The local image store: where blobs lie, and the index of layers and images.
//!
//! Under its root the store keeps `blobs/{digest}`, `configs/{digest}` and
//! `rootfs/{manifest digest}/`, each digest with its `:` written as `-`. The
//! index counts for every layer how often it was saved; removing an image
//! takes one from the count of each of its layers, and a layer whose count
//! reaches zero leaves the index and, by the hand of the caller, the disk.
//!
//! The store touches no file itself. It says where a blob belongs and which
//! files are to go; the caller writes and unlinks.

use vstd::prelude::*;
use vstd::string::*;
use crate::oci::{Error, ErrorView};
use crate::text::{
    clone_opt_string, clone_strings, concat2, dedup, hex_bytes, in_list, lemma_find_str,
    opt_string_view, path_join, replace_chars, spec_dedup, spec_find_str, spec_hex_bytes,
    spec_in_list, spec_path_join, spec_replace_chars, str_eq, strings_view,
};

verus! {

/// The SHA-256 digest of `data`.
pub uninterp spec fn sha256(data: Seq<u8>) -> Seq<u8>;

/// Computes the SHA-256 digest of `data` with `sha2::Sha256::digest`: the
/// result is the digest of these bytes, and is 32 bytes long.
#[verifier::external_body]
fn sha256_digest(data: &[u8]) -> (r: Vec<u8>)
    ensures
        r@ == sha256(data@),
        r@.len() == 32,
{
    <sha2::Sha256 as sha2::Digest>::digest(data).to_vec()
}

/// The name of a blob: `sha256:` and the digest of its bytes in lower-case
/// hexadecimal.
pub open spec fn spec_content_digest(data: Seq<u8>) -> Seq<char> {
    "sha256:"@ + spec_hex_bytes(sha256(data))
}

/// Names a blob by its content.
pub fn content_digest(data: &[u8]) -> (r: String)
    ensures
        r@ == spec_content_digest(data@),
{
    let raw = sha256_digest(data);
    let hex = hex_bytes(raw.as_slice());
    concat2("sha256:", hex.as_str())
}

/// A digest as a file name: every `:` is written as `-`.
pub open spec fn spec_file_name(digest: Seq<char>) -> Seq<char> {
    spec_replace_chars(digest, ':', ':', '-')
}

/// Where something named `digest` lies in the directory `dir` of the store at
/// `root`.
pub open spec fn spec_store_path(root: Seq<char>, dir: Seq<char>, digest: Seq<char>) -> Seq<char> {
    spec_path_join(spec_path_join(root, dir), spec_file_name(digest))
}

fn store_path(root: &str, dir: &str, digest: &str) -> (r: String)
    ensures
        r@ == spec_store_path(root@, dir@, digest@),
{
    let name = replace_chars(digest, ':', ':', '-');
    let base = path_join(root, dir);
    path_join(base.as_str(), name.as_str())
}

/// What the index knows of a stored image.
#[derive(Debug, Clone)]
pub struct ImageMeta {
    /// Canonical reference of the image.
    pub reference: String,
    /// Digest of its manifest.
    pub digest: String,
    /// Size of its layers in bytes.
    pub size: u64,
}

/// A layer in the index.
#[derive(Debug, Clone)]
pub struct LayerRecord {
    /// Digest of the layer, which names its blob.
    pub digest: String,
    /// Media type of the layer.
    pub media_type: String,
    /// Size of the blob in bytes.
    pub size: u64,
    /// How often the layer was saved and not yet given up.
    pub ref_count: u64,
}

/// An image in the index.
#[derive(Debug, Clone)]
pub struct ImageRecord {
    /// Canonical reference of the image.
    pub reference: String,
    /// Digest of its manifest.
    pub digest: String,
    /// Size of its layers in bytes.
    pub size: u64,
    /// Its configuration as JSON, where it was stored.
    pub config: Option<String>,
    /// When the record was written.
    pub created: u64,
    /// Digests of its layers, lowest first, none twice.
    pub layers: Vec<String>,
}

/// A layer record as plain data.
pub struct LayerView {
    /// Digest of the layer.
    pub digest: Seq<char>,
    /// Media type of the layer.
    pub media_type: Seq<char>,
    /// Size of the blob in bytes.
    pub size: u64,
    /// How often the layer was saved and not yet given up.
    pub ref_count: u64,
}

/// An image record as plain data.
pub struct ImageView {
    /// Canonical reference of the image.
    pub reference: Seq<char>,
    /// Digest of its manifest.
    pub digest: Seq<char>,
    /// Size of its layers in bytes.
    pub size: u64,
    /// Its configuration as JSON.
    pub config: Option<Seq<char>>,
    /// When the record was written.
    pub created: u64,
    /// Digests of its layers, lowest first.
    pub layers: Seq<Seq<char>>,
}

/// The store as plain data.
pub struct StoreView {
    /// Root directory.
    pub root: Seq<char>,
    /// The layers, in the order in which they were first saved.
    pub layers: Seq<LayerView>,
    /// The images, newest first.
    pub images: Seq<ImageView>,
}

impl View for LayerRecord {
    type V = LayerView;

    open spec fn view(&self) -> LayerView {
        LayerView {
            digest: self.digest@,
            media_type: self.media_type@,
            size: self.size,
            ref_count: self.ref_count,
        }
    }
}

impl View for ImageRecord {
    type V = ImageView;

    open spec fn view(&self) -> ImageView {
        ImageView {
            reference: self.reference@,
            digest: self.digest@,
            size: self.size,
            config: opt_string_view(self.config),
            created: self.created,
            layers: strings_view(self.layers@),
        }
    }
}

/// The layer records as plain data.
pub open spec fn layer_views(v: Seq<LayerRecord>) -> Seq<LayerView> {
    Seq::new(v.len(), |i: int| v[i]@)
}

/// The image records as plain data.
pub open spec fn image_views(v: Seq<ImageRecord>) -> Seq<ImageView> {
    Seq::new(v.len(), |i: int| v[i]@)
}

/// Index of the layer `digest` at or behind `from`; the number of layers
/// where there is none.
pub open spec fn spec_find_layer(layers: Seq<LayerView>, digest: Seq<char>, from: int) -> int
    decreases layers.len() - from,
{
    if from >= layers.len() {
        layers.len() as int
    } else if from >= 0 && layers[from].digest == digest {
        from
    } else {
        spec_find_layer(layers, digest, from + 1)
    }
}

/// Index of the image `reference` at or behind `from`; the number of images
/// where there is none.
pub open spec fn spec_find_image(images: Seq<ImageView>, reference: Seq<char>, from: int) -> int
    decreases images.len() - from,
{
    if from >= images.len() {
        images.len() as int
    } else if from >= 0 && images[from].reference == reference {
        from
    } else {
        spec_find_image(images, reference, from + 1)
    }
}

/// Index of the first image at or behind `from` that has the layer `digest`;
/// the number of images where none has it.
pub open spec fn spec_find_user(images: Seq<ImageView>, digest: Seq<char>, from: int) -> int
    decreases images.len() - from,
{
    if from >= images.len() {
        images.len() as int
    } else if from >= 0 && spec_in_list(images[from].layers, digest) {
        from
    } else {
        spec_find_user(images, digest, from + 1)
    }
}

/// Index of the first of `digests` at or behind `from` that is no layer of
/// the index; the number of digests where all are.
pub open spec fn spec_find_unknown(layers: Seq<LayerView>, digests: Seq<Seq<char>>, from: int) -> int
    decreases digests.len() - from,
{
    if from >= digests.len() {
        digests.len() as int
    } else if from >= 0 && spec_find_layer(layers, digests[from], 0) >= layers.len() {
        from
    } else {
        spec_find_unknown(layers, digests, from + 1)
    }
}

/// Where an image written at `created` goes: before the first image that is
/// not newer.
pub open spec fn spec_image_pos(images: Seq<ImageView>, created: u64, from: int) -> int
    decreases images.len() - from,
{
    if from >= images.len() {
        images.len() as int
    } else if from >= 0 && images[from].created <= created {
        from
    } else {
        spec_image_pos(images, created, from + 1)
    }
}

/// The layers after the layer `digest` was saved once more: its count is one
/// higher; a layer that was not there is there with the count 1.
pub open spec fn spec_save_layer(
    layers: Seq<LayerView>,
    digest: Seq<char>,
    media_type: Seq<char>,
    size: u64,
) -> Seq<LayerView> {
    let i = spec_find_layer(layers, digest, 0);
    if i < layers.len() {
        layers.update(i, LayerView { ref_count: (layers[i].ref_count + 1) as u64, ..layers[i] })
    } else {
        layers.push(LayerView { digest, media_type, size, ref_count: 1 })
    }
}

/// The layers after each layer in `digests` gave up one from its count.
pub open spec fn spec_release(layers: Seq<LayerView>, digests: Seq<Seq<char>>) -> Seq<LayerView> {
    Seq::new(
        layers.len(),
        |k: int|
            if spec_in_list(digests, layers[k].digest) {
                LayerView { ref_count: (layers[k].ref_count - 1) as u64, ..layers[k] }
            } else {
                layers[k]
            },
    )
}

/// The layers whose count is above zero, in their order.
pub open spec fn spec_live(layers: Seq<LayerView>) -> Seq<LayerView>
    decreases layers.len(),
{
    if layers.len() == 0 {
        Seq::empty()
    } else if layers.last().ref_count > 0 {
        spec_live(layers.drop_last()).push(layers.last())
    } else {
        spec_live(layers.drop_last())
    }
}

/// The digests of the layers whose count is zero, in their order.
pub open spec fn spec_orphans(layers: Seq<LayerView>) -> Seq<Seq<char>>
    decreases layers.len(),
{
    if layers.len() == 0 {
        Seq::empty()
    } else if layers.last().ref_count > 0 {
        spec_orphans(layers.drop_last())
    } else {
        spec_orphans(layers.drop_last()).push(layers.last().digest)
    }
}

/// Index of the first layer at or behind `from` whose count is zero while an
/// image still has it; the number of layers where there is none.
pub open spec fn spec_find_blocked(layers: Seq<LayerView>, images: Seq<ImageView>, from: int) -> int
    decreases layers.len() - from,
{
    if from >= layers.len() {
        layers.len() as int
    } else if from >= 0 && layers[from].ref_count == 0 && spec_find_user(
        images,
        layers[from].digest,
        0,
    ) < images.len() {
        from
    } else {
        spec_find_blocked(layers, images, from + 1)
    }
}

/// What holds of the store at all times: no two layers have one digest, every
/// layer has a count above zero, no two images have one reference, a newer
/// image stands before an older one, no image has a layer twice, and every
/// layer of an image is in the index.
pub open spec fn spec_wf_store(v: StoreView) -> bool {
    &&& forall|i: int, j: int|
        0 <= i < j < v.layers.len() ==> (#[trigger] v.layers[i]).digest != (
        #[trigger] v.layers[j]).digest
    &&& forall|i: int| 0 <= i < v.layers.len() ==> (#[trigger] v.layers[i]).ref_count >= 1
    &&& forall|i: int, j: int|
        0 <= i < j < v.images.len() ==> (#[trigger] v.images[i]).reference != (
        #[trigger] v.images[j]).reference
    &&& forall|i: int, j: int|
        0 <= i < j < v.images.len() ==> (#[trigger] v.images[i]).created >= (
        #[trigger] v.images[j]).created
    &&& forall|i: int, a: int, b: int|
        0 <= i < v.images.len() && 0 <= a < b < v.images[i].layers.len() ==> (
        #[trigger] v.images[i].layers[a]) != (#[trigger] v.images[i].layers[b])
    &&& forall|i: int, k: int|
        0 <= i < v.images.len() && 0 <= k < v.images[i].layers.len() ==> spec_find_layer(
            v.layers,
            #[trigger] v.images[i].layers[k],
            0,
        ) < v.layers.len()
}

/// A blob that was saved: its name, and the file that holds it or is to hold
/// it. The caller writes the file unless it is there.
#[derive(Debug, Clone)]
pub struct SavedBlob {
    /// Name of the blob.
    pub digest: String,
    /// Path of its file.
    pub path: String,
}

/// What is to go from the disk once an image left the index.
#[derive(Debug, Clone)]
pub struct Removal {
    /// Files of the layers that no image needs any more.
    pub unlink: Vec<String>,
    /// Directory of the unpacked root filesystem.
    pub rootfs: Option<String>,
}

/// The image store.
#[derive(Debug)]
pub struct Store {
    root: String,
    layers: Vec<LayerRecord>,
    images: Vec<ImageRecord>,
}

impl View for Store {
    type V = StoreView;

    closed spec fn view(&self) -> StoreView {
        StoreView {
            root: self.root@,
            layers: layer_views(self.layers@),
            images: image_views(self.images@),
        }
    }
}

/// The search for a layer ends at that layer, and passes none like it.
pub proof fn lemma_find_layer(layers: Seq<LayerView>, digest: Seq<char>, from: int)
    requires
        0 <= from <= layers.len(),
    ensures
        from <= spec_find_layer(layers, digest, from) <= layers.len(),
        spec_find_layer(layers, digest, from) < layers.len() ==> layers[spec_find_layer(
            layers,
            digest,
            from,
        )].digest == digest,
        forall|k: int|
            from <= k < spec_find_layer(layers, digest, from) ==> (#[trigger] layers[k]).digest
                != digest,
    decreases layers.len() - from,
{
    if from < layers.len() && layers[from].digest != digest {
        lemma_find_layer(layers, digest, from + 1);
    }
}

/// The search for an image ends at that image, and passes none like it.
pub proof fn lemma_find_image(images: Seq<ImageView>, reference: Seq<char>, from: int)
    requires
        0 <= from <= images.len(),
    ensures
        from <= spec_find_image(images, reference, from) <= images.len(),
        spec_find_image(images, reference, from) < images.len() ==> images[spec_find_image(
            images,
            reference,
            from,
        )].reference == reference,
        forall|k: int|
            from <= k < spec_find_image(images, reference, from) ==> (
            #[trigger] images[k]).reference != reference,
    decreases images.len() - from,
{
    if from < images.len() && images[from].reference != reference {
        lemma_find_image(images, reference, from + 1);
    }
}

/// The search for an image with a layer ends at such an image, and passes
/// none.
pub proof fn lemma_find_user(images: Seq<ImageView>, digest: Seq<char>, from: int)
    requires
        0 <= from <= images.len(),
    ensures
        from <= spec_find_user(images, digest, from) <= images.len(),
        spec_find_user(images, digest, from) < images.len() ==> spec_in_list(
            images[spec_find_user(images, digest, from)].layers,
            digest,
        ),
        forall|k: int|
            from <= k < spec_find_user(images, digest, from) ==> !spec_in_list(
                (#[trigger] images[k]).layers,
                digest,
            ),
    decreases images.len() - from,
{
    if from < images.len() && !spec_in_list(images[from].layers, digest) {
        lemma_find_user(images, digest, from + 1);
    }
}

/// The search for an unknown digest ends at one, and passes none.
pub proof fn lemma_find_unknown(layers: Seq<LayerView>, digests: Seq<Seq<char>>, from: int)
    requires
        0 <= from <= digests.len(),
    ensures
        from <= spec_find_unknown(layers, digests, from) <= digests.len(),
        spec_find_unknown(layers, digests, from) < digests.len() ==> spec_find_layer(
            layers,
            digests[spec_find_unknown(layers, digests, from)],
            0,
        ) >= layers.len(),
        forall|k: int|
            from <= k < spec_find_unknown(layers, digests, from) ==> spec_find_layer(
                layers,
                #[trigger] digests[k],
                0,
            ) < layers.len(),
    decreases digests.len() - from,
{
    if from < digests.len() && spec_find_layer(layers, digests[from], 0) < layers.len() {
        lemma_find_unknown(layers, digests, from + 1);
    }
}

/// The place of a new image lies behind every newer image.
pub proof fn lemma_image_pos(images: Seq<ImageView>, created: u64, from: int)
    requires
        0 <= from <= images.len(),
    ensures
        from <= spec_image_pos(images, created, from) <= images.len(),
        spec_image_pos(images, created, from) < images.len() ==> images[spec_image_pos(
            images,
            created,
            from,
        )].created <= created,
        forall|k: int|
            from <= k < spec_image_pos(images, created, from) ==> (#[trigger] images[k]).created
                > created,
    decreases images.len() - from,
{
    if from < images.len() && images[from].created > created {
        lemma_image_pos(images, created, from + 1);
    }
}

/// The search for a blocked layer ends at one, and passes none.
pub proof fn lemma_find_blocked(layers: Seq<LayerView>, images: Seq<ImageView>, from: int)
    requires
        0 <= from <= layers.len(),
    ensures
        from <= spec_find_blocked(layers, images, from) <= layers.len(),
        forall|k: int|
            from <= k < spec_find_blocked(layers, images, from) ==> !((
            #[trigger] layers[k]).ref_count == 0 && spec_find_user(images, layers[k].digest, 0)
                < images.len()),
    decreases layers.len() - from,
{
    if from < layers.len() && !(layers[from].ref_count == 0 && spec_find_user(
        images,
        layers[from].digest,
        0,
    ) < images.len()) {
        lemma_find_blocked(layers, images, from + 1);
    }
}

/// A digest that is found among layers is found at the same place among
/// layers that begin with the same digests.
pub proof fn lemma_find_layer_stable(
    a: Seq<LayerView>,
    b: Seq<LayerView>,
    digest: Seq<char>,
    from: int,
)
    requires
        0 <= from <= a.len() <= b.len(),
        forall|k: int| 0 <= k < a.len() ==> (#[trigger] a[k]).digest == (#[trigger] b[k]).digest,
        spec_find_layer(a, digest, from) < a.len(),
    ensures
        spec_find_layer(b, digest, from) == spec_find_layer(a, digest, from),
    decreases a.len() - from,
{
    if from < a.len() && a[from].digest != digest {
        assert(b[from].digest == a[from].digest);
        lemma_find_layer_stable(a, b, digest, from + 1);
    } else if from < a.len() {
        assert(b[from].digest == a[from].digest);
    }
}

/// No two of the layers have one digest.
pub open spec fn spec_distinct_layers(layers: Seq<LayerView>) -> bool {
    forall|i: int, j: int|
        0 <= i < j < layers.len() ==> (#[trigger] layers[i]).digest != (#[trigger] layers[j]).digest
}

/// Among layers of which no two have one digest, the search for the digest of
/// a layer ends at that layer.
pub proof fn lemma_find_own(layers: Seq<LayerView>, k: int)
    requires
        spec_distinct_layers(layers),
        0 <= k < layers.len(),
    ensures
        spec_find_layer(layers, layers[k].digest, 0) == k,
{
    lemma_find_layer(layers, layers[k].digest, 0);
    let at = spec_find_layer(layers, layers[k].digest, 0);
    if at < k {
        assert(layers[at].digest != layers[k].digest);
    }
}

/// What is left when the layers without count are dropped: exactly the
/// layers with a count, each once.
#[verifier::rlimit(40)]
pub proof fn lemma_live(layers: Seq<LayerView>)
    requires
        spec_distinct_layers(layers),
    ensures
        spec_live(layers).len() <= layers.len(),
        spec_distinct_layers(spec_live(layers)),
        forall|j: int|
            0 <= j < spec_live(layers).len() ==> (#[trigger] spec_live(layers)[j]).ref_count > 0
                && spec_find_layer(layers, spec_live(layers)[j].digest, 0) < layers.len(),
        forall|k: int|
            0 <= k < layers.len() && (#[trigger] layers[k]).ref_count > 0 ==> spec_find_layer(
                spec_live(layers),
                layers[k].digest,
                0,
            ) < spec_live(layers).len() && spec_live(layers)[spec_find_layer(
                spec_live(layers),
                layers[k].digest,
                0,
            )] == layers[k],
        forall|k: int|
            0 <= k < layers.len() && (#[trigger] layers[k]).ref_count == 0 ==> spec_find_layer(
                spec_live(layers),
                layers[k].digest,
                0,
            ) == spec_live(layers).len(),
    decreases layers.len(),
{
    if layers.len() > 0 {
        let init = layers.drop_last();
        let last = layers.last();
        let live_init = spec_live(init);
        let live = spec_live(layers);
        assert(spec_distinct_layers(init)) by {
            assert forall|i: int, j: int| 0 <= i < j < init.len() implies (
            #[trigger] init[i]).digest != (#[trigger] init[j]).digest by {
                assert(init[i] == layers[i] && init[j] == layers[j]);
            }
        }
        lemma_live(init);
        // Every live layer of the beginning is a layer of the beginning, so
        // none has the digest of the last layer.
        assert forall|j: int| 0 <= j < live_init.len() implies (#[trigger] live_init[j]).digest
            != last.digest && spec_find_layer(layers, live_init[j].digest, 0) < layers.len() by {
            let at = spec_find_layer(init, live_init[j].digest, 0);
            lemma_find_layer(init, live_init[j].digest, 0);
            assert(init[at] == layers[at]);
            assert(layers[at].digest != layers[layers.len() - 1].digest);
            lemma_find_layer_stable(init, layers, live_init[j].digest, 0);
        }
        assert forall|j: int| 0 <= j < live.len() implies (#[trigger] live[j]).ref_count > 0
            && spec_find_layer(layers, live[j].digest, 0) < layers.len() by {
            if j < live_init.len() {
                assert(live[j] == live_init[j]);
            } else {
                lemma_find_own(layers, layers.len() - 1);
            }
        }
        assert(spec_distinct_layers(live)) by {
            assert forall|i: int, j: int| 0 <= i < j < live.len() implies (
            #[trigger] live[i]).digest != (#[trigger] live[j]).digest by {
                if j < live_init.len() {
                    assert(live[i] == live_init[i] && live[j] == live_init[j]);
                } else {
                    assert(live[i] == live_init[i]);
                }
            }
        }
        assert forall|k: int|
            0 <= k < layers.len() && (#[trigger] layers[k]).ref_count > 0 implies spec_find_layer(
            live,
            layers[k].digest,
            0,
        ) < live.len() && live[spec_find_layer(live, layers[k].digest, 0)] == layers[k] by {
            if k < init.len() {
                assert(init[k] == layers[k]);
                if last.ref_count > 0 {
                    lemma_find_layer(live_init, layers[k].digest, 0);
                    lemma_find_layer_stable(live_init, live, layers[k].digest, 0);
                    assert(live[spec_find_layer(live_init, layers[k].digest, 0)]
                        == live_init[spec_find_layer(live_init, layers[k].digest, 0)]);
                }
            } else {
                lemma_find_own(live, live.len() - 1);
            }
        }
        assert forall|k: int|
            0 <= k < layers.len() && (#[trigger] layers[k]).ref_count == 0 implies spec_find_layer(
            live,
            layers[k].digest,
            0,
        ) == live.len() by {
            lemma_find_layer(live, layers[k].digest, 0);
            let at = spec_find_layer(live, layers[k].digest, 0);
            if at < live.len() {
                if k < init.len() {
                    assert(init[k] == layers[k]);
                    lemma_find_layer(live_init, layers[k].digest, 0);
                    if at < live_init.len() {
                        assert(live[at] == live_init[at]);
                    } else {
                        assert(live[at] == last);
                        assert(layers[k].digest != layers[layers.len() - 1].digest);
                    }
                } else {
                    assert(live == live_init);
                    assert(live_init[at].digest != last.digest);
                }
            }
        }
    }
}

/// Every string that is left when repetitions are dropped was in the list, every
/// string of the list is left, and none is left twice.
#[verifier::rlimit(40)]
pub proof fn lemma_dedup(list: Seq<Seq<char>>)
    ensures
        forall|a: int, b: int|
            0 <= a < b < spec_dedup(list).len() ==> (#[trigger] spec_dedup(list)[a]) != (
            #[trigger] spec_dedup(list)[b]),
        forall|a: int|
            0 <= a < spec_dedup(list).len() ==> spec_in_list(list, #[trigger] spec_dedup(list)[a]),
        forall|k: int| 0 <= k < list.len() ==> spec_in_list(spec_dedup(list), #[trigger] list[k]),
    decreases list.len(),
{
    if list.len() > 0 {
        let init = list.drop_last();
        let last = list.last();
        let before = spec_dedup(init);
        let out = spec_dedup(list);
        lemma_dedup(init);
        lemma_find_str(before, last, 0);
        assert forall|a: int| 0 <= a < out.len() implies spec_in_list(list, #[trigger] out[a]) by {
            lemma_find_str(list, out[a], 0);
            if a < before.len() {
                assert(out[a] == before[a]);
                lemma_find_str(init, before[a], 0);
                let at = spec_find_str(init, before[a], 0);
                assert(list[at] == init[at]);
            } else {
                assert(out[a] == list[list.len() - 1]);
            }
        }
        assert forall|k: int| 0 <= k < list.len() implies spec_in_list(out, #[trigger] list[k]) by {
            lemma_find_str(out, list[k], 0);
            if k < init.len() {
                assert(init[k] == list[k]);
                lemma_find_str(before, list[k], 0);
                let at = spec_find_str(before, list[k], 0);
                assert(out[at] == before[at]);
            } else if spec_in_list(before, last) {
                let at = spec_find_str(before, last, 0);
                assert(out[at] == last);
            } else {
                assert(out[out.len() - 1] == last);
            }
        }
        assert forall|a: int, b: int| 0 <= a < b < out.len() implies (#[trigger] out[a]) != (
        #[trigger] out[b]) by {
            if b < before.len() {
                assert(out[a] == before[a] && out[b] == before[b]);
            } else {
                assert(out[a] == before[a]);
            }
        }
    }
}

/// The images with `image` in place of the image of the same reference, if
/// there was one, and in its place by age.
pub open spec fn spec_upsert(images: Seq<ImageView>, image: ImageView) -> Seq<ImageView> {
    let at = spec_find_image(images, image.reference, 0);
    let rest = if at < images.len() {
        images.remove(at)
    } else {
        images
    };
    rest.insert(spec_image_pos(rest, image.created, 0), image)
}

/// The files of the blobs named by `digests`.
pub open spec fn spec_blob_paths(root: Seq<char>, digests: Seq<Seq<char>>) -> Seq<Seq<char>> {
    Seq::new(digests.len(), |i: int| spec_store_path(root, "blobs"@, digests[i]))
}

/// What the index tells of each image.
pub open spec fn spec_metas(images: Seq<ImageView>) -> Seq<(Seq<char>, Seq<char>, u64)> {
    Seq::new(images.len(), |i: int| (images[i].reference, images[i].digest, images[i].size))
}

/// What the records tell.
pub open spec fn meta_views(metas: Seq<ImageMeta>) -> Seq<(Seq<char>, Seq<char>, u64)> {
    Seq::new(metas.len(), |i: int| (metas[i].reference@, metas[i].digest@, metas[i].size))
}

impl LayerRecord {
    /// A copy of the record.
    pub fn copy(&self) -> (r: Self)
        ensures
            r@ == self@,
    {
        LayerRecord {
            digest: self.digest.clone(),
            media_type: self.media_type.clone(),
            size: self.size,
            ref_count: self.ref_count,
        }
    }
}

impl ImageRecord {
    /// A copy of the record.
    pub fn copy(&self) -> (r: Self)
        ensures
            r@ == self@,
    {
        ImageRecord {
            reference: self.reference.clone(),
            digest: self.digest.clone(),
            size: self.size,
            config: clone_opt_string(&self.config),
            created: self.created,
            layers: clone_strings(&self.layers),
        }
    }
}

fn find_layer_in(layers: &Vec<LayerRecord>, digest: &str) -> (r: usize)
    ensures
        r == spec_find_layer(layer_views(layers@), digest@, 0),
        r <= layers@.len(),
{
    let ghost views = layer_views(layers@);
    let mut i: usize = 0;
    while i < layers.len()
        invariant
            i <= layers@.len(),
            views == layer_views(layers@),
            spec_find_layer(views, digest@, i as int) == spec_find_layer(views, digest@, 0),
        decreases layers@.len() - i,
    {
        if str_eq(layers[i].digest.as_str(), digest) {
            return i;
        }
        i += 1;
    }
    i
}

fn find_image_in(images: &Vec<ImageRecord>, reference: &str) -> (r: usize)
    ensures
        r == spec_find_image(image_views(images@), reference@, 0),
        r <= images@.len(),
{
    let ghost views = image_views(images@);
    let mut i: usize = 0;
    while i < images.len()
        invariant
            i <= images@.len(),
            views == image_views(images@),
            spec_find_image(views, reference@, i as int) == spec_find_image(views, reference@, 0),
        decreases images@.len() - i,
    {
        if str_eq(images[i].reference.as_str(), reference) {
            return i;
        }
        i += 1;
    }
    i
}

fn find_user_in(images: &Vec<ImageRecord>, digest: &str) -> (r: usize)
    ensures
        r == spec_find_user(image_views(images@), digest@, 0),
        r <= images@.len(),
{
    let ghost views = image_views(images@);
    let mut i: usize = 0;
    while i < images.len()
        invariant
            i <= images@.len(),
            views == image_views(images@),
            spec_find_user(views, digest@, i as int) == spec_find_user(views, digest@, 0),
        decreases images@.len() - i,
    {
        if in_list(images[i].layers.as_slice(), digest) {
            return i;
        }
        i += 1;
    }
    i
}

fn unknown_layer(layers: &Vec<LayerRecord>, digests: &[String]) -> (r: bool)
    ensures
        r == (spec_find_unknown(layer_views(layers@), strings_view(digests@), 0) < digests@.len()),
{
    let ghost views = strings_view(digests@);
    let ghost known = layer_views(layers@);
    let mut k: usize = 0;
    while k < digests.len()
        invariant
            k <= digests@.len(),
            views == strings_view(digests@),
            known == layer_views(layers@),
            spec_find_unknown(known, views, k as int) == spec_find_unknown(known, views, 0),
        decreases digests@.len() - k,
    {
        if find_layer_in(layers, digests[k].as_str()) >= layers.len() {
            return true;
        }
        k += 1;
    }
    false
}

fn take_image(images: &mut Vec<ImageRecord>, reference: &str)
    ensures
        image_views(final(images)@) == (if spec_find_image(image_views(old(images)@), reference@, 0)
            < old(images)@.len() {
            image_views(old(images)@).remove(spec_find_image(image_views(old(images)@), reference@, 0))
        } else {
            image_views(old(images)@)
        }),
{
    let at = find_image_in(images, reference);
    if at < images.len() {
        images.remove(at);
        assert(image_views(images@) =~= image_views(old(images)@).remove(at as int));
    }
}

fn place_image(images: &mut Vec<ImageRecord>, record: ImageRecord)
    ensures
        image_views(final(images)@) == image_views(old(images)@).insert(
            spec_image_pos(image_views(old(images)@), record.created, 0),
            record@,
        ),
{
    let ghost rest = image_views(images@);
    let ghost image = record@;
    let now = record.created;
    let mut pos: usize = 0;
    while pos < images.len() && images[pos].created > now
        invariant
            pos <= images@.len(),
            images@ == old(images)@,
            rest == image_views(images@),
            spec_image_pos(rest, now, pos as int) == spec_image_pos(rest, now, 0),
        decreases images@.len() - pos,
    {
        pos += 1;
    }
    proof {
        lemma_image_pos(rest, now, 0);
    }
    images.insert(pos, record);
    assert(image_views(images@) =~= rest.insert(pos as int, image));
}

/// The images are in order: no two have one reference, a newer one stands
/// before an older one, none has a layer twice, and every layer of an image
/// is among `layers`.
pub open spec fn spec_wf_images(images: Seq<ImageView>, layers: Seq<LayerView>) -> bool {
    &&& forall|i: int, j: int|
        0 <= i < j < images.len() ==> (#[trigger] images[i]).reference != (
        #[trigger] images[j]).reference
    &&& forall|i: int, j: int|
        0 <= i < j < images.len() ==> (#[trigger] images[i]).created >= (
        #[trigger] images[j]).created
    &&& forall|i: int, a: int, b: int|
        0 <= i < images.len() && 0 <= a < b < images[i].layers.len() ==> (
        #[trigger] images[i].layers[a]) != (#[trigger] images[i].layers[b])
    &&& forall|i: int, k: int|
        0 <= i < images.len() && 0 <= k < images[i].layers.len() ==> spec_find_layer(
            layers,
            #[trigger] images[i].layers[k],
            0,
        ) < layers.len()
}

/// Images that are in order stay in order when one of them leaves.
#[verifier::rlimit(40)]
pub proof fn lemma_images_without(images: Seq<ImageView>, layers: Seq<LayerView>, at: int)
    requires
        spec_wf_images(images, layers),
        0 <= at < images.len(),
    ensures
        spec_wf_images(images.remove(at), layers),
        forall|i: int|
            0 <= i < images.len() - 1 ==> (#[trigger] images.remove(at)[i]).reference
                != images[at].reference,
{
    let rest = images.remove(at);
    assert forall|i: int| 0 <= i < rest.len() implies (#[trigger] rest[i]).reference
        != images[at].reference by {
        let src = if i >= at { i + 1 } else { i };
        assert(rest[i] == images[src]);
        if src < at {
            assert(images[src].reference != images[at].reference);
        } else {
            assert(images[at].reference != images[src].reference);
        }
    }
    assert forall|i: int, j: int| 0 <= i < j < rest.len() implies (#[trigger] rest[i]).reference
        != (#[trigger] rest[j]).reference && rest[i].created >= rest[j].created by {
        let a = if i >= at { i + 1 } else { i };
        let b = if j >= at { j + 1 } else { j };
        assert(rest[i] == images[a] && rest[j] == images[b]);
    }
    assert forall|i: int, a: int, b: int|
        0 <= i < rest.len() && 0 <= a < b < rest[i].layers.len() implies (
    #[trigger] rest[i].layers[a]) != (#[trigger] rest[i].layers[b]) by {
        let src = if i >= at { i + 1 } else { i };
        assert(rest[i] == images[src]);
    }
    assert forall|i: int, k: int|
        0 <= i < rest.len() && 0 <= k < rest[i].layers.len() implies spec_find_layer(
        layers,
        #[trigger] rest[i].layers[k],
        0,
    ) < layers.len() by {
        let src = if i >= at { i + 1 } else { i };
        assert(rest[i] == images[src]);
    }
}

/// Images that are in order stay in order when an image with a new
/// reference takes its place by age.
pub proof fn lemma_images_with(images: Seq<ImageView>, layers: Seq<LayerView>, image: ImageView)
    requires
        spec_wf_images(images, layers),
        forall|i: int| 0 <= i < images.len() ==> (#[trigger] images[i]).reference
            != image.reference,
        forall|a: int, b: int|
            0 <= a < b < image.layers.len() ==> (#[trigger] image.layers[a]) != (
            #[trigger] image.layers[b]),
        forall|k: int|
            0 <= k < image.layers.len() ==> spec_find_layer(layers, #[trigger] image.layers[k], 0)
                < layers.len(),
    ensures
        spec_wf_images(images.insert(spec_image_pos(images, image.created, 0), image), layers),
{
    let pos = spec_image_pos(images, image.created, 0);
    lemma_image_pos(images, image.created, 0);
    let next = images.insert(pos, image);
    assert forall|i: int, j: int| 0 <= i < j < next.len() implies (#[trigger] next[i]).reference
        != (#[trigger] next[j]).reference && next[i].created >= next[j].created by {
        let a = if i < pos { i } else { i - 1 };
        let b = if j < pos { j } else { j - 1 };
        if i != pos && j != pos {
            assert(next[i] == images[a] && next[j] == images[b]);
        } else if i == pos {
            assert(next[j] == images[b]);
            if pos < images.len() {
                assert(images[pos].created <= image.created);
            }
        } else {
            assert(next[i] == images[a]);
        }
    }
    assert forall|i: int, a: int, b: int|
        0 <= i < next.len() && 0 <= a < b < next[i].layers.len() implies (
    #[trigger] next[i].layers[a]) != (#[trigger] next[i].layers[b]) by {
        if i != pos {
            let r = if i < pos { i } else { i - 1 };
            assert(next[i] == images[r]);
        }
    }
    assert forall|i: int, k: int|
        0 <= i < next.len() && 0 <= k < next[i].layers.len() implies spec_find_layer(
        layers,
        #[trigger] next[i].layers[k],
        0,
    ) < layers.len() by {
        if i != pos {
            let r = if i < pos { i } else { i - 1 };
            assert(next[i] == images[r]);
        }
    }
}

/// The store stays in order when the record of an image is written whose
/// layers are all in the index, none twice.
#[verifier::rlimit(40)]
pub proof fn lemma_upsert_wf(v: StoreView, image: ImageView)
    requires
        spec_wf_store(v),
        forall|a: int, b: int|
            0 <= a < b < image.layers.len() ==> (#[trigger] image.layers[a]) != (
            #[trigger] image.layers[b]),
        forall|k: int|
            0 <= k < image.layers.len() ==> spec_find_layer(v.layers, #[trigger] image.layers[k], 0)
                < v.layers.len(),
    ensures
        spec_wf_store(StoreView { images: spec_upsert(v.images, image), ..v }),
{
    let before = v.images;
    assert(spec_wf_images(before, v.layers));
    let at = spec_find_image(before, image.reference, 0);
    lemma_find_image(before, image.reference, 0);
    let rest = if at < before.len() {
        before.remove(at)
    } else {
        before
    };
    if at < before.len() {
        lemma_images_without(before, v.layers, at);
    }
    assert(spec_wf_images(rest, v.layers));
    assert(forall|i: int| 0 <= i < rest.len() ==> (#[trigger] rest[i]).reference
        != image.reference);
    lemma_images_with(rest, v.layers, image);
    assert(spec_wf_images(spec_upsert(before, image), v.layers));
}

fn release(layers: &Vec<LayerRecord>, digests: &[String]) -> (r: Vec<LayerRecord>)
    requires
        forall|i: int| 0 <= i < layers@.len() ==> (#[trigger] layers@[i]).ref_count >= 1,
    ensures
        layer_views(r@) == spec_release(layer_views(layers@), strings_view(digests@)),
{
    let ghost target = spec_release(layer_views(layers@), strings_view(digests@));
    let mut out: Vec<LayerRecord> = Vec::new();
    let mut i: usize = 0;
    while i < layers.len()
        invariant
            i <= layers@.len(),
            out@.len() == i,
            target == spec_release(layer_views(layers@), strings_view(digests@)),
            forall|k: int| 0 <= k < layers@.len() ==> (#[trigger] layers@[k]).ref_count >= 1,
            forall|k: int| 0 <= k < i ==> (#[trigger] out@[k])@ == target[k],
        decreases layers@.len() - i,
    {
        let mut record = layers[i].copy();
        if in_list(digests, record.digest.as_str()) {
            record.ref_count = record.ref_count - 1;
        }
        out.push(record);
        i += 1;
    }
    assert(layer_views(out@) =~= target);
    out
}

fn without_image(images: &Vec<ImageRecord>, at: usize) -> (r: Vec<ImageRecord>)
    requires
        at < images@.len(),
    ensures
        image_views(r@) == image_views(images@).remove(at as int),
{
    let ghost target = image_views(images@).remove(at as int);
    let mut out: Vec<ImageRecord> = Vec::new();
    let mut i: usize = 0;
    while i < images.len()
        invariant
            i <= images@.len(),
            at < images@.len(),
            out@.len() == (if i <= at { i as int } else { i - 1 }),
            target == image_views(images@).remove(at as int),
            forall|k: int| 0 <= k < out@.len() ==> (#[trigger] out@[k])@ == target[k],
        decreases images@.len() - i,
    {
        if i != at {
            out.push(images[i].copy());
        }
        i += 1;
    }
    assert(image_views(out@) =~= target);
    out
}

fn blocked(released: &Vec<LayerRecord>, rest: &Vec<ImageRecord>) -> (r: bool)
    ensures
        r == (spec_find_blocked(layer_views(released@), image_views(rest@), 0) < released@.len()),
{
    let ghost layers = layer_views(released@);
    let ghost images = image_views(rest@);
    let mut i: usize = 0;
    while i < released.len()
        invariant
            i <= released@.len(),
            layers == layer_views(released@),
            images == image_views(rest@),
            spec_find_blocked(layers, images, i as int) == spec_find_blocked(layers, images, 0),
        decreases released@.len() - i,
    {
        if released[i].ref_count == 0 && find_user_in(rest, released[i].digest.as_str())
            < rest.len() {
            return true;
        }
        i += 1;
    }
    false
}

#[verifier::rlimit(40)]
fn sweep(released: &Vec<LayerRecord>, root: &str) -> (r: (Vec<LayerRecord>, Vec<String>))
    ensures
        layer_views(r.0@) == spec_live(layer_views(released@)),
        strings_view(r.1@) == spec_blob_paths(root@, spec_orphans(layer_views(released@))),
{
    let ghost layers = layer_views(released@);
    let mut live: Vec<LayerRecord> = Vec::new();
    let mut unlink: Vec<String> = Vec::new();
    let mut i: usize = 0;
    assert(layers.take(0) =~= Seq::<LayerView>::empty());
    assert(layer_views(live@) =~= spec_live(layers.take(0)));
    assert(strings_view(unlink@) =~= spec_blob_paths(root@, spec_orphans(layers.take(0))));
    while i < released.len()
        invariant
            i <= released@.len(),
            layers == layer_views(released@),
            layer_views(live@) == spec_live(layers.take(i as int)),
            strings_view(unlink@) == spec_blob_paths(root@, spec_orphans(layers.take(i as int))),
        decreases released@.len() - i,
    {
        assert(layers.take(i + 1).drop_last() =~= layers.take(i as int));
        assert(layers.take(i + 1).last() == released@[i as int]@);
        let ghost live_before = layer_views(live@);
        let ghost unlink_before = strings_view(unlink@);
        if released[i].ref_count > 0 {
            live.push(released[i].copy());
            assert(layer_views(live@) =~= live_before.push(released@[i as int]@));
        } else {
            unlink.push(store_path(root, "blobs", released[i].digest.as_str()));
            proof {
                let gone = spec_orphans(layers.take(i as int));
                let gone_next = spec_orphans(layers.take(i + 1));
                assert(gone_next == gone.push(released@[i as int]@.digest));
                assert(strings_view(unlink@) =~= unlink_before.push(
                    spec_store_path(root@, "blobs"@, released@[i as int]@.digest),
                ));
                assert(unlink_before.push(
                    spec_store_path(root@, "blobs"@, released@[i as int]@.digest),
                ) =~= spec_blob_paths(root@, gone_next));
            }
        }
        i += 1;
    }
    assert(layers.take(layers.len() as int) =~= layers);
    (live, unlink)
}

/// The store after the image at `at` left it: each of its layers gave up one
/// from its count, and the layers without count are gone.
pub open spec fn spec_without_image(v: StoreView, at: int) -> StoreView {
    StoreView {
        root: v.root,
        layers: spec_live(spec_release(v.layers, v.images[at].layers)),
        images: v.images.remove(at),
    }
}

/// The store stays in order when an image leaves it, unless a layer without
/// count is still a layer of another image.
#[verifier::rlimit(40)]
pub proof fn lemma_remove_wf(v: StoreView, at: int)
    requires
        spec_wf_store(v),
        0 <= at < v.images.len(),
        spec_find_blocked(spec_release(v.layers, v.images[at].layers), v.images.remove(at), 0)
            >= v.layers.len(),
    ensures
        spec_wf_store(spec_without_image(v, at)),
{
    let released = spec_release(v.layers, v.images[at].layers);
    let rest = v.images.remove(at);
    let live = spec_live(released);
    assert(spec_distinct_layers(released)) by {
        assert forall|i: int, j: int| 0 <= i < j < released.len() implies (
        #[trigger] released[i]).digest != (#[trigger] released[j]).digest by {
            assert(released[i].digest == v.layers[i].digest);
            assert(released[j].digest == v.layers[j].digest);
        }
    }
    lemma_live(released);
    lemma_find_blocked(released, rest, 0);
    assert(spec_wf_images(v.images, v.layers));
    lemma_images_without(v.images, v.layers, at);
    assert forall|i: int, k: int|
        0 <= i < rest.len() && 0 <= k < rest[i].layers.len() implies spec_find_layer(
        live,
        #[trigger] rest[i].layers[k],
        0,
    ) < live.len() by {
        let x = rest[i].layers[k];
        let pos = spec_find_layer(v.layers, x, 0);
        assert(pos < v.layers.len());
        lemma_find_layer(v.layers, x, 0);
        assert(released[pos].digest == x);
        // The image `i` still has the layer, so the layer is not without
        // count, or the removal would be blocked.
        lemma_find_user(rest, x, 0);
        lemma_find_str(rest[i].layers, x, 0);
        assert(spec_in_list(rest[i].layers, x));
        assert(spec_find_user(rest, x, 0) < rest.len());
        assert(released[pos].ref_count > 0);
    }
    assert forall|i: int| 0 <= i < live.len() implies (#[trigger] live[i]).ref_count >= 1 by {}
}

/// Saving the same layer twice leaves one record of it, whose count the second
/// saving takes up by one; no other record changes.
#[verifier::rlimit(40)]
pub proof fn lemma_save_twice(
    layers: Seq<LayerView>,
    digest: Seq<char>,
    media_type: Seq<char>,
    size: u64,
)
    requires
        spec_distinct_layers(layers),
        forall|k: int| 0 <= k < layers.len() ==> (#[trigger] layers[k]).ref_count < u64::MAX - 1,
    ensures
        ({
            let once = spec_save_layer(layers, digest, media_type, size);
            let twice = spec_save_layer(once, digest, media_type, size);
            let at = spec_find_layer(once, digest, 0);
            &&& at < once.len()
            &&& twice.len() == once.len()
            &&& spec_find_layer(twice, digest, 0) == at
            &&& twice[at].ref_count == once[at].ref_count + 1
            &&& forall|k: int| 0 <= k < once.len() && k != at ==> #[trigger] twice[k] == once[k]
        }),
{
    let once = spec_save_layer(layers, digest, media_type, size);
    lemma_find_layer(layers, digest, 0);
    lemma_find_layer(once, digest, 0);
    let first = spec_find_layer(layers, digest, 0);
    if first < layers.len() {
        lemma_find_layer_stable(layers, once, digest, 0);
    } else {
        assert(once[once.len() - 1].digest == digest);
    }
    let at = spec_find_layer(once, digest, 0);
    let twice = spec_save_layer(once, digest, media_type, size);
    lemma_find_layer_stable(once, twice, digest, 0);
}

/// When an image leaves the store, each of its layers gives up exactly one
/// from its count and every other layer keeps its count; a layer is gone
/// exactly if its count reached zero.
#[verifier::rlimit(40)]
pub proof fn lemma_remove_counts(v: StoreView, at: int)
    requires
        spec_wf_store(v),
        0 <= at < v.images.len(),
    ensures
        forall|k: int|
            0 <= k < v.layers.len() ==> ({
                let layer = #[trigger] v.layers[k];
                let after = spec_without_image(v, at).layers;
                let found = spec_find_layer(after, layer.digest, 0);
                let used = spec_in_list(v.images[at].layers, layer.digest);
                if used && layer.ref_count == 1 {
                    found == after.len()
                } else if used {
                    found < after.len() && after[found] == (LayerView {
                        ref_count: (layer.ref_count - 1) as u64,
                        ..layer
                    })
                } else {
                    found < after.len() && after[found] == layer
                }
            }),
{
    let released = spec_release(v.layers, v.images[at].layers);
    assert(spec_distinct_layers(released)) by {
        assert forall|i: int, j: int| 0 <= i < j < released.len() implies (
        #[trigger] released[i]).digest != (#[trigger] released[j]).digest by {
            assert(released[i].digest == v.layers[i].digest);
            assert(released[j].digest == v.layers[j].digest);
        }
    }
    lemma_live(released);
    assert forall|k: int| 0 <= k < v.layers.len() implies ({
        let layer = #[trigger] v.layers[k];
        let after = spec_without_image(v, at).layers;
        let found = spec_find_layer(after, layer.digest, 0);
        let used = spec_in_list(v.images[at].layers, layer.digest);
        if used && layer.ref_count == 1 {
            found == after.len()
        } else if used {
            found < after.len() && after[found] == (LayerView {
                ref_count: (layer.ref_count - 1) as u64,
                ..layer
            })
        } else {
            found < after.len() && after[found] == layer
        }
    }) by {
        assert(released[k].digest == v.layers[k].digest);
        assert(v.layers[k].ref_count >= 1);
    }
}

impl Store {
    /// What holds of the store at all times.
    pub open spec fn wf(&self) -> bool {
        spec_wf_store(self@)
    }

    /// An empty store at `root`.
    pub fn new(root: &str) -> (r: Self)
        ensures
            r.wf(),
            r@ == (StoreView { root: root@, layers: Seq::empty(), images: Seq::empty() }),
    {
        let r = Store { root: String::from_str(root), layers: Vec::new(), images: Vec::new() };
        assert(r@.layers =~= Seq::empty());
        assert(r@.images =~= Seq::empty());
        r
    }

    /// File of the layer `digest`: `blobs/{digest}` under the root, the `:` of
    /// the digest written as `-`.
    pub fn layer_path(&self, digest: &str) -> (r: String)
        ensures
            r@ == spec_store_path(self@.root, "blobs"@, digest@),
    {
        store_path(self.root.as_str(), "blobs", digest)
    }

    /// File of the configuration `digest`: `configs/{digest}` under the root.
    pub fn config_path(&self, digest: &str) -> (r: String)
        ensures
            r@ == spec_store_path(self@.root, "configs"@, digest@),
    {
        store_path(self.root.as_str(), "configs", digest)
    }

    /// Directory of the root filesystem that was unpacked from the manifest
    /// `manifest_digest`: `rootfs/{digest}` under the root.
    pub fn rootfs_path(&self, manifest_digest: &str) -> (r: String)
        ensures
            r@ == spec_store_path(self@.root, "rootfs"@, manifest_digest@),
    {
        store_path(self.root.as_str(), "rootfs", manifest_digest)
    }

    /// Saves a layer: names it by its content and counts it once more in the
    /// index. The caller writes the bytes to the returned path unless the
    /// file is there.
    #[verifier::rlimit(40)]
    pub fn save_layer(&mut self, data: &[u8], media_type: &str) -> (r: Result<SavedBlob, Error>)
        requires
            old(self).wf(),
        ensures
            final(self).wf(),
            ({
                let digest = spec_content_digest(data@);
                let at = spec_find_layer(old(self)@.layers, digest, 0);
                if at < old(self)@.layers.len() && old(self)@.layers[at].ref_count == u64::MAX {
                    &&& r is Err
                    &&& r->Err_0@ == ErrorView::Db("reference count overflow"@)
                    &&& final(self)@ == old(self)@
                } else {
                    &&& r is Ok
                    &&& r->Ok_0.digest@ == digest
                    &&& r->Ok_0.path@ == spec_store_path(old(self)@.root, "blobs"@, digest)
                    &&& final(self)@ == (StoreView {
                        layers: spec_save_layer(
                            old(self)@.layers,
                            digest,
                            media_type@,
                            data@.len() as u64,
                        ),
                        ..old(self)@
                    })
                }
            }),
    {
        let digest = content_digest(data);
        let path = self.layer_path(digest.as_str());
        let at = find_layer_in(&self.layers, digest.as_str());
        let ghost before = old(self)@.layers;
        proof {
            lemma_find_layer(before, digest@, 0);
        }
        if at < self.layers.len() {
            if self.layers[at].ref_count == u64::MAX {
                return Err(Error::Db(String::from_str("reference count overflow")));
            }
            let mut record = self.layers[at].copy();
            record.ref_count = record.ref_count + 1;
            self.layers.set(at, record);
        } else {
            self.layers.push(
                LayerRecord {
                    digest: digest.clone(),
                    media_type: String::from_str(media_type),
                    size: data.len() as u64,
                    ref_count: 1,
                },
            );
        }
        proof {
            let after = spec_save_layer(before, digest@, media_type@, data@.len() as u64);
            assert(self@.layers =~= after);
            assert(self@.images == old(self)@.images);
            assert forall|i: int, k: int|
                0 <= i < self@.images.len() && 0 <= k < self@.images[i].layers.len() implies spec_find_layer(
                after,
                #[trigger] self@.images[i].layers[k],
                0,
            ) < after.len() by {
                lemma_find_layer_stable(before, after, self@.images[i].layers[k], 0);
            }
        }
        Ok(SavedBlob { digest, path })
    }

    /// Saves a configuration: names it by its content. The caller writes the
    /// bytes to the returned path unless the file is there. The index does not
    /// change.
    pub fn save_config(&self, data: &[u8]) -> (r: Result<SavedBlob, Error>)
        ensures
            r is Ok,
            r->Ok_0.digest@ == spec_content_digest(data@),
            r->Ok_0.path@ == spec_store_path(self@.root, "configs"@, spec_content_digest(data@)),
    {
        let digest = content_digest(data);
        let path = self.config_path(digest.as_str());
        Ok(SavedBlob { digest, path })
    }

    /// Writes the record of an image, in place of an earlier one of the same
    /// reference, with its layers in order and none twice. An image with a
    /// layer that is not in the index is refused.
    pub fn upsert_image(
        &mut self,
        reference: &str,
        digest: &str,
        size: u64,
        config: Option<&str>,
        layer_digests: &[String],
        now: u64,
    ) -> (r: Result<(), Error>)
        requires
            old(self).wf(),
        ensures
            final(self).wf(),
            ({
                let digests = strings_view(layer_digests@);
                if spec_find_unknown(old(self)@.layers, digests, 0) < digests.len() {
                    &&& r is Err
                    &&& r->Err_0@ == ErrorView::Db("FOREIGN KEY constraint failed"@)
                    &&& final(self)@ == old(self)@
                } else {
                    &&& r is Ok
                    &&& final(self)@ == (StoreView {
                        images: spec_upsert(
                            old(self)@.images,
                            ImageView {
                                reference: reference@,
                                digest: digest@,
                                size,
                                config: crate::sys::opt_str_view(config),
                                created: now,
                                layers: spec_dedup(digests),
                            },
                        ),
                        ..old(self)@
                    })
                }
            }),
    {
        if unknown_layer(&self.layers, layer_digests) {
            return Err(Error::Db(String::from_str("FOREIGN KEY constraint failed")));
        }
        let record = ImageRecord {
            reference: String::from_str(reference),
            digest: String::from_str(digest),
            size,
            config: match config {
                Some(c) => Some(String::from_str(c)),
                None => None,
            },
            created: now,
            layers: dedup(layer_digests),
        };
        proof {
            let digests = strings_view(layer_digests@);
            lemma_dedup(digests);
            lemma_find_unknown(old(self)@.layers, digests, 0);
            assert forall|k: int| 0 <= k < record@.layers.len() implies spec_find_layer(
                old(self)@.layers,
                #[trigger] record@.layers[k],
                0,
            ) < old(self)@.layers.len() by {
                let x = record@.layers[k];
                assert(spec_in_list(digests, x));
                lemma_find_str(digests, x, 0);
                let src = spec_find_str(digests, x, 0);
                assert(digests[src] == x);
            }
            lemma_upsert_wf(old(self)@, record@);
        }
        take_image(&mut self.images, reference);
        place_image(&mut self.images, record);
        Ok(())
    }

    /// All images, newest first.
    pub fn list_images(&self) -> (r: Result<Vec<ImageMeta>, Error>)
        ensures
            r is Ok,
            meta_views(r->Ok_0@) == spec_metas(self@.images),
    {
        let mut out: Vec<ImageMeta> = Vec::new();
        let mut i: usize = 0;
        while i < self.images.len()
            invariant
                i <= self.images@.len(),
                out@.len() == i,
                forall|k: int|
                    0 <= k < i ==> (#[trigger] out@[k]).reference@ == self.images@[k].reference@
                        && out@[k].digest@ == self.images@[k].digest@ && out@[k].size
                        == self.images@[k].size,
            decreases self.images@.len() - i,
        {
            out.push(
                ImageMeta {
                    reference: self.images[i].reference.clone(),
                    digest: self.images[i].digest.clone(),
                    size: self.images[i].size,
                },
            );
            i += 1;
        }
        assert(meta_views(out@) =~= spec_metas(self@.images));
        Ok(out)
    }

    /// The digest of the manifest of the image `reference`, if the image is in
    /// the index.
    pub fn get_digest(&self, reference: &str) -> (r: Result<Option<String>, Error>)
        ensures
            r is Ok,
            ({
                let at = spec_find_image(self@.images, reference@, 0);
                if at < self@.images.len() {
                    r->Ok_0 is Some && r->Ok_0->Some_0@ == self@.images[at].digest
                } else {
                    r->Ok_0 is None
                }
            }),
    {
        let at = find_image_in(&self.images, reference);
        if at < self.images.len() {
            Ok(Some(self.images[at].digest.clone()))
        } else {
            Ok(None)
        }
    }

    /// The stored configuration of the image `reference`, if the image is in
    /// the index. An image without a stored configuration is an error.
    pub fn load_image_config(&self, reference: &str) -> (r: Result<Option<String>, Error>)
        ensures
            ({
                let at = spec_find_image(self@.images, reference@, 0);
                if at >= self@.images.len() {
                    r is Ok && r->Ok_0 is None
                } else if self@.images[at].config is Some {
                    r is Ok && r->Ok_0 is Some && r->Ok_0->Some_0@
                        == self@.images[at].config->Some_0
                } else {
                    r is Err && r->Err_0@ == ErrorView::Db("image has no stored configuration"@)
                }
            }),
    {
        let at = find_image_in(&self.images, reference);
        if at < self.images.len() {
            match &self.images[at].config {
                Some(json) => Ok(Some(json.clone())),
                None => Err(Error::Db(String::from_str("image has no stored configuration"))),
            }
        } else {
            Ok(None)
        }
    }

    /// Removes the image `reference` from the index. Each of its layers gives
    /// up one from its count, and the layers whose count reaches zero leave the
    /// index; the caller unlinks their files and removes the directory of the
    /// root filesystem. Where a layer without count is still a layer of another
    /// image, the removal is refused and nothing changes. An image that is not
    /// in the index is no error.
    #[verifier::rlimit(40)]
    pub fn remove_image(&mut self, reference: &str) -> (r: Result<Removal, Error>)
        requires
            old(self).wf(),
        ensures
            final(self).wf(),
            ({
                let v = old(self)@;
                let at = spec_find_image(v.images, reference@, 0);
                if at >= v.images.len() {
                    &&& r is Ok
                    &&& r->Ok_0.unlink@.len() == 0
                    &&& r->Ok_0.rootfs is None
                    &&& final(self)@ == v
                } else if spec_find_blocked(
                    spec_release(v.layers, v.images[at].layers),
                    v.images.remove(at),
                    0,
                ) < v.layers.len() {
                    &&& r is Err
                    &&& r->Err_0@ == ErrorView::Db("FOREIGN KEY constraint failed"@)
                    &&& final(self)@ == v
                } else {
                    &&& r is Ok
                    &&& strings_view(r->Ok_0.unlink@) == spec_blob_paths(
                        v.root,
                        spec_orphans(spec_release(v.layers, v.images[at].layers)),
                    )
                    &&& opt_string_view(r->Ok_0.rootfs) == Some(
                        spec_store_path(v.root, "rootfs"@, v.images[at].digest),
                    )
                    &&& final(self)@ == spec_without_image(v, at)
                }
            }),
    {
        let at = find_image_in(&self.images, reference);
        if at >= self.images.len() {
            return Ok(Removal { unlink: Vec::new(), rootfs: None });
        }
        proof {
            assert forall|i: int| 0 <= i < self.layers@.len() implies (
            #[trigger] self.layers@[i]).ref_count >= 1 by {
                assert(self@.layers[i].ref_count >= 1);
            }
        }
        let released = release(&self.layers, self.images[at].layers.as_slice());
        let rest = without_image(&self.images, at);
        if blocked(&released, &rest) {
            return Err(Error::Db(String::from_str("FOREIGN KEY constraint failed")));
        }
        proof {
            lemma_remove_wf(old(self)@, at as int);
        }
        let rootfs = self.rootfs_path(self.images[at].digest.as_str());
        let (live, unlink) = sweep(&released, self.root.as_str());
        self.layers = live;
        self.images = rest;
        Ok(Removal { unlink, rootfs: Some(rootfs) })
    }

    /// Brings a layer record back into an empty place of the index, with the
    /// count it had. A layer that is there already, or a count of zero, is
    /// refused.
    pub fn restore_layer(&mut self, digest: &str, media_type: &str, size: u64, ref_count: u64) -> (r:
        Result<(), Error>)
        requires
            old(self).wf(),
        ensures
            final(self).wf(),
            ({
                let v = old(self)@;
                if ref_count == 0 || spec_find_layer(v.layers, digest@, 0) < v.layers.len() {
                    &&& r is Err
                    &&& r->Err_0@ == ErrorView::Db("layer record refused"@)
                    &&& final(self)@ == v
                } else {
                    &&& r is Ok
                    &&& final(self)@ == (StoreView {
                        layers: v.layers.push(
                            LayerView { digest: digest@, media_type: media_type@, size, ref_count },
                        ),
                        ..v
                    })
                }
            }),
    {
        if ref_count == 0 || find_layer_in(&self.layers, digest) < self.layers.len() {
            return Err(Error::Db(String::from_str("layer record refused")));
        }
        let ghost before = old(self)@.layers;
        proof {
            lemma_find_layer(before, digest@, 0);
        }
        self.layers.push(
            LayerRecord {
                digest: String::from_str(digest),
                media_type: String::from_str(media_type),
                size,
                ref_count,
            },
        );
        proof {
            let after = before.push(
                LayerView { digest: digest@, media_type: media_type@, size, ref_count },
            );
            assert(self@.layers =~= after);
            assert(self@.images == old(self)@.images);
            assert forall|i: int, k: int|
                0 <= i < self@.images.len() && 0 <= k < self@.images[i].layers.len() implies spec_find_layer(
                after,
                #[trigger] self@.images[i].layers[k],
                0,
            ) < after.len() by {
                lemma_find_layer_stable(before, after, self@.images[i].layers[k], 0);
            }
        }
        Ok(())
    }

    /// The layer records, in the order in which the layers were first saved.
    pub fn layers(&self) -> (r: Vec<LayerRecord>)
        ensures
            layer_views(r@) == self@.layers,
    {
        let mut out: Vec<LayerRecord> = Vec::new();
        let mut i: usize = 0;
        while i < self.layers.len()
            invariant
                i <= self.layers@.len(),
                out@.len() == i,
                forall|k: int| 0 <= k < i ==> (#[trigger] out@[k])@ == self.layers@[k]@,
            decreases self.layers@.len() - i,
        {
            out.push(self.layers[i].copy());
            i += 1;
        }
        assert(layer_views(out@) =~= self@.layers);
        out
    }

    /// The image records, newest first.
    pub fn images(&self) -> (r: Vec<ImageRecord>)
        ensures
            image_views(r@) == self@.images,
    {
        let mut out: Vec<ImageRecord> = Vec::new();
        let mut i: usize = 0;
        while i < self.images.len()
            invariant
                i <= self.images@.len(),
                out@.len() == i,
                forall|k: int| 0 <= k < i ==> (#[trigger] out@[k])@ == self.images@[k]@,
            decreases self.images@.len() - i,
        {
            out.push(self.images[i].copy());
            i += 1;
        }
        assert(image_views(out@) =~= self@.images);
        out
    }

    /// The root directory of the store.
    pub fn root(&self) -> (r: &str)
        ensures
            r@ == self@.root,
    {
        self.root.as_str()
    }
}

} // verus!
