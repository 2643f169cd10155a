//! Container images: references, the layout and index of the local store, and
//! how layers are laid over each other.

pub mod config;
pub mod extract;
pub mod reference;
pub mod registry;
pub mod store;

pub use config::ImageConfig;
pub use reference::{Identifier, Reference};
pub use store::{ImageMeta, Store};

use vstd::prelude::*;
use vstd::string::*;

verus! {

/// What can go wrong with an image.
#[derive(Debug, Clone)]
pub enum Error {
    /// The reference cannot be parsed.
    InvalidReference(String),
    /// The index of the store failed.
    Db(String),
    /// The registry failed.
    Registry(String),
    /// A file operation failed.
    Io(String),
}

/// An error as plain data.
pub enum ErrorView {
    /// The reference cannot be parsed.
    InvalidReference(Seq<char>),
    /// The index of the store failed.
    Db(Seq<char>),
    /// The registry failed.
    Registry(Seq<char>),
    /// A file operation failed.
    Io(Seq<char>),
}

impl View for Error {
    type V = ErrorView;

    open spec fn view(&self) -> ErrorView {
        match self {
            Error::InvalidReference(m) => ErrorView::InvalidReference(m@),
            Error::Db(m) => ErrorView::Db(m@),
            Error::Registry(m) => ErrorView::Registry(m@),
            Error::Io(m) => ErrorView::Io(m@),
        }
    }
}

/// A layer as it came from the registry.
#[derive(Debug, Clone)]
pub struct FetchedLayer {
    /// The bytes of the layer.
    pub data: Vec<u8>,
    /// Its media type, which may be empty.
    pub media_type: String,
}

/// An image as it came from the registry.
#[derive(Debug, Clone)]
pub struct FetchedImage {
    /// Digest of the manifest, if the registry named it.
    pub digest: Option<String>,
    /// The layers, lowest first.
    pub layers: Vec<FetchedLayer>,
    /// The bytes of the configuration.
    pub config: Vec<u8>,
    /// The configuration as text, if it is text.
    pub config_json: Option<String>,
}

/// What a pull yields.
#[derive(Debug, Clone)]
pub struct PullResult {
    /// Canonical reference of the image.
    pub reference: String,
    /// Digest of its manifest.
    pub digest: String,
    /// Directory of its root filesystem.
    pub rootfs: String,
    /// Its configuration as JSON, if it is stored.
    pub config: Option<String>,
}

/// What is to be done on disk for a pull, and what the pull yields.
#[derive(Debug, Clone)]
pub struct PullPlan {
    /// What the pull yields.
    pub result: PullResult,
    /// Where each layer belongs, in the order of the layers. The caller writes
    /// a layer unless its file is there.
    pub blobs: Vec<store::SavedBlob>,
    /// Where the configuration belongs.
    pub config_blob: store::SavedBlob,
    /// Whether the root filesystem is to be unpacked from the layers.
    pub extract: bool,
}

/// Digest, media type and size under which a fetched layer is kept.
pub open spec fn spec_layer_entry(layer: FetchedLayer) -> (Seq<char>, Seq<char>, u64) {
    (
        store::spec_content_digest(layer.data@),
        if layer.media_type@.len() == 0 {
            extract::OCI_LAYER_GZIP@
        } else {
            layer.media_type@
        },
        layer.data@.len() as u64,
    )
}

/// The index of the layers after the fetched layers were saved in order, or
/// nothing where a count would overflow.
pub open spec fn spec_save_all(index: Seq<store::LayerView>, layers: Seq<FetchedLayer>) -> Option<
    Seq<store::LayerView>,
>
    decreases layers.len(),
{
    if layers.len() == 0 {
        Some(index)
    } else {
        match spec_save_all(index, layers.drop_last()) {
            None => None,
            Some(before) => {
                let (digest, media_type, size) = spec_layer_entry(layers.last());
                let at = store::spec_find_layer(before, digest, 0);
                if at < before.len() && before[at].ref_count == u64::MAX {
                    None
                } else {
                    Some(store::spec_save_layer(before, digest, media_type, size))
                }
            },
        }
    }
}

/// The digests of the fetched layers, in order.
pub open spec fn spec_layer_digests(layers: Seq<FetchedLayer>) -> Seq<Seq<char>> {
    Seq::new(layers.len(), |i: int| store::spec_content_digest(layers[i].data@))
}

/// The size of the fetched layers together; it stops at the largest `u64`.
pub open spec fn spec_total_size(layers: Seq<FetchedLayer>) -> u64
    decreases layers.len(),
{
    if layers.len() == 0 {
        0
    } else {
        let sum = spec_total_size(layers.drop_last()) + layers.last().data@.len();
        if sum > u64::MAX {
            u64::MAX
        } else {
            sum as u64
        }
    }
}

/// The images and their layers on this host.
#[derive(Debug)]
pub struct Oci {
    /// The store.
    pub store: Store,
}

impl Oci {
    /// The manager of the store at `store_dir`, with an empty index. It touches
    /// no file: the caller creates the directories and brings the index in.
    pub fn open_at(store_dir: &str) -> (r: Self)
        ensures
            r.store.wf(),
            r.store@ == (store::StoreView {
                root: store_dir@,
                layers: Seq::empty(),
                images: Seq::empty(),
            }),
    {
        Oci { store: Store::new(store_dir) }
    }

    /// All images, newest first.
    pub fn images(&self) -> (r: Result<Vec<ImageMeta>, Error>)
        ensures
            r is Ok,
            store::meta_views(r->Ok_0@) == store::spec_metas(self.store@.images),
    {
        self.store.list_images()
    }

    /// Removes the image that `image` names from the index, and says what is
    /// to go from the disk.
    pub fn remove(&mut self, image: &str) -> (r: Result<store::Removal, Error>)
        requires
            old(self).store.wf(),
        ensures
            final(self).store.wf(),
            match reference::spec_parse(image@) {
                Err(e) => r is Err && r->Err_0@ == e && final(self).store@ == old(self).store@,
                Ok(parsed) => {
                    let v = old(self).store@;
                    let at = store::spec_find_image(v.images, parsed.canonical(), 0);
                    if at >= v.images.len() {
                        r is Ok && final(self).store@ == v
                    } else if store::spec_find_blocked(
                        store::spec_release(v.layers, v.images[at].layers),
                        v.images.remove(at),
                        0,
                    ) < v.layers.len() {
                        r is Err && final(self).store@ == v
                    } else {
                        r is Ok && final(self).store@ == store::spec_without_image(v, at)
                    }
                },
            },
    {
        let parsed = match Reference::parse(image) {
            Ok(p) => p,
            Err(e) => {
                return Err(e);
            },
        };
        let canonical = parsed.to_string();
        self.store.remove_image(canonical.as_str())
    }

    /// The cached image that `image` names: its digest and the directory of
    /// its root filesystem, if the index knows the image. Whether the
    /// directory is there is for the caller to see.
    pub fn ensure(&self, image: &str) -> (r: Result<Option<PullResult>, Error>)
        ensures
            match reference::spec_parse(image@) {
                Err(e) => r is Err && r->Err_0@ == e,
                Ok(parsed) => {
                    let v = self.store@;
                    let at = store::spec_find_image(v.images, parsed.canonical(), 0);
                    if at >= v.images.len() {
                        r is Ok && r->Ok_0 is None
                    } else {
                        &&& r is Ok
                        &&& r->Ok_0 matches Some(found)
                        &&& found.reference@ == parsed.canonical()
                        &&& found.digest@ == v.images[at].digest
                        &&& found.rootfs@ == store::spec_store_path(
                            v.root,
                            "rootfs"@,
                            v.images[at].digest,
                        )
                        &&& crate::text::opt_string_view(found.config) == v.images[at].config
                    }
                },
            },
    {
        let parsed = match Reference::parse(image) {
            Ok(p) => p,
            Err(e) => {
                return Err(e);
            },
        };
        let canonical = parsed.to_string();
        let digest = match self.store.get_digest(canonical.as_str()) {
            Ok(Some(d)) => d,
            _ => {
                return Ok(None);
            },
        };
        let rootfs = self.store.rootfs_path(digest.as_str());
        let config = match self.store.load_image_config(canonical.as_str()) {
            Ok(c) => c,
            Err(_) => None,
        };
        Ok(Some(PullResult { reference: canonical, digest, rootfs, config }))
    }

    /// Takes an image that was fetched into the store: each layer is saved in
    /// order, the configuration is named, and the record of the image is
    /// written. `rootfs_is_dir` says whether the directory of the root
    /// filesystem is there already; if not, it is to be unpacked.
    #[verifier::rlimit(40)]
    pub fn pull(&mut self, image: &str, fetched: &FetchedImage, rootfs_is_dir: bool, now: u64) -> (r:
        Result<PullPlan, Error>)
        requires
            old(self).store.wf(),
        ensures
            final(self).store.wf(),
            final(self).store@.root == old(self).store@.root,
            match reference::spec_parse(image@) {
                Err(e) => r is Err && r->Err_0@ == e && final(self).store@ == old(self).store@,
                Ok(parsed) => match spec_save_all(old(self).store@.layers, fetched.layers@) {
                    None => r is Err && r->Err_0@ == ErrorView::Db("reference count overflow"@)
                        && final(self).store@.images == old(self).store@.images,
                    Some(saved) => {
                        let digest = crate::text::opt_string_view(fetched.digest).unwrap_or(
                            Seq::empty(),
                        );
                        &&& r is Ok
                        &&& r->Ok_0.result.reference@ == parsed.canonical()
                        &&& r->Ok_0.result.digest@ == digest
                        &&& r->Ok_0.result.rootfs@ == store::spec_store_path(
                            old(self).store@.root,
                            "rootfs"@,
                            digest,
                        )
                        &&& crate::text::opt_string_view(r->Ok_0.result.config)
                            == crate::text::opt_string_view(fetched.config_json)
                        &&& r->Ok_0.extract == !rootfs_is_dir
                        &&& r->Ok_0.config_blob.digest@ == store::spec_content_digest(
                            fetched.config@,
                        )
                        &&& r->Ok_0.blobs@.len() == fetched.layers@.len()
                        &&& forall|i: int|
                            0 <= i < fetched.layers@.len() ==> (#[trigger] r->Ok_0.blobs@[i]).digest@
                                == store::spec_content_digest(fetched.layers@[i].data@)
                                && r->Ok_0.blobs@[i].path@ == store::spec_store_path(
                                old(self).store@.root,
                                "blobs"@,
                                store::spec_content_digest(fetched.layers@[i].data@),
                            )
                        &&& final(self).store@.layers == saved
                        &&& final(self).store@.images == store::spec_upsert(
                            old(self).store@.images,
                            store::ImageView {
                                reference: parsed.canonical(),
                                digest,
                                size: spec_total_size(fetched.layers@),
                                config: crate::text::opt_string_view(fetched.config_json),
                                created: now,
                                layers: crate::text::spec_dedup(
                                    spec_layer_digests(fetched.layers@),
                                ),
                            },
                        )
                    },
                },
            },
    {
        let parsed = match Reference::parse(image) {
            Ok(p) => p,
            Err(e) => {
                return Err(e);
            },
        };
        let canonical = parsed.to_string();
        let manifest_digest = match &fetched.digest {
            Some(d) => d.clone(),
            None => String::new(),
        };
        let ghost start = old(self).store@;
        let mut blobs: Vec<store::SavedBlob> = Vec::new();
        let mut digests: Vec<String> = Vec::new();
        let mut total: u64 = 0;
        let mut i: usize = 0;
        assert(fetched.layers@.take(0) =~= Seq::<FetchedLayer>::empty());
        assert(crate::text::strings_view(digests@) =~= spec_layer_digests(
            fetched.layers@.take(0),
        ));
        while i < fetched.layers.len()
            invariant
                i <= fetched.layers@.len(),
                start == old(self).store@,
                reference::spec_parse(image@) is Ok,
                self.store.wf(),
                self.store@.root == start.root,
                self.store@.images == start.images,
                spec_save_all(start.layers, fetched.layers@.take(i as int)) == Some(
                    self.store@.layers,
                ),
                total == spec_total_size(fetched.layers@.take(i as int)),
                blobs@.len() == i,
                crate::text::strings_view(digests@) == spec_layer_digests(
                    fetched.layers@.take(i as int),
                ),
                forall|k: int|
                    0 <= k < i ==> (#[trigger] blobs@[k]).digest@ == store::spec_content_digest(
                        fetched.layers@[k].data@,
                    ) && blobs@[k].path@ == store::spec_store_path(
                        start.root,
                        "blobs"@,
                        store::spec_content_digest(fetched.layers@[k].data@),
                    ),
                forall|k: int|
                    0 <= k < i ==> store::spec_find_layer(
                        self.store@.layers,
                        #[trigger] spec_layer_digests(fetched.layers@)[k],
                        0,
                    ) < self.store@.layers.len(),
            decreases fetched.layers@.len() - i,
        {
            let layer = &fetched.layers[i];
            let ghost pre = self.store@;
            let ghost before = self.store@.layers;
            proof {
                assert(fetched.layers@.take(i + 1).drop_last() =~= fetched.layers@.take(i as int));
                assert(fetched.layers@.take(i + 1).last() == fetched.layers@[i as int]);
            }
            let media_type = extract::layer_media_type(layer.media_type.as_str());
            let blob = match self.store.save_layer(layer.data.as_slice(), media_type) {
                Ok(b) => b,
                Err(e) => {
                    proof {
                        let entry = spec_layer_entry(fetched.layers@[i as int]);
                        assert(media_type@ == entry.1);
                        let at = store::spec_find_layer(before, entry.0, 0);
                        store::lemma_find_layer(before, entry.0, 0);
                        assert(self.store@ == pre);
                        assert(at < before.len());
                        assert(before[at].ref_count == u64::MAX);
                        assert(spec_save_all(start.layers, fetched.layers@.take(i + 1)) is None);
                        lemma_save_all_fails(start.layers, fetched.layers@, i as int);
                    }
                    return Err(e);
                },
            };
            proof {
                let after = self.store@.layers;
                let digest = store::spec_content_digest(layer.data@);
                store::lemma_find_layer(before, digest, 0);
                store::lemma_find_layer(after, digest, 0);
                assert forall|k: int| 0 <= k < i + 1 implies store::spec_find_layer(
                    after,
                    #[trigger] spec_layer_digests(fetched.layers@)[k],
                    0,
                ) < after.len() by {
                    if k < i {
                        store::lemma_find_layer_stable(
                            before,
                            after,
                            spec_layer_digests(fetched.layers@)[k],
                            0,
                        );
                    } else if store::spec_find_layer(before, digest, 0) < before.len() {
                        store::lemma_find_layer_stable(before, after, digest, 0);
                    } else {
                        assert(after[after.len() - 1].digest == digest);
                    }
                }
            }
            let size = layer.data.len() as u64;
            total = if total > u64::MAX - size {
                u64::MAX
            } else {
                total + size
            };
            let ghost seen = crate::text::strings_view(digests@);
            digests.push(blob.digest.clone());
            proof {
                let next = spec_layer_digests(fetched.layers@.take(i + 1));
                let now_seen = crate::text::strings_view(digests@);
                assert(now_seen =~= seen.push(blob.digest@));
                assert(next.len() == i + 1);
                assert forall|k: int| 0 <= k < i + 1 implies now_seen[k] == next[k] by {
                    if k < i {
                        assert(seen[k] == spec_layer_digests(fetched.layers@.take(i as int))[k]);
                        assert(fetched.layers@.take(i as int)[k] == fetched.layers@.take(i + 1)[k]);
                    }
                }
                assert(now_seen =~= next);
            }
            blobs.push(blob);
            i += 1;
        }
        proof {
            assert(fetched.layers@.take(fetched.layers@.len() as int) =~= fetched.layers@);
            let names = crate::text::strings_view(digests@);
            store::lemma_find_unknown(self.store@.layers, names, 0);
            let miss = store::spec_find_unknown(self.store@.layers, names, 0);
            if miss < names.len() {
                assert(names[miss] == spec_layer_digests(fetched.layers@)[miss]);
            }
        }
        let config_blob = match self.store.save_config(fetched.config.as_slice()) {
            Ok(b) => b,
            Err(e) => {
                return Err(e);
            },
        };
        let rootfs = self.store.rootfs_path(manifest_digest.as_str());
        let config_json: Option<&str> = match &fetched.config_json {
            Some(c) => Some(c.as_str()),
            None => None,
        };
        match self.store.upsert_image(
            canonical.as_str(),
            manifest_digest.as_str(),
            total,
            config_json,
            digests.as_slice(),
            now,
        ) {
            Ok(()) => {},
            Err(e) => {
                return Err(e);
            },
        }
        Ok(
            PullPlan {
                result: PullResult {
                    reference: canonical,
                    digest: manifest_digest,
                    rootfs,
                    config: crate::text::clone_opt_string(&fetched.config_json),
                },
                blobs,
                config_blob,
                extract: !rootfs_is_dir,
            },
        )
    }
}

/// Once the saving of a layer fails, the saving of all layers fails.
pub proof fn lemma_save_all_fails(index: Seq<store::LayerView>, layers: Seq<FetchedLayer>, i: int)
    requires
        0 <= i < layers.len(),
        spec_save_all(index, layers.take(i + 1)) is None,
    ensures
        spec_save_all(index, layers) is None,
    decreases layers.len() - i,
{
    if i + 1 < layers.len() {
        assert(layers.take(i + 2).drop_last() =~= layers.take(i + 1));
        lemma_save_all_fails(index, layers, i + 1);
    } else {
        assert(layers.take(i + 1) =~= layers);
    }
}

} // verus!
