use bux::oci::extract::{apply_entry, apply_layer, classify_entry, is_gzip, EntryAction};
use bux::oci::store::content_digest;
use bux::oci::{Error, FetchedImage, FetchedLayer, Oci, Store};

const EMPTY_SHA256: &str =
    "sha256:e3b0c44298fc1c149afbf4c8996fb92427ae41e4649b934ca495991b7852b855";
const ABC_SHA256: &str =
    "sha256:ba7816bf8f01cfea414140de5dae2223b00361a396177a9cb410ff61f20015ad";

fn digests(list: &[&str]) -> Vec<String> {
    list.iter().map(|s| s.to_string()).collect()
}

#[test]
fn blobs_are_named_by_their_content() {
    assert_eq!(content_digest(b""), EMPTY_SHA256);
    assert_eq!(content_digest(b"abc"), ABC_SHA256);
}

#[test]
fn store_layout() {
    let store = Store::new("/var/lib/bux");
    assert_eq!(store.layer_path("sha256:abc"), "/var/lib/bux/blobs/sha256-abc");
    assert_eq!(store.config_path("sha256:abc"), "/var/lib/bux/configs/sha256-abc");
    assert_eq!(store.rootfs_path("sha256:abc"), "/var/lib/bux/rootfs/sha256-abc");
}

#[test]
fn saving_the_same_layer_twice_counts_twice_in_one_place() {
    let mut store = Store::new("/s");
    let first = store.save_layer(b"abc", "application/vnd.oci.image.layer.v1.tar+gzip").unwrap();
    let second = store.save_layer(b"abc", "application/vnd.oci.image.layer.v1.tar+gzip").unwrap();
    assert_eq!(first.digest, ABC_SHA256);
    assert_eq!(first.digest, second.digest);
    assert_eq!(first.path, second.path);
    assert_eq!(
        first.path,
        "/s/blobs/sha256-ba7816bf8f01cfea414140de5dae2223b00361a396177a9cb410ff61f20015ad"
    );
    // Two images use the layer; it leaves with the second of them.
    store.upsert_image("a", "sha256:m1", 3, None, &digests(&[ABC_SHA256]), 1).unwrap();
    store.upsert_image("b", "sha256:m2", 3, None, &digests(&[ABC_SHA256]), 2).unwrap();
    let gone = store.remove_image("a").unwrap();
    assert!(gone.unlink.is_empty());
    assert_eq!(gone.rootfs.as_deref(), Some("/s/rootfs/sha256-m1"));
    let gone = store.remove_image("b").unwrap();
    assert_eq!(gone.unlink, vec![first.path.clone()]);
    assert_eq!(gone.rootfs.as_deref(), Some("/s/rootfs/sha256-m2"));
    // Now the layer is unknown again.
    assert!(matches!(
        store.upsert_image("c", "sha256:m3", 3, None, &digests(&[ABC_SHA256]), 3),
        Err(Error::Db(_))
    ));
}

#[test]
fn save_config_names_without_counting() {
    let store = Store::new("/s");
    let blob = store.save_config(b"").unwrap();
    assert_eq!(blob.digest, EMPTY_SHA256);
    assert_eq!(
        blob.path,
        "/s/configs/sha256-e3b0c44298fc1c149afbf4c8996fb92427ae41e4649b934ca495991b7852b855"
    );
}

#[test]
fn images_are_listed_newest_first_and_replaced_in_place() {
    let mut store = Store::new("/s");
    let l = store.save_layer(b"abc", "t").unwrap().digest;
    store.upsert_image("old", "sha256:1", 10, Some("{}"), &[l.clone()], 100).unwrap();
    store.upsert_image("new", "sha256:2", 20, None, &[l.clone()], 200).unwrap();
    let list = store.list_images().unwrap();
    assert_eq!(list.len(), 2);
    assert_eq!((list[0].reference.as_str(), list[0].digest.as_str(), list[0].size), ("new", "sha256:2", 20));
    assert_eq!((list[1].reference.as_str(), list[1].digest.as_str(), list[1].size), ("old", "sha256:1", 10));
    store.upsert_image("old", "sha256:3", 30, None, &[l], 300).unwrap();
    let list = store.list_images().unwrap();
    assert_eq!(list.len(), 2);
    assert_eq!((list[0].reference.as_str(), list[0].digest.as_str(), list[0].size), ("old", "sha256:3", 30));
    assert_eq!(store.get_digest("old").unwrap().as_deref(), Some("sha256:3"));
    assert_eq!(store.get_digest("none").unwrap(), None);
    assert_eq!(store.load_image_config("none").unwrap(), None);
    assert!(matches!(store.load_image_config("old"), Err(Error::Db(_))));
}

#[test]
fn stored_config_comes_back() {
    let mut store = Store::new("/s");
    store.upsert_image("img", "sha256:1", 0, Some("{\"config\":{}}"), &[], 1).unwrap();
    assert_eq!(store.load_image_config("img").unwrap().as_deref(), Some("{\"config\":{}}"));
}

#[test]
fn a_layer_named_twice_is_released_once() {
    let mut store = Store::new("/s");
    let l = store.save_layer(b"abc", "t").unwrap().digest;
    store.save_layer(b"abc", "t").unwrap();
    store.upsert_image("img", "sha256:1", 0, None, &[l.clone(), l], 1).unwrap();
    // The count is two, and the image gives up one.
    let gone = store.remove_image("img").unwrap();
    assert!(gone.unlink.is_empty());
}

#[test]
fn removal_is_refused_while_another_image_needs_the_layer() {
    let mut store = Store::new("/s");
    let l = store.save_layer(b"abc", "t").unwrap().digest;
    store.upsert_image("a", "sha256:1", 0, None, &[l.clone()], 1).unwrap();
    store.upsert_image("b", "sha256:2", 0, None, &[l], 2).unwrap();
    match store.remove_image("a") {
        Err(Error::Db(m)) => assert_eq!(m, "FOREIGN KEY constraint failed"),
        other => panic!("expected Db, got {other:?}"),
    }
    assert_eq!(store.list_images().unwrap().len(), 2);
    // An image that is not there is no error.
    let none = store.remove_image("zzz").unwrap();
    assert!(none.unlink.is_empty() && none.rootfs.is_none());
}

#[test]
fn pull_saves_layers_and_writes_the_record() {
    let mut oci = Oci::open_at("/s");
    let fetched = FetchedImage {
        digest: Some("sha256:manifest".into()),
        layers: vec![
            FetchedLayer { data: b"abc".to_vec(), media_type: String::new() },
            FetchedLayer { data: Vec::new(), media_type: "application/x-tar".into() },
        ],
        config: b"{}".to_vec(),
        config_json: Some("{}".into()),
    };
    let plan = oci.pull("alpine", &fetched, false, 7).unwrap();
    assert_eq!(plan.result.reference, "docker.io/library/alpine:latest");
    assert_eq!(plan.result.digest, "sha256:manifest");
    assert_eq!(plan.result.rootfs, "/s/rootfs/sha256-manifest");
    assert_eq!(plan.result.config.as_deref(), Some("{}"));
    assert!(plan.extract);
    assert_eq!(plan.blobs.len(), 2);
    assert_eq!(plan.blobs[0].digest, ABC_SHA256);
    assert_eq!(plan.blobs[1].digest, EMPTY_SHA256);
    assert_eq!(plan.config_blob.digest, content_digest(b"{}"));
    let images = oci.images().unwrap();
    assert_eq!(images.len(), 1);
    assert_eq!(images[0].reference, "docker.io/library/alpine:latest");
    assert_eq!(images[0].size, 3);

    // The cached image is found again, and a second pull unpacks nothing.
    let cached = oci.ensure("alpine:latest").unwrap().unwrap();
    assert_eq!(cached.digest, "sha256:manifest");
    assert_eq!(cached.rootfs, "/s/rootfs/sha256-manifest");
    assert_eq!(cached.config.as_deref(), Some("{}"));
    assert!(oci.ensure("ubuntu").unwrap().is_none());
    let again = oci.pull("alpine", &fetched, true, 8).unwrap();
    assert!(!again.extract);
    assert_eq!(oci.images().unwrap().len(), 1);

    assert!(matches!(oci.pull("", &fetched, true, 9), Err(Error::InvalidReference(_))));
    assert!(matches!(oci.remove(" "), Err(Error::InvalidReference(_))));
    // Two pulls counted every layer twice; the image gives up one.
    let gone = oci.remove("alpine").unwrap();
    assert!(gone.unlink.is_empty());
    assert_eq!(gone.rootfs.as_deref(), Some("/s/rootfs/sha256-manifest"));
    assert!(oci.images().unwrap().is_empty());
}

#[test]
fn gzip_media_types() {
    assert!(is_gzip("application/vnd.oci.image.layer.v1.tar+gzip"));
    assert!(is_gzip("application/vnd.docker.image.rootfs.diff.tar.gzip"));
    assert!(is_gzip("application/x-anything+gzip"));
    assert!(!is_gzip("application/vnd.oci.image.layer.v1.tar"));
    assert!(!is_gzip(""));
}

#[test]
fn entries_are_classified() {
    assert!(matches!(classify_entry("a/x"), EntryAction::Unpack { path } if path == "a/x"));
    assert!(matches!(classify_entry("a/"), EntryAction::Unpack { path } if path == "a"));
    assert!(matches!(classify_entry("a/.wh.x"), EntryAction::Remove { path } if path == "a/x"));
    assert!(matches!(classify_entry(".wh.x"), EntryAction::Remove { path } if path == "x"));
    assert!(matches!(classify_entry("a/b/.wh..wh..opq"), EntryAction::ClearDir { dir } if dir == "a/b"));
    assert!(matches!(classify_entry(".wh..wh..opq"), EntryAction::ClearDir { dir } if dir.is_empty()));
    assert!(matches!(classify_entry(""), EntryAction::Skip));
    assert!(matches!(classify_entry("/"), EntryAction::Skip));
    assert!(matches!(classify_entry("a/.."), EntryAction::Skip));
    assert!(matches!(classify_entry("a/.whx"), EntryAction::Unpack { .. }));
}

#[test]
fn whiteout_removes_the_sibling() {
    let mut tree: Vec<String> = Vec::new();
    apply_layer(&mut tree, &digests(&["a/", "a/x", "a/y", "a/x/deep", "ax"]));
    assert_eq!(tree, vec!["a", "a/x", "a/y", "a/x/deep", "ax"]);
    apply_layer(&mut tree, &digests(&["a/.wh.x"]));
    assert_eq!(tree, vec!["a", "a/y", "ax"]);
}

#[test]
fn opaque_whiteout_empties_the_directory() {
    let mut tree: Vec<String> = Vec::new();
    apply_layer(&mut tree, &digests(&["a/", "a/x", "a/sub/", "a/sub/y", "b/z"]));
    apply_layer(&mut tree, &digests(&["a/.wh..wh..opq", "a/new"]));
    assert_eq!(tree, vec!["a", "b/z", "a/new"]);
    // At the root an opaque whiteout empties everything.
    apply_entry(&mut tree, ".wh..wh..opq");
    assert!(tree.is_empty());
}

#[test]
fn unpacking_twice_lists_once() {
    let mut tree: Vec<String> = Vec::new();
    apply_layer(&mut tree, &digests(&["a/x", "a/x", "a/x/"]));
    assert_eq!(tree, vec!["a/x"]);
}
